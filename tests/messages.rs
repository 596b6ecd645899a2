use juno::models::{BaseMessage, Value};

#[test]
fn check_types_are_storing_values() {
    let messages = [
        BaseMessage::RegisterModuleRequest {
            request_id: String::from("request_id"),
            module_id: String::from("module_id"),
            version: String::from("version"),
            dependencies: Vec::new(),
        },
        BaseMessage::RegisterModuleResponse {
            request_id: String::from("request_id"),
        },
        BaseMessage::FunctionCallRequest {
            request_id: String::from("request_id"),
            function: String::from("function"),
            arguments: Vec::new(),
        },
        BaseMessage::FunctionCallResponse {
            request_id: String::from("request_id"),
            data: Value::Null,
        },
        BaseMessage::RegisterHookRequest {
            request_id: String::from("request_id"),
            hook: String::from("hook"),
        },
        BaseMessage::ListenHookResponse {
            request_id: String::from("request_id"),
        },
        BaseMessage::TriggerHookRequest {
            request_id: String::from("request_id"),
            hook: String::from("hook"),
        },
        BaseMessage::TriggerHookResponse {
            request_id: String::from("request_id"),
        },
        BaseMessage::DeclareFunctionRequest {
            request_id: String::from("request_id"),
            function: String::from("function"),
        },
        BaseMessage::DeclareFunctionResponse {
            request_id: String::from("request_id"),
            function: String::from("function"),
        },
        BaseMessage::Error {
            request_id: String::from("request_id"),
            error: 0,
        },
        BaseMessage::Unknown {
            request_id: String::from("request_id"),
        },
    ];

    for message in messages.iter() {
        match message {
            BaseMessage::RegisterModuleRequest {
                request_id,
                module_id,
                version,
                dependencies,
            } => {
                assert_eq!(request_id, &String::from("request_id"));
                assert_eq!(module_id, &String::from("module_id"));
                assert_eq!(version, &String::from("version"));
                assert_eq!(dependencies, &Vec::new());
            }
            BaseMessage::RegisterModuleResponse { request_id } => {
                assert_eq!(request_id, &String::from("request_id"));
            }
            BaseMessage::FunctionCallRequest {
                request_id,
                function,
                arguments,
            } => {
                assert_eq!(request_id, &String::from("request_id"));
                assert_eq!(function, &String::from("function"));
                assert_eq!(arguments, &Vec::new());
            }
            BaseMessage::FunctionCallResponse { request_id, data } => {
                assert_eq!(request_id, &String::from("request_id"));
                assert_eq!(data, &Value::Null);
            }
            BaseMessage::RegisterHookRequest { request_id, hook } => {
                assert_eq!(request_id, &String::from("request_id"));
                assert_eq!(hook, &String::from("hook"));
            }
            BaseMessage::ListenHookResponse { request_id } => {
                assert_eq!(request_id, &String::from("request_id"));
            }
            BaseMessage::TriggerHookRequest { request_id, hook } => {
                assert_eq!(request_id, &String::from("request_id"));
                assert_eq!(hook, &String::from("hook"));
            }
            BaseMessage::TriggerHookResponse { request_id } => {
                assert_eq!(request_id, &String::from("request_id"));
            }
            BaseMessage::DeclareFunctionRequest {
                request_id,
                function,
            } => {
                assert_eq!(request_id, &String::from("request_id"));
                assert_eq!(function, &String::from("function"));
            }
            BaseMessage::DeclareFunctionResponse {
                request_id,
                function,
            } => {
                assert_eq!(request_id, &String::from("request_id"));
                assert_eq!(function, &String::from("function"));
            }
            BaseMessage::Error { request_id, error } => {
                assert_eq!(request_id, &String::from("request_id"));
                assert_eq!(error, &0);
            }
            BaseMessage::Unknown { request_id } => {
                assert_eq!(request_id, &String::from("request_id"));
            }
        }
    }
}

#[test]
fn message_type_tags_follow_the_table() {
    let id = || String::from("r");
    let cases: Vec<(BaseMessage, u64)> = vec![
        (BaseMessage::Error { request_id: id(), error: 3 }, 0),
        (BaseMessage::Unknown { request_id: id() }, 0),
        (
            BaseMessage::RegisterModuleRequest {
                request_id: id(),
                module_id: id(),
                version: id(),
                dependencies: Vec::new(),
            },
            1,
        ),
        (BaseMessage::RegisterModuleResponse { request_id: id() }, 2),
        (
            BaseMessage::FunctionCallRequest { request_id: id(), function: id(), arguments: Vec::new() },
            3,
        ),
        (BaseMessage::FunctionCallResponse { request_id: id(), data: Value::Null }, 4),
        (BaseMessage::RegisterHookRequest { request_id: id(), hook: id() }, 5),
        (BaseMessage::ListenHookResponse { request_id: id() }, 6),
        (BaseMessage::TriggerHookRequest { request_id: id(), hook: id() }, 7),
        (BaseMessage::TriggerHookResponse { request_id: id() }, 8),
        (BaseMessage::DeclareFunctionRequest { request_id: id(), function: id() }, 9),
        (BaseMessage::DeclareFunctionResponse { request_id: id(), function: id() }, 10),
    ];
    for (message, tag) in cases.iter() {
        assert_eq!(message.get_type(), *tag);
        assert_eq!(message.get_request_id(), "r");
    }
}
