//! The closed set of protocol messages.
use crate::models::value::Value;
use crate::utils::request_types;
use vstd::prelude::*;

verus! {

/// A protocol message. Every variant carries the request id that correlates a
/// request with its response.
#[derive(Debug, PartialEq)]
pub enum BaseMessage {
    RegisterModuleRequest {
        request_id: String,
        module_id: String,
        version: String,
        dependencies: Vec<(String, String)>,
    },
    RegisterModuleResponse { request_id: String },
    FunctionCallRequest { request_id: String, function: String, arguments: Vec<(String, Value)> },
    FunctionCallResponse { request_id: String, data: Value },
    RegisterHookRequest { request_id: String, hook: String },
    ListenHookResponse { request_id: String },
    TriggerHookRequest { request_id: String, hook: String },
    TriggerHookResponse { request_id: String },
    DeclareFunctionRequest { request_id: String, function: String },
    DeclareFunctionResponse { request_id: String, function: String },
    Error { request_id: String, error: u32 },
    Unknown { request_id: String },
}

/// A message with its text as character sequences and its lists as sequences.
pub enum MessageView {
    RegisterModuleRequest {
        request_id: Seq<char>,
        module_id: Seq<char>,
        version: Seq<char>,
        dependencies: Seq<(Seq<char>, Seq<char>)>,
    },
    RegisterModuleResponse { request_id: Seq<char> },
    FunctionCallRequest {
        request_id: Seq<char>,
        function: Seq<char>,
        arguments: Seq<(Seq<char>, Value)>,
    },
    FunctionCallResponse { request_id: Seq<char>, data: Value },
    RegisterHookRequest { request_id: Seq<char>, hook: Seq<char> },
    ListenHookResponse { request_id: Seq<char> },
    TriggerHookRequest { request_id: Seq<char>, hook: Seq<char> },
    TriggerHookResponse { request_id: Seq<char> },
    DeclareFunctionRequest { request_id: Seq<char>, function: Seq<char> },
    DeclareFunctionResponse { request_id: Seq<char>, function: Seq<char> },
    Error { request_id: Seq<char>, error: u32 },
    Unknown { request_id: Seq<char> },
}

/// Text pairs as pairs of character sequences.
pub open spec fn text_pairs_view(s: Seq<(String, String)>) -> Seq<(Seq<char>, Seq<char>)> {
    s.map_values(|p: (String, String)| (p.0@, p.1@))
}

/// Object entries with their keys as character sequences.
pub open spec fn entries_view(s: Seq<(String, Value)>) -> Seq<(Seq<char>, Value)> {
    s.map_values(|p: (String, Value)| (p.0@, p.1))
}

impl View for BaseMessage {
    type V = MessageView;

    open spec fn view(&self) -> MessageView {
        match self {
            BaseMessage::RegisterModuleRequest { request_id, module_id, version, dependencies } =>
                MessageView::RegisterModuleRequest {
                request_id: request_id@,
                module_id: module_id@,
                version: version@,
                dependencies: text_pairs_view(dependencies@),
            },
            BaseMessage::RegisterModuleResponse { request_id } =>
                MessageView::RegisterModuleResponse { request_id: request_id@ },
            BaseMessage::FunctionCallRequest { request_id, function, arguments } =>
                MessageView::FunctionCallRequest {
                request_id: request_id@,
                function: function@,
                arguments: entries_view(arguments@),
            },
            BaseMessage::FunctionCallResponse { request_id, data } =>
                MessageView::FunctionCallResponse { request_id: request_id@, data: *data },
            BaseMessage::RegisterHookRequest { request_id, hook } =>
                MessageView::RegisterHookRequest { request_id: request_id@, hook: hook@ },
            BaseMessage::ListenHookResponse { request_id } =>
                MessageView::ListenHookResponse { request_id: request_id@ },
            BaseMessage::TriggerHookRequest { request_id, hook } =>
                MessageView::TriggerHookRequest { request_id: request_id@, hook: hook@ },
            BaseMessage::TriggerHookResponse { request_id } =>
                MessageView::TriggerHookResponse { request_id: request_id@ },
            BaseMessage::DeclareFunctionRequest { request_id, function } =>
                MessageView::DeclareFunctionRequest { request_id: request_id@, function: function@ },
            BaseMessage::DeclareFunctionResponse { request_id, function } =>
                MessageView::DeclareFunctionResponse {
                request_id: request_id@,
                function: function@,
            },
            BaseMessage::Error { request_id, error } =>
                MessageView::Error { request_id: request_id@, error: *error },
            BaseMessage::Unknown { request_id } => MessageView::Unknown { request_id: request_id@ },
        }
    }
}

/// The type tag of a message on the wire; an unknown message is sent as an error.
pub open spec fn type_tag(m: MessageView) -> u64 {
    match m {
        MessageView::Error { .. } => 0,
        MessageView::Unknown { .. } => 0,
        MessageView::RegisterModuleRequest { .. } => 1,
        MessageView::RegisterModuleResponse { .. } => 2,
        MessageView::FunctionCallRequest { .. } => 3,
        MessageView::FunctionCallResponse { .. } => 4,
        MessageView::RegisterHookRequest { .. } => 5,
        MessageView::ListenHookResponse { .. } => 6,
        MessageView::TriggerHookRequest { .. } => 7,
        MessageView::TriggerHookResponse { .. } => 8,
        MessageView::DeclareFunctionRequest { .. } => 9,
        MessageView::DeclareFunctionResponse { .. } => 10,
    }
}

/// The request id that a message carries.
pub open spec fn request_id_of(m: MessageView) -> Seq<char> {
    match m {
        MessageView::RegisterModuleRequest { request_id, .. } => request_id,
        MessageView::RegisterModuleResponse { request_id } => request_id,
        MessageView::FunctionCallRequest { request_id, .. } => request_id,
        MessageView::FunctionCallResponse { request_id, .. } => request_id,
        MessageView::RegisterHookRequest { request_id, .. } => request_id,
        MessageView::ListenHookResponse { request_id } => request_id,
        MessageView::TriggerHookRequest { request_id, .. } => request_id,
        MessageView::TriggerHookResponse { request_id } => request_id,
        MessageView::DeclareFunctionRequest { request_id, .. } => request_id,
        MessageView::DeclareFunctionResponse { request_id, .. } => request_id,
        MessageView::Error { request_id, .. } => request_id,
        MessageView::Unknown { request_id } => request_id,
    }
}

impl BaseMessage {
    pub fn get_type(&self) -> (r: u64)
        ensures
            r == type_tag(self@),
    {
        match self {
            BaseMessage::Unknown { .. } | BaseMessage::Error { .. } => request_types::ERROR,
            BaseMessage::RegisterModuleRequest { .. } => request_types::MODULE_REGISTRATION,
            BaseMessage::RegisterModuleResponse { .. } => request_types::MODULE_REGISTERED,
            BaseMessage::FunctionCallRequest { .. } => request_types::FUNCTION_CALL,
            BaseMessage::FunctionCallResponse { .. } => request_types::FUNCTION_RESPONSE,
            BaseMessage::RegisterHookRequest { .. } => request_types::REGISTER_HOOK,
            BaseMessage::ListenHookResponse { .. } => request_types::HOOK_REGISTERED,
            BaseMessage::TriggerHookRequest { .. } => request_types::TRIGGER_HOOK,
            BaseMessage::TriggerHookResponse { .. } => request_types::HOOK_TRIGGERED,
            BaseMessage::DeclareFunctionRequest { .. } => request_types::DECLARE_FUNCTION,
            BaseMessage::DeclareFunctionResponse { .. } => request_types::FUNCTION_DECLARED,
        }
    }

    pub fn get_request_id(&self) -> (r: &String)
        ensures
            r@ == request_id_of(self@),
    {
        match self {
            BaseMessage::RegisterModuleRequest { request_id, .. } => request_id,
            BaseMessage::RegisterModuleResponse { request_id } => request_id,
            BaseMessage::FunctionCallRequest { request_id, .. } => request_id,
            BaseMessage::FunctionCallResponse { request_id, .. } => request_id,
            BaseMessage::RegisterHookRequest { request_id, .. } => request_id,
            BaseMessage::ListenHookResponse { request_id } => request_id,
            BaseMessage::TriggerHookRequest { request_id, .. } => request_id,
            BaseMessage::TriggerHookResponse { request_id } => request_id,
            BaseMessage::DeclareFunctionRequest { request_id, .. } => request_id,
            BaseMessage::DeclareFunctionResponse { request_id, .. } => request_id,
            BaseMessage::Error { request_id, .. } => request_id,
            BaseMessage::Unknown { request_id } => request_id,
        }
    }
}

} // verus!
