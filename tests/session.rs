use juno::models::{BaseMessage, Number, Value};
use juno::protocol::BaseProtocol;
use juno::session::{InitStep, Outgoing, Session, SessionState, Work};
use juno::Error;

type Handler = fn(Vec<(String, Value)>) -> Value;
type Listener = &'static str;
type TestSession = Session<u32, Handler, Listener>;

fn text(s: &str) -> Value {
    Value::String(s.to_string())
}

fn uint(n: u64) -> Value {
    Value::Number(Number::UnsignedInteger(n))
}

fn object(entries: Vec<(&str, Value)>) -> Value {
    Value::Object(entries.into_iter().map(|(k, v)| (k.to_string(), v)).collect())
}

fn field<'a>(doc: &'a Value, key: &str) -> &'a Value {
    match doc {
        Value::Object(entries) => &entries.iter().rev().find(|(k, _)| k == key).unwrap().1,
        _ => panic!("not an object"),
    }
}

fn id_of(doc: &Value) -> String {
    field(doc, "requestId").as_string().unwrap().clone()
}

fn sent(out: Outgoing<u32>) -> Value {
    match out {
        Outgoing::Send { frame } => frame,
        Outgoing::Resolved { .. } => panic!("nothing was sent"),
    }
}

fn not_registered(out: Outgoing<u32>, handle: u32) {
    match out {
        Outgoing::Resolved { completion, result: Err(Error::Internal(text)) } => {
            assert_eq!(completion, handle);
            assert_eq!(text, "Module not registered. Did you .await the call to initialize?");
        }
        _ => panic!("expected a refusal"),
    }
}

fn inbound(session: &TestSession, doc: Value) -> BaseMessage {
    session.protocol().decode(Some(doc))
}

fn add(args: Vec<(String, Value)>) -> Value {
    let mut sum = 0u64;
    for (_, v) in args.iter() {
        if let Value::Number(Number::UnsignedInteger(n)) = v {
            sum += n;
        }
    }
    uint(sum)
}

fn registered(module_id: &str) -> TestSession {
    let mut session: TestSession = Session::new(BaseProtocol::default());
    assert!(matches!(session.start_initialize(), InitStep::Connect));
    let frame = sent(session.register(module_id.to_string(), "1.0.0".to_string(), Vec::new(), 0));
    let id = id_of(&frame);
    let ack = inbound(&session, object(vec![("type", uint(2)), ("requestId", text(&id))]));
    let (handle, result) = session.dispatch(ack).completion.unwrap();
    assert_eq!(handle, 0);
    assert_eq!(result.as_ref().unwrap(), &Value::Null);
    session.finish_initialize(&result);
    assert!(session.is_registered());
    session
}

#[test]
fn initialize_registers_after_the_acknowledgment() {
    let mut session: TestSession = Session::new(BaseProtocol::default());
    assert_eq!(session.state(), SessionState::Unconnected);
    assert!(matches!(session.start_initialize(), InitStep::Connect));
    assert_eq!(session.state(), SessionState::Connecting);
    let frame = sent(session.register("mod-a".to_string(), "1.0.0".to_string(), Vec::new(), 7));
    assert_eq!(session.state(), SessionState::AwaitingRegistrationAck);
    assert_eq!(field(&frame, "type"), &uint(1));
    assert_eq!(field(&frame, "moduleId"), &text("mod-a"));
    assert_eq!(field(&frame, "version"), &text("1.0.0"));
    assert_eq!(field(&frame, "dependencies"), &Value::Object(Vec::new()));
    let id = id_of(&frame);
    assert!(id.starts_with("mod-a-"));
    assert!(id["mod-a-".len()..].chars().all(|c| c.is_ascii_digit()));
    assert!(session.is_pending(&id));

    let ack = inbound(&session, object(vec![("type", uint(2)), ("requestId", text(&id))]));
    let (handle, result) = session.dispatch(ack).completion.unwrap();
    assert_eq!(handle, 7);
    assert!(result.is_ok());
    session.finish_initialize(&result);
    assert_eq!(session.state(), SessionState::Registered);
    assert!(!session.is_pending(&id));

    let call = session.call_function("other.f".to_string(), Vec::new(), 8);
    assert_eq!(field(&sent(call), "type"), &uint(3));
}

#[test]
fn initialize_twice_succeeds_without_sending() {
    let mut session = registered("mod-a");
    assert!(matches!(session.start_initialize(), InitStep::AlreadyRegistered));
    match session.register("mod-a".to_string(), "1.0.0".to_string(), Vec::new(), 3) {
        Outgoing::Resolved { completion, result: Ok(Value::Null) } => assert_eq!(completion, 3),
        _ => panic!("a registered module must not register again"),
    }
}

#[test]
fn initialize_while_connecting_is_refused() {
    let mut session: TestSession = Session::new(BaseProtocol::default());
    assert!(matches!(session.start_initialize(), InitStep::Connect));
    match session.start_initialize() {
        InitStep::Refused(Error::Internal(text)) => {
            assert_eq!(text, "Module is already connecting, or its session is closed")
        }
        _ => panic!("expected a refusal"),
    }
}

#[test]
fn rejected_registration_closes_the_session() {
    let mut session: TestSession = Session::new(BaseProtocol::default());
    session.start_initialize();
    let frame = sent(session.register("dup".to_string(), "1".to_string(), Vec::new(), 1));
    let id = id_of(&frame);
    let refusal = inbound(
        &session,
        object(vec![("type", uint(0)), ("requestId", text(&id)), ("error", uint(7))]),
    );
    let (_, result) = session.dispatch(refusal).completion.unwrap();
    assert!(matches!(result, Err(Error::FromJuno(7))));
    session.finish_initialize(&result);
    assert_eq!(session.state(), SessionState::Closed);
    not_registered(session.call_function("f".to_string(), Vec::new(), 2), 2);
}

#[test]
fn transport_failure_closes_the_session() {
    let mut session: TestSession = Session::new(BaseProtocol::default());
    session.start_initialize();
    session.transport_failed();
    assert_eq!(session.state(), SessionState::Closed);
    assert!(matches!(session.start_initialize(), InitStep::Refused(_)));
}

#[test]
fn calls_before_registration_are_refused_without_sending() {
    let mut session: TestSession = Session::new(BaseProtocol::default());
    not_registered(session.call_function("math.add".to_string(), Vec::new(), 1), 1);
    not_registered(session.declare_function("add".to_string(), add, 2), 2);
    not_registered(session.register_hook("x".to_string(), "cb", 3), 3);
    not_registered(session.trigger_hook("x".to_string(), 4), 4);
    session.start_initialize();
    let frame = sent(session.register("m".to_string(), "1".to_string(), Vec::new(), 5));
    not_registered(session.call_function("math.add".to_string(), Vec::new(), 6), 6);
    assert!(!session.is_pending(""));
    assert!(session.is_pending(&id_of(&frame)));
}

#[test]
fn call_function_resolves_to_the_response_data() {
    let mut session = registered("mod-a");
    let args = vec![("a".to_string(), uint(1)), ("b".to_string(), uint(2))];
    let frame = sent(session.call_function("math.add".to_string(), args, 11));
    assert_eq!(field(&frame, "type"), &uint(3));
    assert_eq!(field(&frame, "function"), &text("math.add"));
    assert_eq!(field(&frame, "arguments"), &object(vec![("a", uint(1)), ("b", uint(2))]));
    let id = id_of(&frame);
    let reply = inbound(
        &session,
        object(vec![("type", uint(4)), ("requestId", text(&id)), ("data", uint(3))]),
    );
    let outcome = session.dispatch(reply);
    assert!(matches!(outcome.work, Work::Nothing));
    let (handle, result) = outcome.completion.unwrap();
    assert_eq!(handle, 11);
    assert_eq!(result.unwrap(), Value::Number(Number::UnsignedInteger(3)));
    assert!(!session.is_pending(&id));
}

#[test]
fn error_response_fails_the_call_with_the_remote_code() {
    let mut session = registered("mod-a");
    let id = id_of(&sent(session.call_function("nope".to_string(), Vec::new(), 4)));
    let reply = inbound(
        &session,
        object(vec![("type", uint(0)), ("requestId", text(&id)), ("error", uint(5))]),
    );
    let (handle, result) = session.dispatch(reply).completion.unwrap();
    assert_eq!(handle, 4);
    assert!(matches!(result, Err(Error::FromJuno(5))));
}

#[test]
fn scrambled_responses_reach_their_own_callers() {
    let mut session = registered("mod-a");
    let mut ids = Vec::new();
    for handle in 1..=5u32 {
        let frame = sent(session.call_function("f".to_string(), Vec::new(), handle));
        ids.push((handle, id_of(&frame)));
    }
    let order = [3usize, 0, 4, 2, 1];
    for &k in order.iter() {
        let (handle, id) = &ids[k];
        let reply = inbound(
            &session,
            object(vec![("type", uint(4)), ("requestId", text(id)), ("data", uint(*handle as u64 * 100))]),
        );
        let (got, result) = session.dispatch(reply).completion.unwrap();
        assert_eq!(got, *handle);
        assert_eq!(result.unwrap(), uint(*handle as u64 * 100));
    }
    for (_, id) in ids.iter() {
        assert!(!session.is_pending(id));
    }
}

#[test]
fn inbound_call_invokes_the_declared_handler_once() {
    let mut session = registered("mod-b");
    let frame = sent(session.declare_function("add".to_string(), add, 21));
    assert_eq!(field(&frame, "type"), &uint(9));
    assert_eq!(field(&frame, "function"), &text("add"));
    let request = inbound(
        &session,
        object(vec![
            ("type", uint(3)),
            ("requestId", text("peer-77")),
            ("function", text("add")),
            ("arguments", object(vec![("a", uint(1)), ("b", uint(2))])),
        ]),
    );
    let outcome = session.dispatch(request);
    assert!(outcome.completion.is_none());
    match outcome.work {
        Work::Invoke { request_id, handler, arguments } => {
            assert_eq!(request_id, "peer-77");
            let result = handler(arguments);
            assert_eq!(result, uint(3));
            let reply = session.reply_to_call(request_id, result);
            assert_eq!(
                reply,
                object(vec![("requestId", text("peer-77")), ("type", uint(4)), ("data", uint(3))])
            );
        }
        _ => panic!("expected the handler to be invoked"),
    }
}

#[test]
fn later_declaration_replaces_the_handler() {
    fn zero(_: Vec<(String, Value)>) -> Value {
        uint(0)
    }
    let mut session = registered("mod-b");
    sent(session.declare_function("f".to_string(), add, 1));
    sent(session.declare_function("f".to_string(), zero, 2));
    let request = inbound(
        &session,
        object(vec![
            ("type", uint(3)),
            ("requestId", text("p-1")),
            ("function", text("f")),
            ("arguments", object(vec![("a", uint(4))])),
        ]),
    );
    match session.dispatch(request).work {
        Work::Invoke { handler, arguments, .. } => assert_eq!(handler(arguments), uint(0)),
        _ => panic!("expected the handler to be invoked"),
    }
}

#[test]
fn inbound_call_of_unknown_function_replies_error_five() {
    let mut session = registered("mod-b");
    let request = inbound(
        &session,
        object(vec![
            ("type", uint(3)),
            ("requestId", text("peer-9")),
            ("function", text("missing")),
            ("arguments", object(vec![])),
        ]),
    );
    let outcome = session.dispatch(request);
    assert!(outcome.completion.is_none());
    match outcome.work {
        Work::Reply { frame } => assert_eq!(
            frame,
            object(vec![("requestId", text("peer-9")), ("type", uint(0)), ("error", uint(5))])
        ),
        _ => panic!("expected an error reply"),
    }
}

#[test]
fn hook_listeners_run_in_registration_order() {
    let mut session = registered("mod-c");
    let first = sent(session.register_hook("x".to_string(), "cb1", 1));
    assert_eq!(field(&first, "type"), &uint(5));
    assert_eq!(field(&first, "hook"), &text("x"));
    sent(session.register_hook("x".to_string(), "cb2", 2));
    sent(session.register_hook("y".to_string(), "other", 3));
    let trigger = inbound(
        &session,
        object(vec![("type", uint(7)), ("requestId", text("b-1")), ("hook", text("x"))]),
    );
    match session.dispatch(trigger).work {
        Work::Notify { listeners } => assert_eq!(listeners, vec!["cb1", "cb2"]),
        _ => panic!("expected listeners"),
    }
}

#[test]
fn trigger_of_a_hook_without_listeners_is_ignored() {
    let mut session = registered("mod-c");
    let trigger = inbound(
        &session,
        object(vec![("type", uint(7)), ("requestId", text("b-2")), ("hook", text("none"))]),
    );
    let outcome = session.dispatch(trigger);
    assert!(outcome.completion.is_none());
    match outcome.work {
        Work::Notify { listeners } => assert!(listeners.is_empty()),
        _ => panic!("expected an empty notification"),
    }
}

#[test]
fn trigger_hook_sends_a_type_seven_frame() {
    let mut session = registered("mod-c");
    let frame = sent(session.trigger_hook("x".to_string(), 9));
    assert_eq!(field(&frame, "type"), &uint(7));
    assert_eq!(field(&frame, "hook"), &text("x"));
    assert!(session.is_pending(&id_of(&frame)));
}

#[test]
fn unanswered_request_stays_pending() {
    let mut session = registered("mod-d");
    let waiting = id_of(&sent(session.call_function("slow".to_string(), Vec::new(), 1)));
    let other = id_of(&sent(session.call_function("fast".to_string(), Vec::new(), 2)));
    let unrelated = vec![
        object(vec![("type", uint(4)), ("requestId", text(&other)), ("data", Value::Null)]),
        object(vec![("type", uint(4)), ("requestId", text("nobody")), ("data", Value::Null)]),
        object(vec![("type", uint(6)), ("requestId", text("x-1"))]),
        text("garbage"),
    ];
    for doc in unrelated {
        let message = inbound(&session, doc);
        session.dispatch(message);
    }
    assert!(session.is_pending(&waiting));
    assert!(!session.is_pending(&other));
}

#[test]
fn close_reports_whether_a_transport_was_open() {
    let mut fresh: TestSession = Session::new(BaseProtocol::default());
    assert!(!fresh.close());
    assert_eq!(fresh.state(), SessionState::Closed);
    let mut session = registered("mod-e");
    assert!(session.close());
    assert!(!session.close());
    not_registered(session.call_function("f".to_string(), Vec::new(), 1), 1);
}
