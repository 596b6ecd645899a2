//! The JSON wire format at the level of documents: which fields a message is
//! written with, and which message a parsed frame holds. Each frame is one
//! JSON object followed by a newline.
use crate::models::messages::{
    entries_view, request_id_of, text_pairs_view, type_tag as type_tag_of, BaseMessage, MessageView,
};
use crate::models::value::{value_as_u64, value_text, Number, Value};
use crate::protocol::base_protocol::BaseProtocol;
use crate::utils::assoc::{assoc_get, find_key, lemma_get_at};
use crate::utils::request_keys::{
    ARGUMENTS, DATA, DEPENDENCIES, ERROR, FUNCTION, HOOK, MODULE_ID, REQUEST_ID, TYPE, VERSION,
};
use crate::utils::request_types;
use vstd::prelude::*;

verus! {

/// The request id written for a message that has none of its own.
pub const UNDEFINED_ID: &'static str = "undefined";

/// An entry `key: "text"`.
pub open spec fn text_entry(p: (String, Value), key: Seq<char>, text: Seq<char>) -> bool {
    p.0@ == key && value_text(p.1) == Some(text)
}

/// An entry `key: n` with an unsigned integer.
pub open spec fn uint_entry(p: (String, Value), key: Seq<char>, n: u64) -> bool {
    p.0@ == key && p.1 == Value::Number(Number::UnsignedInteger(n))
}

/// An object whose entries are the given text pairs, in order.
pub open spec fn text_object(v: Value, pairs: Seq<(Seq<char>, Seq<char>)>) -> bool {
    match v {
        Value::Object(o) => {
            &&& o@.len() == pairs.len()
            &&& forall|i: int|
                0 <= i < pairs.len() ==> (#[trigger] o@[i]).0@ == pairs[i].0 && value_text(o@[i].1)
                    == Some(pairs[i].1)
        },
        _ => false,
    }
}

/// An object with the given entries, in order.
pub open spec fn entries_object(v: Value, entries: Seq<(Seq<char>, Value)>) -> bool {
    match v {
        Value::Object(o) => entries_view(o@) == entries,
        _ => false,
    }
}

/// `doc` is the wire document of `m`: an object holding `requestId` and `type`
/// first, then the fields of the variant. A message without a variant of its
/// own is written as error 0 with request id `undefined`.
pub open spec fn document_of(m: MessageView, doc: Value) -> bool {
    match doc {
        Value::Object(o) => {
            let e = o@;
            match m {
                MessageView::RegisterModuleRequest { request_id, module_id, version, dependencies } => {
                    &&& e.len() == 5
                    &&& text_entry(e[0], REQUEST_ID@, request_id)
                    &&& uint_entry(e[1], TYPE@, 1)
                    &&& text_entry(e[2], MODULE_ID@, module_id)
                    &&& text_entry(e[3], VERSION@, version)
                    &&& e[4].0@ == DEPENDENCIES@
                    &&& text_object(e[4].1, dependencies)
                },
                MessageView::RegisterModuleResponse { request_id } => {
                    &&& e.len() == 2
                    &&& text_entry(e[0], REQUEST_ID@, request_id)
                    &&& uint_entry(e[1], TYPE@, 2)
                },
                MessageView::FunctionCallRequest { request_id, function, arguments } => {
                    &&& e.len() == 4
                    &&& text_entry(e[0], REQUEST_ID@, request_id)
                    &&& uint_entry(e[1], TYPE@, 3)
                    &&& text_entry(e[2], FUNCTION@, function)
                    &&& e[3].0@ == ARGUMENTS@
                    &&& entries_object(e[3].1, arguments)
                },
                MessageView::FunctionCallResponse { request_id, data } => {
                    &&& e.len() == 3
                    &&& text_entry(e[0], REQUEST_ID@, request_id)
                    &&& uint_entry(e[1], TYPE@, 4)
                    &&& e[2].0@ == DATA@
                    &&& e[2].1 == data
                },
                MessageView::RegisterHookRequest { request_id, hook } => {
                    &&& e.len() == 3
                    &&& text_entry(e[0], REQUEST_ID@, request_id)
                    &&& uint_entry(e[1], TYPE@, 5)
                    &&& text_entry(e[2], HOOK@, hook)
                },
                MessageView::ListenHookResponse { request_id } => {
                    &&& e.len() == 2
                    &&& text_entry(e[0], REQUEST_ID@, request_id)
                    &&& uint_entry(e[1], TYPE@, 6)
                },
                MessageView::TriggerHookRequest { request_id, hook } => {
                    &&& e.len() == 3
                    &&& text_entry(e[0], REQUEST_ID@, request_id)
                    &&& uint_entry(e[1], TYPE@, 7)
                    &&& text_entry(e[2], HOOK@, hook)
                },
                MessageView::TriggerHookResponse { request_id } => {
                    &&& e.len() == 2
                    &&& text_entry(e[0], REQUEST_ID@, request_id)
                    &&& uint_entry(e[1], TYPE@, 8)
                },
                MessageView::DeclareFunctionRequest { request_id, function } => {
                    &&& e.len() == 3
                    &&& text_entry(e[0], REQUEST_ID@, request_id)
                    &&& uint_entry(e[1], TYPE@, 9)
                    &&& text_entry(e[2], FUNCTION@, function)
                },
                MessageView::DeclareFunctionResponse { request_id, function } => {
                    &&& e.len() == 3
                    &&& text_entry(e[0], REQUEST_ID@, request_id)
                    &&& uint_entry(e[1], TYPE@, 10)
                    &&& text_entry(e[2], FUNCTION@, function)
                },
                MessageView::Error { request_id, error } => {
                    &&& e.len() == 3
                    &&& text_entry(e[0], REQUEST_ID@, request_id)
                    &&& uint_entry(e[1], TYPE@, 0)
                    &&& uint_entry(e[2], ERROR@, error as u64)
                },
                MessageView::Unknown { .. } => {
                    &&& e.len() == 3
                    &&& text_entry(e[0], REQUEST_ID@, UNDEFINED_ID@)
                    &&& uint_entry(e[1], TYPE@, 0)
                    &&& uint_entry(e[2], ERROR@, 0)
                },
            }
        },
        _ => false,
    }
}

/// The message that stands for a frame that could not be read.
pub open spec fn unknown_message() -> MessageView {
    MessageView::Unknown { request_id: Seq::empty() }
}

/// The text under `key`, where it is a string.
pub open spec fn field_text(e: Seq<(String, Value)>, key: Seq<char>) -> Option<Seq<char>> {
    match assoc_get(e, key) {
        Some(v) => value_text(v),
        None => None,
    }
}

/// The unsigned integer under `key`, where it is one.
pub open spec fn field_u64(e: Seq<(String, Value)>, key: Seq<char>) -> Option<u64> {
    match assoc_get(e, key) {
        Some(v) => value_as_u64(v),
        None => None,
    }
}

/// The entries of the object under `key`, where it is an object.
pub open spec fn field_entries(e: Seq<(String, Value)>, key: Seq<char>) -> Option<
    Seq<(String, Value)>,
> {
    match assoc_get(e, key) {
        Some(Value::Object(o)) => Some(o@),
        _ => None,
    }
}

/// The text of a string value; empty for any other value.
pub open spec fn text_or_empty(v: Value) -> Seq<char> {
    match v {
        Value::String(s) => s@,
        _ => Seq::empty(),
    }
}

/// The entries as text pairs, where every value is a string.
pub open spec fn text_pairs_of(o: Seq<(String, Value)>) -> Option<Seq<(Seq<char>, Seq<char>)>> {
    if forall|i: int| 0 <= i < o.len() ==> (#[trigger] o[i]).1 is String {
        Some(o.map_values(|p: (String, Value)| (p.0@, text_or_empty(p.1))))
    } else {
        None
    }
}

/// The text pairs of the object under `key`, where it is an object of strings.
pub open spec fn field_text_pairs(e: Seq<(String, Value)>, key: Seq<char>) -> Option<
    Seq<(Seq<char>, Seq<char>)>,
> {
    match field_entries(e, key) {
        Some(o) => text_pairs_of(o),
        None => None,
    }
}

/// The message that the entries of a document object hold. The integer `type`
/// picks the variant; `requestId` and the fields of the variant must be present
/// with the right kind of value, else the message is unknown. A missing `data`
/// reads as null. Fields that the variant does not use are ignored.
pub open spec fn message_of_entries(e: Seq<(String, Value)>) -> MessageView {
    let tag = field_u64(e, TYPE@);
    let id = field_text(e, REQUEST_ID@);
    if tag is None || id is None {
        unknown_message()
    } else {
        let tag = tag->0;
        let id = id->0;
        if tag == 0 {
            match field_u64(e, ERROR@) {
                Some(code) => if code <= u32::MAX {
                    MessageView::Error { request_id: id, error: code as u32 }
                } else {
                    unknown_message()
                },
                None => unknown_message(),
            }
        } else if tag == 1 {
            match (
                field_text(e, MODULE_ID@),
                field_text(e, VERSION@),
                field_text_pairs(e, DEPENDENCIES@),
            ) {
                (Some(module_id), Some(version), Some(dependencies)) =>
                    MessageView::RegisterModuleRequest {
                    request_id: id,
                    module_id,
                    version,
                    dependencies,
                },
                _ => unknown_message(),
            }
        } else if tag == 2 {
            MessageView::RegisterModuleResponse { request_id: id }
        } else if tag == 3 {
            match (field_text(e, FUNCTION@), field_entries(e, ARGUMENTS@)) {
                (Some(function), Some(arguments)) => MessageView::FunctionCallRequest {
                    request_id: id,
                    function,
                    arguments: entries_view(arguments),
                },
                _ => unknown_message(),
            }
        } else if tag == 4 {
            MessageView::FunctionCallResponse {
                request_id: id,
                data: match assoc_get(e, DATA@) {
                    Some(v) => v,
                    None => Value::Null,
                },
            }
        } else if tag == 5 || tag == 7 {
            match field_text(e, HOOK@) {
                Some(hook) => if tag == 5 {
                    MessageView::RegisterHookRequest { request_id: id, hook }
                } else {
                    MessageView::TriggerHookRequest { request_id: id, hook }
                },
                None => unknown_message(),
            }
        } else if tag == 6 {
            MessageView::ListenHookResponse { request_id: id }
        } else if tag == 8 {
            MessageView::TriggerHookResponse { request_id: id }
        } else if tag == 9 || tag == 10 {
            match field_text(e, FUNCTION@) {
                Some(function) => if tag == 9 {
                    MessageView::DeclareFunctionRequest { request_id: id, function }
                } else {
                    MessageView::DeclareFunctionResponse { request_id: id, function }
                },
                None => unknown_message(),
            }
        } else {
            unknown_message()
        }
    }
}

/// The message that a parsed document holds; only an object can hold one.
pub open spec fn message_of_document(doc: Value) -> MessageView {
    match doc {
        Value::Object(o) => message_of_entries(o@),
        _ => unknown_message(),
    }
}

/// The message of a frame, given its parsed document or `None` where the frame
/// is not JSON.
pub open spec fn decoded(data: Option<Value>) -> MessageView {
    match data {
        Some(doc) => message_of_document(doc),
        None => unknown_message(),
    }
}

/// A JSON protocol state with no module id yet.
pub fn default() -> (r: BaseProtocol)
    ensures
        r is JsonProtocol,
        r.module_id_view() == Seq::<char>::empty(),
        r.stamp() == 0,
{
    BaseProtocol::JsonProtocol { module_id: String::new(), last_stamp: 0 }
}

/// A copy of a JSON protocol state.
pub fn from(other: &BaseProtocol) -> (r: BaseProtocol)
    requires
        other is JsonProtocol,
    ensures
        r is JsonProtocol,
        r.module_id_view() == other.module_id_view(),
        r.stamp() == other.stamp(),
{
    match other {
        BaseProtocol::JsonProtocol { module_id, last_stamp } => BaseProtocol::JsonProtocol {
            module_id: module_id.clone(),
            last_stamp: *last_stamp,
        },
        BaseProtocol::MsgPackProtocol { .. } => {
            proof {
                assert(false);
            }
            default()
        },
    }
}

fn text_pair(key: &str, text: String) -> (r: (String, Value))
    ensures
        text_entry(r, key@, text@),
{
    (key.to_owned(), Value::String(text))
}

fn uint_pair(key: &str, n: u64) -> (r: (String, Value))
    ensures
        uint_entry(r, key@, n),
{
    (key.to_owned(), Value::Number(Number::UnsignedInteger(n)))
}

fn head(request_id: String, tag: u64) -> (r: Vec<(String, Value)>)
    ensures
        r@.len() == 2,
        text_entry(r@[0], REQUEST_ID@, request_id@),
        uint_entry(r@[1], TYPE@, tag),
{
    let mut e: Vec<(String, Value)> = Vec::new();
    e.push(text_pair(REQUEST_ID, request_id));
    e.push(uint_pair(TYPE, tag));
    e
}

fn text_pairs_object(pairs: &Vec<(String, String)>) -> (r: Value)
    ensures
        text_object(r, text_pairs_view(pairs@)),
{
    let mut o: Vec<(String, Value)> = Vec::new();
    let mut i: usize = 0;
    while i < pairs.len()
        invariant
            i <= pairs@.len(),
            o@.len() == i,
            forall|j: int|
                0 <= j < i ==> (#[trigger] o@[j]).0@ == pairs@[j].0@ && value_text(o@[j].1) == Some(
                    pairs@[j].1@,
                ),
        decreases pairs@.len() - i,
    {
        o.push((pairs[i].0.clone(), Value::String(pairs[i].1.clone())));
        i = i + 1;
    }
    Value::Object(o)
}

/// The wire document of a message.
pub fn encode(protocol: &BaseProtocol, req: BaseMessage) -> (r: Value)
    requires
        protocol is JsonProtocol,
    ensures
        document_of(req@, r),
{
    let ghost m = req@;
    let e = match req {
        BaseMessage::RegisterModuleRequest { request_id, module_id, version, dependencies } => {
            let mut e = head(request_id, request_types::MODULE_REGISTRATION);
            e.push(text_pair(MODULE_ID, module_id));
            e.push(text_pair(VERSION, version));
            e.push((DEPENDENCIES.to_owned(), text_pairs_object(&dependencies)));
            e
        },
        BaseMessage::RegisterModuleResponse { request_id } => head(
            request_id,
            request_types::MODULE_REGISTERED,
        ),
        BaseMessage::FunctionCallRequest { request_id, function, arguments } => {
            let mut e = head(request_id, request_types::FUNCTION_CALL);
            e.push(text_pair(FUNCTION, function));
            e.push((ARGUMENTS.to_owned(), Value::Object(arguments)));
            e
        },
        BaseMessage::FunctionCallResponse { request_id, data } => {
            let mut e = head(request_id, request_types::FUNCTION_RESPONSE);
            e.push((DATA.to_owned(), data));
            e
        },
        BaseMessage::RegisterHookRequest { request_id, hook } => {
            let mut e = head(request_id, request_types::REGISTER_HOOK);
            e.push(text_pair(HOOK, hook));
            e
        },
        BaseMessage::ListenHookResponse { request_id } => head(
            request_id,
            request_types::HOOK_REGISTERED,
        ),
        BaseMessage::TriggerHookRequest { request_id, hook } => {
            let mut e = head(request_id, request_types::TRIGGER_HOOK);
            e.push(text_pair(HOOK, hook));
            e
        },
        BaseMessage::TriggerHookResponse { request_id } => head(
            request_id,
            request_types::HOOK_TRIGGERED,
        ),
        BaseMessage::DeclareFunctionRequest { request_id, function } => {
            let mut e = head(request_id, request_types::DECLARE_FUNCTION);
            e.push(text_pair(FUNCTION, function));
            e
        },
        BaseMessage::DeclareFunctionResponse { request_id, function } => {
            let mut e = head(request_id, request_types::FUNCTION_DECLARED);
            e.push(text_pair(FUNCTION, function));
            e
        },
        BaseMessage::Error { request_id, error } => {
            let mut e = head(request_id, request_types::ERROR);
            e.push(uint_pair(ERROR, error as u64));
            e
        },
        BaseMessage::Unknown { .. } => {
            let mut e = head(UNDEFINED_ID.to_owned(), request_types::ERROR);
            e.push(uint_pair(ERROR, 0));
            e
        },
    };
    Value::Object(e)
}

fn unknown() -> (r: BaseMessage)
    ensures
        r@ == unknown_message(),
{
    BaseMessage::Unknown { request_id: String::new() }
}

fn text_at(e: &Vec<(String, Value)>, key: &str) -> (r: Option<String>)
    ensures
        match r {
            Some(s) => field_text(e@, key@) == Some(s@),
            None => field_text(e@, key@) is None,
        },
{
    match find_key(e, key) {
        Some(i) => match &e[i].1 {
            Value::String(s) => Some(s.clone()),
            _ => None,
        },
        None => None,
    }
}

fn u64_at(e: &Vec<(String, Value)>, key: &str) -> (r: Option<u64>)
    ensures
        r == field_u64(e@, key@),
{
    match find_key(e, key) {
        Some(i) => e[i].1.to_u64(),
        None => None,
    }
}

fn text_pairs_at(e: &Vec<(String, Value)>, key: &str) -> (r: Option<Vec<(String, String)>>)
    ensures
        match r {
            Some(v) => field_text_pairs(e@, key@) == Some(text_pairs_view(v@)),
            None => field_text_pairs(e@, key@) is None,
        },
{
    let i = match find_key(e, key) {
        Some(i) => i,
        None => {
            return None;
        },
    };
    let o = match &e[i].1 {
        Value::Object(o) => o,
        _ => {
            return None;
        },
    };
    assert(field_entries(e@, key@) == Some(o@));
    let mut out: Vec<(String, String)> = Vec::new();
    let mut j: usize = 0;
    while j < o.len()
        invariant
            field_entries(e@, key@) == Some(o@),
            j <= o@.len(),
            out@.len() == j,
            forall|k: int| 0 <= k < j ==> (#[trigger] o@[k]).1 is String,
            forall|k: int|
                0 <= k < j ==> (#[trigger] out@[k]).0@ == o@[k].0@ && out@[k].1@ == text_or_empty(
                    o@[k].1,
                ),
        decreases o@.len() - j,
    {
        match &o[j].1 {
            Value::String(s) => {
                out.push((o[j].0.clone(), s.clone()));
            },
            _ => {
                assert(!(o@[j as int].1 is String));
                assert(text_pairs_of(o@) is None);
                return None;
            },
        }
        j = j + 1;
    }
    assert(text_pairs_view(out@) =~= o@.map_values(
        |p: (String, Value)| (p.0@, text_or_empty(p.1)),
    ));
    Some(out)
}

fn take_entries(e: Vec<(String, Value)>, key: &str) -> (r: Option<Vec<(String, Value)>>)
    ensures
        match r {
            Some(a) => field_entries(e@, key@) == Some(a@),
            None => field_entries(e@, key@) is None,
        },
{
    let mut e = e;
    match find_key(&e, key) {
        Some(i) => {
            let (_, v) = e.remove(i);
            match v {
                Value::Object(a) => Some(a),
                _ => None,
            }
        },
        None => None,
    }
}

fn take_value(e: Vec<(String, Value)>, key: &str) -> (r: Value)
    ensures
        r == (match assoc_get(e@, key@) {
            Some(v) => v,
            None => Value::Null,
        }),
{
    let mut e = e;
    match find_key(&e, key) {
        Some(i) => {
            let (_, v) = e.remove(i);
            v
        },
        None => Value::Null,
    }
}

fn decode_entries(e: Vec<(String, Value)>) -> (r: BaseMessage)
    ensures
        r@ == message_of_entries(e@),
{
    let tag = u64_at(&e, TYPE);
    let id = text_at(&e, REQUEST_ID);
    let (tag, request_id) = match (tag, id) {
        (Some(tag), Some(request_id)) => (tag, request_id),
        _ => {
            return unknown();
        },
    };
    if tag == request_types::ERROR {
        match u64_at(&e, ERROR) {
            Some(code) => if code <= u32::MAX as u64 {
                BaseMessage::Error { request_id, error: code as u32 }
            } else {
                unknown()
            },
            None => unknown(),
        }
    } else if tag == request_types::MODULE_REGISTRATION {
        let module_id = text_at(&e, MODULE_ID);
        let version = text_at(&e, VERSION);
        let dependencies = text_pairs_at(&e, DEPENDENCIES);
        match (module_id, version, dependencies) {
            (Some(module_id), Some(version), Some(dependencies)) =>
                BaseMessage::RegisterModuleRequest { request_id, module_id, version, dependencies },
            _ => unknown(),
        }
    } else if tag == request_types::MODULE_REGISTERED {
        BaseMessage::RegisterModuleResponse { request_id }
    } else if tag == request_types::FUNCTION_CALL {
        match text_at(&e, FUNCTION) {
            Some(function) => match take_entries(e, ARGUMENTS) {
                Some(arguments) => BaseMessage::FunctionCallRequest {
                    request_id,
                    function,
                    arguments,
                },
                None => unknown(),
            },
            None => unknown(),
        }
    } else if tag == request_types::FUNCTION_RESPONSE {
        BaseMessage::FunctionCallResponse { request_id, data: take_value(e, DATA) }
    } else if tag == request_types::REGISTER_HOOK || tag == request_types::TRIGGER_HOOK {
        match text_at(&e, HOOK) {
            Some(hook) => if tag == request_types::REGISTER_HOOK {
                BaseMessage::RegisterHookRequest { request_id, hook }
            } else {
                BaseMessage::TriggerHookRequest { request_id, hook }
            },
            None => unknown(),
        }
    } else if tag == request_types::HOOK_REGISTERED {
        BaseMessage::ListenHookResponse { request_id }
    } else if tag == request_types::HOOK_TRIGGERED {
        BaseMessage::TriggerHookResponse { request_id }
    } else if tag == request_types::DECLARE_FUNCTION || tag == request_types::FUNCTION_DECLARED {
        match text_at(&e, FUNCTION) {
            Some(function) => if tag == request_types::DECLARE_FUNCTION {
                BaseMessage::DeclareFunctionRequest { request_id, function }
            } else {
                BaseMessage::DeclareFunctionResponse { request_id, function }
            },
            None => unknown(),
        }
    } else {
        unknown()
    }
}

/// The message of a frame, given its parsed document or `None` where the frame
/// is not JSON. Never fails: whatever cannot be read is an unknown message with
/// an empty request id.
pub fn decode(protocol: &BaseProtocol, data: Option<Value>) -> (r: BaseMessage)
    requires
        protocol is JsonProtocol,
    ensures
        r@ == decoded(data),
{
    match data {
        Some(Value::Object(e)) => decode_entries(e),
        _ => unknown(),
    }
}

/// A frame on the wire: the document text followed by a newline.
pub fn frame(text: Vec<u8>) -> (r: Vec<u8>)
    ensures
        r@ == text@.push(10u8),
{
    let mut r = text;
    r.push(10u8);
    r
}

proof fn lemma_keys_distinct()
    ensures
        REQUEST_ID@ != TYPE@,
        REQUEST_ID@ != MODULE_ID@,
        REQUEST_ID@ != VERSION@,
        REQUEST_ID@ != DEPENDENCIES@,
        REQUEST_ID@ != FUNCTION@,
        REQUEST_ID@ != ARGUMENTS@,
        REQUEST_ID@ != DATA@,
        REQUEST_ID@ != HOOK@,
        REQUEST_ID@ != ERROR@,
        TYPE@ != MODULE_ID@,
        TYPE@ != VERSION@,
        TYPE@ != DEPENDENCIES@,
        TYPE@ != FUNCTION@,
        TYPE@ != ARGUMENTS@,
        TYPE@ != DATA@,
        TYPE@ != HOOK@,
        TYPE@ != ERROR@,
        MODULE_ID@ != VERSION@,
        MODULE_ID@ != DEPENDENCIES@,
        VERSION@ != DEPENDENCIES@,
        FUNCTION@ != ARGUMENTS@,
{
    reveal_strlit("requestId");
    reveal_strlit("type");
    reveal_strlit("moduleId");
    reveal_strlit("version");
    reveal_strlit("dependencies");
    reveal_strlit("function");
    reveal_strlit("arguments");
    reveal_strlit("data");
    reveal_strlit("hook");
    reveal_strlit("error");
    assert(REQUEST_ID@.len() != TYPE@.len());
    assert(VERSION@.len() != DEPENDENCIES@.len());
    assert(REQUEST_ID@[0] != ARGUMENTS@[0]);
    assert(TYPE@[0] != DATA@[0]);
    assert(TYPE@[0] != HOOK@[0]);
    assert(MODULE_ID@[0] != FUNCTION@[0]);
}

/// Decoding the document of any message but an unknown one gives the message
/// back.
pub proof fn lemma_round_trip(m: MessageView, doc: Value)
    requires
        document_of(m, doc),
        !(m is Unknown),
    ensures
        message_of_document(doc) == m,
{
    reveal_with_fuel(assoc_get, 6);
    lemma_keys_distinct();
    let e = doc->Object_0@;
    assert(field_u64(e, TYPE@) == Some(type_tag_of(m)));
    assert(field_text(e, REQUEST_ID@) == Some(request_id_of(m)));
    match m {
        MessageView::RegisterModuleRequest { request_id, module_id, version, dependencies } => {
            let o = e[4].1->Object_0@;
            assert(field_entries(e, DEPENDENCIES@) == Some(o));
            assert(o.map_values(|p: (String, Value)| (p.0@, text_or_empty(p.1))) =~= dependencies);
            assert(field_text_pairs(e, DEPENDENCIES@) == Some(dependencies));
        },
        MessageView::FunctionCallRequest { request_id, function, arguments } => {
            assert(field_entries(e, ARGUMENTS@) == Some(e[3].1->Object_0@));
        },
        _ => {},
    }
}

/// Whatever cannot be read as a message is an unknown message with an empty
/// request id: a frame that is not JSON, a document that is not an object, or an
/// object without an integer `type` and a text `requestId`.
pub proof fn lemma_unreadable_is_unknown(data: Option<Value>)
    requires
        match data {
            Some(Value::Object(o)) => field_u64(o@, TYPE@) is None || field_text(o@, REQUEST_ID@) is None
                || field_u64(o@, TYPE@)->0 > 10,
            _ => true,
        },
    ensures
        decoded(data) == unknown_message(),
{
}

} // verus!
