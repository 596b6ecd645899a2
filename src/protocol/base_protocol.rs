//! The protocol state of a module: its id, and the clock stamps of the request
//! ids it hands out.
use crate::models::messages::{entries_view, text_pairs_view, BaseMessage, MessageView};
use crate::models::value::Value;
use crate::protocol::json_protocol;
use crate::utils::text::{decimal, lemma_decimal, push_char, push_decimal, all_digits, digits_value};
use vstd::prelude::*;

verus! {

/// The wire format of a session, with the module id it speaks for and the
/// stamp of the last request id it generated.
#[derive(Debug)]
pub enum BaseProtocol {
    JsonProtocol { module_id: String, last_stamp: u128 },
    MsgPackProtocol { module_id: String, last_stamp: u128 },
}

/// The request id made of a module id and a stamp: `<module_id>-<stamp in decimal>`.
pub open spec fn request_id_text(module_id: Seq<char>, stamp: nat) -> Seq<char> {
    module_id.push('-') + decimal(stamp)
}

/// The stamp that follows `last` when the clock reads `now`: the clock where it is
/// ahead, else one past `last`, so that stamps only grow.
pub open spec fn next_stamp(last: u128, now: u128) -> u128 {
    if now > last {
        now
    } else if last < u128::MAX {
        (last + 1) as u128
    } else {
        last
    }
}

/// A stamp that follows `last`: never smaller, and larger while there is room.
pub open spec fn stamp_follows(last: u128, next: u128) -> bool {
    &&& last <= next
    &&& last < u128::MAX ==> last < next
}

impl BaseProtocol {
    pub open spec fn module_id_view(&self) -> Seq<char> {
        match self {
            BaseProtocol::JsonProtocol { module_id, .. } => module_id@,
            BaseProtocol::MsgPackProtocol { module_id, .. } => module_id@,
        }
    }

    pub open spec fn stamp(&self) -> u128 {
        match self {
            BaseProtocol::JsonProtocol { last_stamp, .. } => *last_stamp,
            BaseProtocol::MsgPackProtocol { last_stamp, .. } => *last_stamp,
        }
    }

    /// `next` is `prev` after handing out one request id: same format and
    /// module id, a stamp that follows.
    pub open spec fn issued(prev: BaseProtocol, next: BaseProtocol) -> bool {
        &&& (prev is JsonProtocol <==> next is JsonProtocol)
        &&& next.module_id_view() == prev.module_id_view()
        &&& stamp_follows(prev.stamp(), next.stamp())
    }

    /// The request id of the last stamp handed out.
    pub open spec fn last_request_id(&self) -> Seq<char> {
        request_id_text(self.module_id_view(), self.stamp() as nat)
    }

    pub fn default() -> (r: Self)
        ensures
            r is JsonProtocol,
            r.module_id_view() == Seq::<char>::empty(),
            r.stamp() == 0,
    {
        json_protocol::default()
    }

    pub fn from(other: &Self) -> (r: Self)
        requires
            other is JsonProtocol,
        ensures
            r is JsonProtocol,
            r.module_id_view() == other.module_id_view(),
            r.stamp() == other.stamp(),
    {
        json_protocol::from(other)
    }

    /// Hands out a fresh request id: the module id, a dash, and a stamp taken
    /// from the clock that is larger than every stamp before it.
    pub fn generate_request_id(&mut self) -> (r: String)
        ensures
            BaseProtocol::issued(*old(self), *final(self)),
            r@ == final(self).last_request_id(),
    {
        let now = clock_nanos();
        self.advance_stamp(now);
        let stamp = self.last_stamp();
        request_id_at(self.get_module_id(), stamp)
    }

    /// Moves the stamp on as if the clock read `now`.
    pub fn advance_stamp(&mut self, now: u128)
        ensures
            final(self).stamp() == next_stamp(old(self).stamp(), now),
            final(self).module_id_view() == old(self).module_id_view(),
            *old(self) is JsonProtocol <==> *final(self) is JsonProtocol,
    {
        match self {
            BaseProtocol::JsonProtocol { last_stamp, .. } => {
                *last_stamp = next_stamp_exec(*last_stamp, now);
            },
            BaseProtocol::MsgPackProtocol { last_stamp, .. } => {
                *last_stamp = next_stamp_exec(*last_stamp, now);
            },
        }
    }

    pub fn last_stamp(&self) -> (r: u128)
        ensures
            r == self.stamp(),
    {
        match self {
            BaseProtocol::JsonProtocol { last_stamp, .. } => *last_stamp,
            BaseProtocol::MsgPackProtocol { last_stamp, .. } => *last_stamp,
        }
    }

    pub fn get_module_id(&self) -> (r: &String)
        ensures
            r@ == self.module_id_view(),
    {
        match self {
            BaseProtocol::JsonProtocol { module_id, .. } => module_id,
            BaseProtocol::MsgPackProtocol { module_id, .. } => module_id,
        }
    }

    pub fn set_module_id(&mut self, new_module_id: String)
        ensures
            final(self).module_id_view() == new_module_id@,
            final(self).stamp() == old(self).stamp(),
            *old(self) is JsonProtocol <==> *final(self) is JsonProtocol,
    {
        match self {
            BaseProtocol::JsonProtocol { module_id, .. } => {
                *module_id = new_module_id;
            },
            BaseProtocol::MsgPackProtocol { module_id, .. } => {
                *module_id = new_module_id;
            },
        }
    }

    /// Takes on `module_id` and builds the registration request for it.
    pub fn initialize(
        &mut self,
        module_id: String,
        version: String,
        dependencies: Vec<(String, String)>,
    ) -> (r: BaseMessage)
        ensures
            final(self).module_id_view() == module_id@,
            *old(self) is JsonProtocol <==> *final(self) is JsonProtocol,
            stamp_follows(old(self).stamp(), final(self).stamp()),
            r@ == (MessageView::RegisterModuleRequest {
                request_id: final(self).last_request_id(),
                module_id: module_id@,
                version: version@,
                dependencies: text_pairs_view(dependencies@),
            }),
    {
        self.set_module_id(module_id);
        let request_id = self.generate_request_id();
        let module_id = self.get_module_id().clone();
        BaseMessage::RegisterModuleRequest { request_id, module_id, version, dependencies }
    }

    pub fn register_hook(&mut self, hook: String) -> (r: BaseMessage)
        ensures
            BaseProtocol::issued(*old(self), *final(self)),
            r@ == (MessageView::RegisterHookRequest {
                request_id: final(self).last_request_id(),
                hook: hook@,
            }),
    {
        BaseMessage::RegisterHookRequest { request_id: self.generate_request_id(), hook }
    }

    pub fn trigger_hook(&mut self, hook: String) -> (r: BaseMessage)
        ensures
            BaseProtocol::issued(*old(self), *final(self)),
            r@ == (MessageView::TriggerHookRequest {
                request_id: final(self).last_request_id(),
                hook: hook@,
            }),
    {
        BaseMessage::TriggerHookRequest { request_id: self.generate_request_id(), hook }
    }

    pub fn declare_function(&mut self, function: String) -> (r: BaseMessage)
        ensures
            BaseProtocol::issued(*old(self), *final(self)),
            r@ == (MessageView::DeclareFunctionRequest {
                request_id: final(self).last_request_id(),
                function: function@,
            }),
    {
        BaseMessage::DeclareFunctionRequest { request_id: self.generate_request_id(), function }
    }

    pub fn call_function(&mut self, function: String, arguments: Vec<(String, Value)>) -> (r:
        BaseMessage)
        ensures
            BaseProtocol::issued(*old(self), *final(self)),
            r@ == (MessageView::FunctionCallRequest {
                request_id: final(self).last_request_id(),
                function: function@,
                arguments: entries_view(arguments@),
            }),
    {
        BaseMessage::FunctionCallRequest {
            request_id: self.generate_request_id(),
            function,
            arguments,
        }
    }

    /// The wire document of a message.
    pub fn encode(&self, req: BaseMessage) -> (r: Value)
        requires
            self is JsonProtocol,
        ensures
            json_protocol::document_of(req@, r),
    {
        json_protocol::encode(self, req)
    }

    /// The message that a parsed frame holds; `None` stands for a frame that is
    /// not JSON.
    pub fn decode(&self, data: Option<Value>) -> (r: BaseMessage)
        requires
            self is JsonProtocol,
        ensures
            r@ == json_protocol::decoded(data),
    {
        json_protocol::decode(self, data)
    }
}

/// Relies on `SystemTime::elapsed` of the Unix epoch: nanoseconds since the
/// epoch, or 0 where the system clock reads earlier than the epoch. Nothing is
/// known of the reading.
#[verifier::external_body]
fn clock_nanos() -> u128 {
    match std::time::UNIX_EPOCH.elapsed() {
        Ok(d) => d.as_nanos(),
        Err(_) => 0,
    }
}

fn next_stamp_exec(last: u128, now: u128) -> (r: u128)
    ensures
        r == next_stamp(last, now),
{
    if now > last {
        now
    } else if last < u128::MAX {
        last + 1
    } else {
        last
    }
}

/// The request id of `module_id` at `stamp`.
pub fn request_id_at(module_id: &String, stamp: u128) -> (r: String)
    ensures
        r@ == request_id_text(module_id@, stamp as nat),
{
    let mut r = module_id.clone();
    push_char(&mut r, '-');
    push_decimal(&mut r, stamp);
    r
}

/// A request id is the module id, a dash, and a non-empty run of digits that
/// reads as its stamp; a later stamp never reads smaller.
pub proof fn lemma_request_id_shape(module_id: Seq<char>, stamp: nat, later: nat)
    requires
        stamp <= later,
    ensures
        request_id_text(module_id, stamp).subrange(0, module_id.len() as int) == module_id,
        request_id_text(module_id, stamp)[module_id.len() as int] == '-',
        ({
            let suffix = request_id_text(module_id, stamp).subrange(
                module_id.len() + 1 as int,
                request_id_text(module_id, stamp).len() as int,
            );
            &&& suffix == decimal(stamp)
            &&& suffix.len() > 0
            &&& all_digits(suffix)
            &&& digits_value(suffix) == stamp
        }),
        digits_value(decimal(stamp)) <= digits_value(decimal(later)),
{
    lemma_decimal(stamp);
    lemma_decimal(later);
    let t = request_id_text(module_id, stamp);
    assert(t.subrange(0, module_id.len() as int) =~= module_id);
    assert(t.subrange(module_id.len() + 1 as int, t.len() as int) =~= decimal(stamp));
}

} // verus!
