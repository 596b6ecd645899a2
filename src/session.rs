//! The session engine of a module.
//!
//! A session owns the protocol state, the pending-request table, the function
//! registry and the hook-listener registry. It performs no I/O: each operation
//! says what the caller must do next (write a frame, resolve a completion,
//! call a handler), and the caller reports back what the transport and the
//! broker did. The session is generic over the completion handle `C` that a
//! waiting caller holds, the function handler `F` and the hook listener `H`.
use crate::models::messages::{entries_view, request_id_of, text_pairs_view, BaseMessage, MessageView};
use crate::models::value::Value;
use crate::protocol::base_protocol::{stamp_follows, BaseProtocol};
use crate::protocol::json_protocol::document_of;
use crate::utils::assoc::{
    assoc_get, assoc_insert, assoc_map, assoc_remove, find_key, keys_unique,
};
use crate::utils::error::{Error, Result};
use crate::utils::errors::UNKNOWN_FUNCTION;
use vstd::prelude::*;

verus! {

/// Why an operation that needs a registered module was refused.
pub const NOT_REGISTERED: &'static str = "Module not registered. Did you .await the call to initialize?";

/// Why `initialize` was refused.
pub const INITIALIZE_REFUSED: &'static str = "Module is already connecting, or its session is closed";

/// Where a session stands. `Closed` is reachable from every state.
#[derive(Debug, Clone, Copy, PartialEq, Eq, Structural)]
pub enum SessionState {
    Unconnected,
    Connecting,
    AwaitingRegistrationAck,
    Registered,
    Closed,
}

/// What `initialize` must do first.
#[derive(Debug)]
pub enum InitStep {
    /// The module is registered already: succeed without touching the transport.
    AlreadyRegistered,
    /// Connect the transport, start the dispatch loop, then call `register`.
    Connect,
    /// Fail with this error.
    Refused(Error),
}

/// What an outbound operation asks of the caller.
#[derive(Debug)]
pub enum Outgoing<C> {
    /// Write this document as a frame; the completion handle waits in the
    /// pending-request table for the correlated response.
    Send { frame: Value },
    /// Nothing goes on the wire: resolve the handle with this result now.
    Resolved { completion: C, result: Result<Value> },
}

/// Local work that an inbound message calls for.
#[derive(Debug)]
pub enum Work<F, H> {
    Nothing,
    /// Write this document back over the transport.
    Reply { frame: Value },
    /// Call the handler with the arguments, then write back the frame that
    /// `reply_to_call` makes of its result under this request id.
    Invoke { request_id: String, handler: F, arguments: Vec<(String, Value)> },
    /// Call each listener, in this order, with a null payload.
    Notify { listeners: Vec<H> },
}

/// The outcome of one inbound message.
#[derive(Debug)]
pub struct Dispatch<C, F, H> {
    pub work: Work<F, H>,
    /// The pending request that the message answers, with its result.
    pub completion: Option<(C, Result<Value>)>,
}

/// The result with which an inbound message resolves the request it answers.
pub open spec fn completion_value(m: MessageView) -> Result<Value> {
    match m {
        MessageView::FunctionCallResponse { data, .. } => Ok(data),
        MessageView::Error { error, .. } => Err(Error::FromJuno(error)),
        _ => Ok(Value::Null),
    }
}

/// The completion that an inbound message resolves, given the pending table.
pub open spec fn completion_step<C>(table: Map<Seq<char>, C>, m: MessageView) -> Option<
    (C, Result<Value>),
> {
    let id = request_id_of(m);
    if table.contains_key(id) {
        Some((table[id], completion_value(m)))
    } else {
        None
    }
}

/// The completions resolved by a run of inbound messages, in order.
pub open spec fn completions<C>(table: Map<Seq<char>, C>, ms: Seq<MessageView>) -> Seq<
    Option<(C, Result<Value>)>,
>
    decreases ms.len(),
{
    if ms.len() == 0 {
        Seq::empty()
    } else {
        seq![completion_step(table, ms[0])] + completions(
            table.remove(request_id_of(ms[0])),
            ms.drop_first(),
        )
    }
}

/// The pending table after a run of inbound messages.
pub open spec fn table_after<C>(table: Map<Seq<char>, C>, ms: Seq<MessageView>) -> Map<
    Seq<char>,
    C,
>
    decreases ms.len(),
{
    if ms.len() == 0 {
        table
    } else {
        table_after(table.remove(request_id_of(ms[0])), ms.drop_first())
    }
}

/// `r` resolves `completion` at once with an internal error of text `text`.
pub open spec fn refused<C>(r: Outgoing<C>, completion: C, text: Seq<char>) -> bool {
    match r {
        Outgoing::Resolved { completion: c, result: Err(Error::Internal(t)) } => c == completion
            && t@ == text,
        _ => false,
    }
}

/// `r` asks to send the document of `m`.
pub open spec fn sends<C>(r: Outgoing<C>, m: MessageView) -> bool {
    match r {
        Outgoing::Send { frame } => document_of(m, frame),
        _ => false,
    }
}

/// The session of one module over one transport.
pub struct Session<C, F, H> {
    protocol: BaseProtocol,
    state: SessionState,
    requests: Vec<(String, C)>,
    functions: Vec<(String, F)>,
    hook_listeners: Vec<(String, Vec<H>)>,
}

impl<C, F: Copy, H: Copy> Session<C, F, H> {
    pub closed spec fn protocol_view(&self) -> BaseProtocol {
        self.protocol
    }

    pub closed spec fn state_view(&self) -> SessionState {
        self.state
    }

    /// The pending-request table: request id to the handle of the waiting caller.
    pub closed spec fn pending(&self) -> Map<Seq<char>, C> {
        assoc_map(self.requests@)
    }

    /// The function registry: function name to handler.
    pub closed spec fn handlers(&self) -> Map<Seq<char>, F> {
        assoc_map(self.functions@)
    }

    /// The listeners of a hook, in the order they were registered.
    pub closed spec fn listeners(&self, hook: Seq<char>) -> Seq<H> {
        match assoc_get(self.hook_listeners@, hook) {
            Some(v) => v@,
            None => Seq::empty(),
        }
    }

    /// The same session in another state.
    pub closed spec fn with_state(self, state: SessionState) -> Self {
        Session { state, ..self }
    }

    pub closed spec fn wf(&self) -> bool {
        &&& self.protocol is JsonProtocol
        &&& keys_unique(self.requests@)
        &&& keys_unique(self.functions@)
        &&& keys_unique(self.hook_listeners@)
    }

    /// The registries and the protocol state are as in `other`.
    pub open spec fn same_registries(&self, other: &Self) -> bool {
        &&& self.handlers() == other.handlers()
        &&& forall|h: Seq<char>| #[trigger] self.listeners(h) == other.listeners(h)
    }

    /// A session with empty tables over a JSON protocol state.
    pub fn new(protocol: BaseProtocol) -> (r: Self)
        requires
            protocol is JsonProtocol,
        ensures
            r.wf(),
            r.state_view() == SessionState::Unconnected,
            r.protocol_view() == protocol,
            r.pending() == Map::<Seq<char>, C>::empty(),
            r.handlers() == Map::<Seq<char>, F>::empty(),
            forall|h: Seq<char>| #[trigger] r.listeners(h) == Seq::<H>::empty(),
    {
        let r = Session {
            protocol,
            state: SessionState::Unconnected,
            requests: Vec::new(),
            functions: Vec::new(),
            hook_listeners: Vec::new(),
        };
        assert(r.pending() =~= Map::<Seq<char>, C>::empty());
        assert(r.handlers() =~= Map::<Seq<char>, F>::empty());
        r
    }

    pub fn state(&self) -> (r: SessionState)
        ensures
            r == self.state_view(),
    {
        self.state
    }

    pub fn is_registered(&self) -> (r: bool)
        ensures
            r == (self.state_view() == SessionState::Registered),
    {
        self.state == SessionState::Registered
    }

    pub fn protocol(&self) -> (r: &BaseProtocol)
        ensures
            *r == self.protocol_view(),
    {
        &self.protocol
    }

    /// Whether a request with this id waits for its response.
    pub fn is_pending(&self, request_id: &str) -> (r: bool)
        requires
            self.wf(),
        ensures
            r == self.pending().contains_key(request_id@),
    {
        find_key(&self.requests, request_id).is_some()
    }

    /// The first step of `initialize`: a registered module succeeds at once, an
    /// unconnected one goes on to connect, any other is refused.
    pub fn start_initialize(&mut self) -> (r: InitStep)
        ensures
            old(self).state_view() == SessionState::Registered ==> r is AlreadyRegistered
                && *final(self) == *old(self),
            old(self).state_view() == SessionState::Unconnected ==> r is Connect
                && final(self).state_view() == SessionState::Connecting && *final(self) == old(self).with_state(SessionState::Connecting),
            old(self).state_view() != SessionState::Registered && old(self).state_view()
                != SessionState::Unconnected ==> *final(self) == *old(self) && (match r {
                InitStep::Refused(Error::Internal(t)) => t@ == INITIALIZE_REFUSED@,
                _ => false,
            }),
    {
        match self.state {
            SessionState::Registered => InitStep::AlreadyRegistered,
            SessionState::Unconnected => {
                self.state = SessionState::Connecting;
                InitStep::Connect
            },
            _ => InitStep::Refused(Error::Internal(INITIALIZE_REFUSED.to_owned())),
        }
    }

    /// The transport failed: the session is over.
    pub fn transport_failed(&mut self)
        ensures
            *final(self) == old(self).with_state(SessionState::Closed),
    {
        self.state = SessionState::Closed;
    }

    /// Closes the session. Returns whether a transport was opened for it and
    /// is to be closed now.
    pub fn close(&mut self) -> (r: bool)
        ensures
            *final(self) == old(self).with_state(SessionState::Closed),
            r == (old(self).state_view() == SessionState::Connecting || old(self).state_view()
                == SessionState::AwaitingRegistrationAck || old(self).state_view()
                == SessionState::Registered),
    {
        let r = match self.state {
            SessionState::Connecting
            | SessionState::AwaitingRegistrationAck
            | SessionState::Registered => true,
            _ => false,
        };
        self.state = SessionState::Closed;
        r
    }

    /// Sends the request and lets `completion` wait for its response.
    fn track(&mut self, request: BaseMessage, completion: C) -> (frame: Value)
        requires
            old(self).wf(),
        ensures
            final(self).wf(),
            final(self).state_view() == old(self).state_view(),
            final(self).protocol_view() == old(self).protocol_view(),
            final(self).same_registries(old(self)),
            final(self).pending() == old(self).pending().insert(
                request_id_of(request@),
                completion,
            ),
            document_of(request@, frame),
    {
        let id = request.get_request_id().clone();
        let frame = self.protocol.encode(request);
        assoc_insert(&mut self.requests, id, completion);
        proof {
            assert(self.pending() =~= old(self).pending().insert(request_id_of(request@), completion));
        }
        frame
    }

    /// Registers the module: takes on `module_id` and sends the registration
    /// request. A registered module is done at once; only a connecting one may
    /// register.
    pub fn register(
        &mut self,
        module_id: String,
        version: String,
        dependencies: Vec<(String, String)>,
        completion: C,
    ) -> (r: Outgoing<C>)
        requires
            old(self).wf(),
        ensures
            final(self).wf(),
            final(self).same_registries(old(self)),
            old(self).state_view() == SessionState::Registered ==> *final(self) == *old(self)
                && r == (Outgoing::Resolved { completion, result: Ok(Value::Null) }),
            old(self).state_view() == SessionState::Connecting ==> {
                &&& final(self).state_view() == SessionState::AwaitingRegistrationAck
                &&& final(self).protocol_view().module_id_view() == module_id@
                &&& final(self).protocol_view() is JsonProtocol
                &&& stamp_follows(old(self).protocol_view().stamp(), final(self).protocol_view().stamp())
                &&& final(self).pending() == old(self).pending().insert(
                    final(self).protocol_view().last_request_id(),
                    completion,
                )
                &&& sends(
                    r,
                    MessageView::RegisterModuleRequest {
                        request_id: final(self).protocol_view().last_request_id(),
                        module_id: module_id@,
                        version: version@,
                        dependencies: text_pairs_view(dependencies@),
                    },
                )
            },
            old(self).state_view() != SessionState::Registered && old(self).state_view()
                != SessionState::Connecting ==> *final(self) == *old(self) && refused(
                r,
                completion,
                INITIALIZE_REFUSED@,
            ),
    {
        match self.state {
            SessionState::Registered => Outgoing::Resolved { completion, result: Ok(Value::Null) },
            SessionState::Connecting => {
                let request = self.protocol.initialize(module_id, version, dependencies);
                self.state = SessionState::AwaitingRegistrationAck;
                let frame = self.track(request, completion);
                Outgoing::Send { frame }
            },
            _ => Outgoing::Resolved {
                completion,
                result: Err(Error::Internal(INITIALIZE_REFUSED.to_owned())),
            },
        }
    }

    /// The registration request was answered: an acknowledgment registers the
    /// module, an error closes the session.
    pub fn finish_initialize(&mut self, result: &Result<Value>)
        ensures
            old(self).state_view() == SessionState::AwaitingRegistrationAck ==> *final(self) == old(
                self,
            ).with_state(
                if result is Ok {
                    SessionState::Registered
                } else {
                    SessionState::Closed
                },
            ),
            old(self).state_view() != SessionState::AwaitingRegistrationAck ==> *final(self)
                == *old(self),
    {
        if self.state == SessionState::AwaitingRegistrationAck {
            self.state = match result {
                Ok(_) => SessionState::Registered,
                Err(_) => SessionState::Closed,
            };
        }
    }

    fn not_registered(completion: C) -> (r: Outgoing<C>)
        ensures
            refused(r, completion, NOT_REGISTERED@),
    {
        Outgoing::Resolved { completion, result: Err(Error::Internal(NOT_REGISTERED.to_owned())) }
    }

    /// Stores `handler` under `name`, in place of any earlier one, and declares
    /// the function to the broker. Refused before registration.
    pub fn declare_function(&mut self, name: String, handler: F, completion: C) -> (r: Outgoing<
        C,
    >)
        requires
            old(self).wf(),
        ensures
            final(self).wf(),
            old(self).state_view() != SessionState::Registered ==> *final(self) == *old(self)
                && refused(r, completion, NOT_REGISTERED@),
            old(self).state_view() == SessionState::Registered ==> {
                &&& final(self).state_view() == old(self).state_view()
                &&& BaseProtocol::issued(old(self).protocol_view(), final(self).protocol_view())
                &&& final(self).handlers() == old(self).handlers().insert(name@, handler)
                &&& forall|h: Seq<char>| #[trigger] final(self).listeners(h) == old(self).listeners(h)
                &&& final(self).pending() == old(self).pending().insert(
                    final(self).protocol_view().last_request_id(),
                    completion,
                )
                &&& sends(
                    r,
                    MessageView::DeclareFunctionRequest {
                        request_id: final(self).protocol_view().last_request_id(),
                        function: name@,
                    },
                )
            },
    {
        if self.state != SessionState::Registered {
            return Self::not_registered(completion);
        }
        let request = self.protocol.declare_function(name.clone());
        assoc_insert(&mut self.functions, name, handler);
        proof {
            assert(self.handlers() =~= old(self).handlers().insert(name@, handler));
        }
        let frame = self.track(request, completion);
        Outgoing::Send { frame }
    }

    /// Calls a function of another module. Refused before registration, without
    /// anything to send.
    pub fn call_function(
        &mut self,
        function: String,
        arguments: Vec<(String, Value)>,
        completion: C,
    ) -> (r: Outgoing<C>)
        requires
            old(self).wf(),
        ensures
            final(self).wf(),
            old(self).state_view() != SessionState::Registered ==> *final(self) == *old(self)
                && refused(r, completion, NOT_REGISTERED@),
            old(self).state_view() == SessionState::Registered ==> {
                &&& final(self).state_view() == old(self).state_view()
                &&& BaseProtocol::issued(old(self).protocol_view(), final(self).protocol_view())
                &&& final(self).same_registries(old(self))
                &&& final(self).pending() == old(self).pending().insert(
                    final(self).protocol_view().last_request_id(),
                    completion,
                )
                &&& sends(
                    r,
                    MessageView::FunctionCallRequest {
                        request_id: final(self).protocol_view().last_request_id(),
                        function: function@,
                        arguments: entries_view(arguments@),
                    },
                )
            },
    {
        if self.state != SessionState::Registered {
            return Self::not_registered(completion);
        }
        let request = self.protocol.call_function(function, arguments);
        let frame = self.track(request, completion);
        Outgoing::Send { frame }
    }

    /// Appends `listener` to the listeners of `hook` and registers the hook with
    /// the broker. Refused before registration.
    pub fn register_hook(&mut self, hook: String, listener: H, completion: C) -> (r: Outgoing<C>)
        requires
            old(self).wf(),
        ensures
            final(self).wf(),
            old(self).state_view() != SessionState::Registered ==> *final(self) == *old(self)
                && refused(r, completion, NOT_REGISTERED@),
            old(self).state_view() == SessionState::Registered ==> {
                &&& final(self).state_view() == old(self).state_view()
                &&& BaseProtocol::issued(old(self).protocol_view(), final(self).protocol_view())
                &&& final(self).handlers() == old(self).handlers()
                &&& final(self).listeners(hook@) == old(self).listeners(hook@).push(listener)
                &&& forall|h: Seq<char>|
                    h != hook@ ==> #[trigger] final(self).listeners(h) == old(self).listeners(h)
                &&& final(self).pending() == old(self).pending().insert(
                    final(self).protocol_view().last_request_id(),
                    completion,
                )
                &&& sends(
                    r,
                    MessageView::RegisterHookRequest {
                        request_id: final(self).protocol_view().last_request_id(),
                        hook: hook@,
                    },
                )
            },
    {
        if self.state != SessionState::Registered {
            return Self::not_registered(completion);
        }
        let mut list = match assoc_remove(&mut self.hook_listeners, hook.as_str()) {
            Some(list) => list,
            None => Vec::new(),
        };
        list.push(listener);
        let request = self.protocol.register_hook(hook.clone());
        assoc_insert(&mut self.hook_listeners, hook, list);
        let frame = self.track(request, completion);
        Outgoing::Send { frame }
    }

    /// Asks the broker to fire a hook. Local listeners are not called here: the
    /// broker notifies the subscribers. Refused before registration.
    pub fn trigger_hook(&mut self, hook: String, completion: C) -> (r: Outgoing<C>)
        requires
            old(self).wf(),
        ensures
            final(self).wf(),
            old(self).state_view() != SessionState::Registered ==> *final(self) == *old(self)
                && refused(r, completion, NOT_REGISTERED@),
            old(self).state_view() == SessionState::Registered ==> {
                &&& final(self).state_view() == old(self).state_view()
                &&& BaseProtocol::issued(old(self).protocol_view(), final(self).protocol_view())
                &&& final(self).same_registries(old(self))
                &&& final(self).pending() == old(self).pending().insert(
                    final(self).protocol_view().last_request_id(),
                    completion,
                )
                &&& sends(
                    r,
                    MessageView::TriggerHookRequest {
                        request_id: final(self).protocol_view().last_request_id(),
                        hook: hook@,
                    },
                )
            },
    {
        if self.state != SessionState::Registered {
            return Self::not_registered(completion);
        }
        let request = self.protocol.trigger_hook(hook);
        let frame = self.track(request, completion);
        Outgoing::Send { frame }
    }

    fn listeners_of(&self, hook: &str) -> (r: Vec<H>)
        ensures
            r@ == self.listeners(hook@),
    {
        let mut out: Vec<H> = Vec::new();
        match find_key(&self.hook_listeners, hook) {
            Some(i) => {
                let list = &self.hook_listeners[i].1;
                let mut j: usize = 0;
                while j < list.len()
                    invariant
                        j <= list@.len(),
                        out@ == list@.subrange(0, j as int),
                    decreases list@.len() - j,
                {
                    out.push(list[j]);
                    j = j + 1;
                    assert(out@ =~= list@.subrange(0, j as int));
                }
                assert(out@ =~= list@);
            },
            None => {},
        }
        out
    }

    /// Handles one inbound message. A response or an error resolves the pending
    /// request it names; a call of a declared function asks for its handler, a
    /// call of an unknown one is answered with error `UNKNOWN_FUNCTION`; a
    /// triggered hook asks for its listeners (none for a hook nobody listens
    /// to). Whatever the message, the pending request with its id, if any, is
    /// resolved and leaves the table.
    pub fn dispatch(&mut self, message: BaseMessage) -> (r: Dispatch<C, F, H>)
        requires
            old(self).wf(),
        ensures
            final(self).wf(),
            final(self).state_view() == old(self).state_view(),
            final(self).protocol_view() == old(self).protocol_view(),
            final(self).same_registries(old(self)),
            final(self).pending() == old(self).pending().remove(request_id_of(message@)),
            r.completion == completion_step(old(self).pending(), message@),
            match message@ {
                MessageView::FunctionCallRequest { request_id, function, arguments } => {
                    if old(self).handlers().contains_key(function) {
                        match r.work {
                            Work::Invoke { request_id: id, handler, arguments: args } => {
                                &&& id@ == request_id
                                &&& handler == old(self).handlers()[function]
                                &&& entries_view(args@) == arguments
                            },
                            _ => false,
                        }
                    } else {
                        match r.work {
                            Work::Reply { frame } => document_of(
                                MessageView::Error { request_id, error: UNKNOWN_FUNCTION },
                                frame,
                            ),
                            _ => false,
                        }
                    }
                },
                MessageView::TriggerHookRequest { hook, .. } => match r.work {
                    Work::Notify { listeners } => listeners@ == old(self).listeners(hook),
                    _ => false,
                },
                _ => r.work is Nothing,
            },
    {
        let request_id = message.get_request_id().clone();
        let (value, work): (Result<Value>, Work<F, H>) = match message {
            BaseMessage::FunctionCallResponse { data, .. } => (Ok(data), Work::Nothing),
            BaseMessage::FunctionCallRequest { request_id: call_id, function, arguments } => {
                let work = match find_key(&self.functions, function.as_str()) {
                    Some(i) => Work::Invoke {
                        request_id: call_id,
                        handler: self.functions[i].1,
                        arguments,
                    },
                    None => {
                        let error = BaseMessage::Error { request_id: call_id, error: UNKNOWN_FUNCTION };
                        Work::Reply { frame: self.protocol.encode(error) }
                    },
                };
                (Ok(Value::Null), work)
            },
            BaseMessage::TriggerHookRequest { hook, .. } => {
                (Ok(Value::Null), Work::Notify { listeners: self.listeners_of(hook.as_str()) })
            },
            BaseMessage::Error { error, .. } => (Err(Error::FromJuno(error)), Work::Nothing),
            _ => (Ok(Value::Null), Work::Nothing),
        };
        let completion = match assoc_remove(&mut self.requests, request_id.as_str()) {
            Some(c) => Some((c, value)),
            None => None,
        };
        proof {
            assert(self.pending() =~= old(self).pending().remove(request_id_of(message@)));
        }
        Dispatch { work, completion }
    }

    /// The frame that answers an inbound call with the handler's result.
    pub fn reply_to_call(&self, request_id: String, data: Value) -> (r: Value)
        requires
            self.wf(),
        ensures
            document_of(MessageView::FunctionCallResponse { request_id: request_id@, data }, r),
    {
        self.protocol.encode(BaseMessage::FunctionCallResponse { request_id, data })
    }
}

/// Responses reach their own callers: when every message of a run answers a
/// different pending request, each one resolves the handle stored under the id
/// it carries, with its own result, in whatever order the messages arrive.
pub proof fn lemma_responses_reach_their_callers<C>(table: Map<Seq<char>, C>, ms: Seq<MessageView>)
    requires
        forall|i: int| 0 <= i < ms.len() ==> table.contains_key(#[trigger] request_id_of(ms[i])),
        forall|i: int, j: int|
            0 <= i < ms.len() && 0 <= j < ms.len() && i != j ==> #[trigger] request_id_of(ms[i])
                != #[trigger] request_id_of(ms[j]),
    ensures
        completions(table, ms).len() == ms.len(),
        forall|i: int|
            0 <= i < ms.len() ==> #[trigger] completions(table, ms)[i] == Some(
                (table[request_id_of(ms[i])], completion_value(ms[i])),
            ),
    decreases ms.len(),
{
    if ms.len() > 0 {
        let id0 = request_id_of(ms[0]);
        let rest = ms.drop_first();
        let t = table.remove(id0);
        assert forall|i: int| 0 <= i < rest.len() implies t.contains_key(
            #[trigger] request_id_of(rest[i]),
        ) by {
            assert(rest[i] == ms[i + 1]);
            assert(request_id_of(ms[i + 1]) != request_id_of(ms[0]));
        }
        assert forall|i: int, j: int|
            0 <= i < rest.len() && 0 <= j < rest.len() && i != j implies #[trigger] request_id_of(
                rest[i],
            ) != #[trigger] request_id_of(rest[j]) by {
            assert(rest[i] == ms[i + 1]);
            assert(rest[j] == ms[j + 1]);
        }
        lemma_responses_reach_their_callers(t, rest);
        let all = completions(table, ms);
        assert forall|i: int| 0 <= i < ms.len() implies #[trigger] all[i] == Some(
            (table[request_id_of(ms[i])], completion_value(ms[i])),
        ) by {
            if i > 0 {
                assert(all[i] == completions(t, rest)[i - 1]);
                assert(rest[i - 1] == ms[i]);
                assert(request_id_of(ms[i]) != id0);
            }
        }
    }
}

/// No timeout: a pending request that no message of a run answers is still
/// pending afterwards, with the same handle.
pub proof fn lemma_unanswered_request_stays<C>(
    table: Map<Seq<char>, C>,
    ms: Seq<MessageView>,
    id: Seq<char>,
)
    requires
        forall|i: int| 0 <= i < ms.len() ==> #[trigger] request_id_of(ms[i]) != id,
    ensures
        table_after(table, ms).contains_key(id) == table.contains_key(id),
        table.contains_key(id) ==> table_after(table, ms)[id] == table[id],
    decreases ms.len(),
{
    if ms.len() > 0 {
        let rest = ms.drop_first();
        assert forall|i: int| 0 <= i < rest.len() implies #[trigger] request_id_of(rest[i]) != id by {
            assert(rest[i] == ms[i + 1]);
        }
        assert(request_id_of(ms[0]) != id);
        lemma_unanswered_request_stays(table.remove(request_id_of(ms[0])), rest, id);
    }
}

} // verus!
