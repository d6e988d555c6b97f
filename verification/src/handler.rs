//! The per-connection handler of the tunnel protocol and its prototype.
//!
//! A handler owns the tunnel end until a substream of the tunnel protocol is
//! negotiated; it then hands the tunnel and the substream to a copy task,
//! which the caller runs. It asks for an outbound substream once per request
//! of the behaviour, as long as no copy is running.
use vstd::prelude::*;
use std::sync::Arc;

verus! {

/// The protocol name that the tunnel negotiates on a substream.
pub open spec fn tunnel_protocol() -> Seq<char> {
    seq!['/', 't', 'u', 'n', '/', '1', '.', '0']
}

/// The protocol name that the tunnel negotiates on a substream.
pub fn protocol_name() -> (name: &'static str)
    ensures
        name@ == tunnel_protocol(),
{
    let name = "/tun/1.0";
    proof {
        reveal_strlit("/tun/1.0");
    }
    assert(name@ =~= tunnel_protocol());
    name
}

/// A source of tunnel ends: each call of `new_io` opens one more handle on
/// the same device.
pub trait IoHandler {
    /// A handle on the tunnel device.
    type IO;

    /// Opens a new handle on the tunnel device.
    fn new_io(&self) -> Self::IO;
}

/// What a connection event reports to the handler.
pub enum ConnectionEvent<S> {
    /// A substream that the remote opened has negotiated the tunnel protocol.
    FullyNegotiatedInbound(S),
    /// A substream that this node opened has negotiated the tunnel protocol.
    FullyNegotiatedOutbound(S),
    /// Any other connection event.
    Other,
}

impl<S> ConnectionEvent<S> {
    /// Whether the event brings a negotiated substream.
    pub open spec fn is_negotiated(self) -> bool {
        !(self is Other)
    }
}

/// What the handler asks of its caller when polled.
#[derive(Clone, Copy, Debug, PartialEq, Eq, Structural)]
pub enum HandlerPoll {
    /// Open an outbound substream for the tunnel protocol.
    OutboundSubstreamRequest,
    /// Nothing to report; drive the running copy task.
    DriveCopy,
    /// Nothing to report and no copy task to drive.
    Pending,
}

/// The abstract state of a handler.
pub struct HandlerState<U> {
    /// The tunnel end, until it is handed to a copy task.
    pub tun: Option<U>,
    /// Whether a copy task runs on this connection.
    pub copying: bool,
    /// Whether an outbound substream is to be requested at the next poll.
    pub stream_requested: bool,
}

/// The state after an event of the behaviour: a substream is requested
/// unless a copy already runs.
pub open spec fn after_behaviour_event<U>(s: HandlerState<U>) -> HandlerState<U> {
    HandlerState {
        tun: s.tun,
        copying: s.copying,
        stream_requested: s.stream_requested || !s.copying,
    }
}

/// What a poll answers in state `s`.
pub open spec fn poll_answer<U>(s: HandlerState<U>) -> HandlerPoll {
    if s.stream_requested {
        HandlerPoll::OutboundSubstreamRequest
    } else if s.copying {
        HandlerPoll::DriveCopy
    } else {
        HandlerPoll::Pending
    }
}

/// The state after a poll: a request is answered once.
pub open spec fn after_poll<U>(s: HandlerState<U>) -> HandlerState<U> {
    HandlerState { tun: s.tun, copying: s.copying, stream_requested: false }
}

/// The state after a negotiated substream: the tunnel end is handed out and
/// a copy task runs.
pub open spec fn after_negotiation<U>(s: HandlerState<U>) -> HandlerState<U> {
    HandlerState { tun: None, copying: true, stream_requested: s.stream_requested }
}

/// A connection handler of the tunnel protocol.
pub struct Handler<U> {
    tun: Option<U>,
    copying: bool,
    init_stream: bool,
}

impl<U> Handler<U> {
    /// The tunnel end is held exactly as long as no copy task runs.
    #[verifier::type_invariant]
    spec fn wf(self) -> bool {
        self.tun is Some <==> !self.copying
    }

    /// The abstract state of the handler.
    pub closed spec fn state(self) -> HandlerState<U> {
        HandlerState { tun: self.tun, copying: self.copying, stream_requested: self.init_stream }
    }

    /// Whether a copy task runs on this connection; exactly then the
    /// handler no longer holds its tunnel end.
    pub fn is_copying(&self) -> (copying: bool)
        ensures
            copying == self.state().copying,
            copying <==> self.state().tun is None,
    {
        proof {
            use_type_invariant(self);
        }
        self.copying
    }

    /// The handler keeps its connection alive.
    pub fn connection_keep_alive(&self) -> (keep_alive: bool)
        ensures
            keep_alive,
    {
        true
    }

    /// An event of the behaviour asks for an outbound substream, unless a
    /// copy task already runs.
    pub fn on_behaviour_event(&mut self)
        ensures
            final(self).state() == after_behaviour_event(old(self).state()),
    {
        proof {
            use_type_invariant(&*self);
        }
        if !self.copying {
            self.init_stream = true;
        }
    }

    /// The protocol that the handler accepts on inbound substreams.
    pub fn listen_protocol(&self) -> (name: &'static str)
        ensures
            name@ == tunnel_protocol(),
    {
        protocol_name()
    }

    /// Answers a pending request for an outbound substream once; otherwise
    /// asks the caller to drive the copy task, if one runs.
    pub fn poll(&mut self) -> (answer: HandlerPoll)
        ensures
            answer == poll_answer(old(self).state()),
            final(self).state() == after_poll(old(self).state()),
    {
        proof {
            use_type_invariant(&*self);
        }
        if self.init_stream {
            self.init_stream = false;
            return HandlerPoll::OutboundSubstreamRequest;
        }
        if self.copying {
            HandlerPoll::DriveCopy
        } else {
            HandlerPoll::Pending
        }
    }

    /// On a negotiated substream, hands the tunnel end and the substream to
    /// the caller, which starts the copy task between them; other events
    /// leave the handler as it is and give nothing.
    pub fn on_connection_event<S>(&mut self, event: ConnectionEvent<S>) -> (copy: Option<(U, S)>)
        requires
            event.is_negotiated() ==> !old(self).state().copying,
        ensures
            match event {
                ConnectionEvent::FullyNegotiatedInbound(stream)
                | ConnectionEvent::FullyNegotiatedOutbound(stream) => {
                    &&& copy == Some((old(self).state().tun.unwrap(), stream))
                    &&& final(self).state() == after_negotiation(old(self).state())
                },
                ConnectionEvent::Other => {
                    &&& copy is None
                    &&& final(self).state() == old(self).state()
                },
            },
    {
        proof {
            use_type_invariant(&*self);
        }
        match event {
            ConnectionEvent::FullyNegotiatedInbound(stream)
            | ConnectionEvent::FullyNegotiatedOutbound(stream) => {
                let mut running = Handler { tun: None, copying: true, init_stream: self.init_stream };
                std::mem::swap(self, &mut running);
                let tun = running.tun.unwrap();
                Some((tun, stream))
            },
            ConnectionEvent::Other => None,
        }
    }
}

/// Builds the handler of each new connection from the shared tunnel source.
pub struct Prototype<T> {
    io: Arc<T>,
}

impl<T> Prototype<T> {
    /// The tunnel source that the prototype shares.
    pub closed spec fn io(self) -> T {
        *self.io
    }

    /// A prototype on the shared tunnel source `io`.
    pub fn new(io: Arc<T>) -> (prototype: Self)
        ensures
            prototype.io() == *io,
    {
        Prototype { io }
    }
}

impl<T: IoHandler> Prototype<T> {
    /// A handler that holds the tunnel end that `new_io` of the shared
    /// source gives, runs no copy and has no request pending.
    pub fn into_handler(self) -> (handler: Handler<T::IO>)
        ensures
            handler.state().tun is Some,
            call_ensures(T::new_io, (&self.io(),), handler.state().tun.unwrap()),
            !handler.state().copying,
            !handler.state().stream_requested,
    {
        Handler { tun: Some(self.io.new_io()), copying: false, init_stream: false }
    }

    /// The protocol that the handlers accept on inbound substreams.
    pub fn inbound_protocol(&self) -> (name: &'static str)
        ensures
            name@ == tunnel_protocol(),
    {
        protocol_name()
    }
}

/// A request for an outbound substream is answered by one poll only.
pub proof fn outbound_request_answered_once<U>(s: HandlerState<U>)
    ensures
        poll_answer(after_poll(s)) != HandlerPoll::OutboundSubstreamRequest,
{
}

/// While no copy runs, an event of the behaviour makes the next poll ask for
/// an outbound substream.
pub proof fn behaviour_event_requests_stream<U>(s: HandlerState<U>)
    requires
        !s.copying,
    ensures
        poll_answer(after_behaviour_event(s)) == HandlerPoll::OutboundSubstreamRequest,
{
}

/// Once a copy runs, events of the behaviour ask for no further substream.
pub proof fn no_new_request_while_copying<U>(s: HandlerState<U>)
    requires
        s.copying,
        !s.stream_requested,
    ensures
        poll_answer(after_behaviour_event(s)) == HandlerPoll::DriveCopy,
        after_behaviour_event(s) == s,
{
}

/// Polls and events of the behaviour never touch the tunnel end nor the
/// copy task; only a negotiated substream hands the tunnel end out, and
/// after that the handler holds no tunnel end and a copy runs.
pub proof fn only_negotiation_moves_the_tunnel<U>(s: HandlerState<U>)
    ensures
        after_poll(s).tun == s.tun && after_poll(s).copying == s.copying,
        after_behaviour_event(s).tun == s.tun && after_behaviour_event(s).copying == s.copying,
        after_negotiation(s).tun is None && after_negotiation(s).copying,
{
}

/// A call made on a handler, as the run laws see it.
pub enum HandlerCall {
    /// `on_behaviour_event`.
    BehaviourEvent,
    /// `poll`.
    Poll,
    /// `on_connection_event` with a negotiated substream.
    Negotiated,
    /// `on_connection_event` with any other event.
    OtherEvent,
}

/// A handler's state along a run of calls, with the number of outbound
/// substream requests that polls answered and the number of behaviour events
/// that came while no copy ran.
pub struct HandlerRun<U> {
    pub state: HandlerState<U>,
    pub requests: nat,
    pub eligible_events: nat,
}

/// The run after `call`.
pub open spec fn handler_run_step<U>(r: HandlerRun<U>, call: HandlerCall) -> HandlerRun<U> {
    match call {
        HandlerCall::BehaviourEvent => HandlerRun {
            state: after_behaviour_event(r.state),
            requests: r.requests,
            eligible_events: if r.state.copying {
                r.eligible_events
            } else {
                r.eligible_events + 1
            },
        },
        HandlerCall::Poll => HandlerRun {
            state: after_poll(r.state),
            requests: if poll_answer(r.state) == HandlerPoll::OutboundSubstreamRequest {
                r.requests + 1
            } else {
                r.requests
            },
            eligible_events: r.eligible_events,
        },
        HandlerCall::Negotiated => HandlerRun {
            state: after_negotiation(r.state),
            requests: r.requests,
            eligible_events: r.eligible_events,
        },
        HandlerCall::OtherEvent => r,
    }
}

/// The run after the calls of `calls`, in order, from `r`.
pub open spec fn handler_replay<U>(r: HandlerRun<U>, calls: Seq<HandlerCall>) -> HandlerRun<U>
    decreases calls.len(),
{
    if calls.len() == 0 {
        r
    } else {
        handler_run_step(handler_replay(r, calls.drop_last()), calls.last())
    }
}

/// Over any run of calls on a handler that starts with no request pending,
/// as `into_handler` gives it, polls answer at most one outbound substream
/// request per behaviour event that came while no copy ran; a request still
/// pending counts against those events too.
pub proof fn requests_bounded_by_behaviour_events<U>(start: HandlerState<U>, calls: Seq<HandlerCall>)
    requires
        !start.stream_requested,
    ensures
        ({
            let end = handler_replay(HandlerRun { state: start, requests: 0, eligible_events: 0 }, calls);
            &&& end.requests + (if end.state.stream_requested { 1int } else { 0int }) <= end.eligible_events
            &&& end.requests <= end.eligible_events
        }),
    decreases calls.len(),
{
    if calls.len() > 0 {
        requests_bounded_by_behaviour_events(start, calls.drop_last());
    }
}

} // verus!
