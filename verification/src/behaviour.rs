//! The network behaviour of the tunnel: it shares the tunnel source with the
//! handlers of all connections and asks a handler to open the tunnel stream
//! when the node decides to dial the tunnel to a peer.
use vstd::prelude::*;
use std::sync::Arc;
use libp2p::PeerId;
use crate::handler::Prototype;

verus! {

/// Calls `Arc::clone` of std, which makes another pointer to the same
/// allocation: the clone points at the same value.
#[verifier::external_body]
fn arc_clone<T>(shared: &Arc<T>) -> (copy: Arc<T>)
    ensures
        *copy == **shared,
{
    Arc::clone(shared)
}

/// The abstract state of a behaviour.
pub struct BehaviourState<T> {
    /// The peer whose handler is to be notified at the next poll.
    pub pending: Option<PeerId>,
    /// The shared tunnel source.
    pub io: T,
}

/// The state after a request to open the tunnel stream to `peer`: the last
/// request replaces an earlier one that was not yet delivered.
pub open spec fn after_open_stream<T>(s: BehaviourState<T>, peer: PeerId) -> BehaviourState<T> {
    BehaviourState { pending: Some(peer), io: s.io }
}

/// The state after a poll: a request is delivered once.
pub open spec fn after_behaviour_poll<T>(s: BehaviourState<T>) -> BehaviourState<T> {
    BehaviourState { pending: None, io: s.io }
}

/// The network behaviour of the tunnel.
pub struct Behaviour<T> {
    init_stream: Option<PeerId>,
    tun: Arc<T>,
}

impl<T> Behaviour<T> {
    /// The abstract state of the behaviour.
    pub closed spec fn state(self) -> BehaviourState<T> {
        BehaviourState { pending: self.init_stream, io: *self.tun }
    }

    /// A behaviour that shares `tun` and has no request pending.
    pub fn new(tun: T) -> (behaviour: Self)
        ensures
            behaviour.state() == (BehaviourState { pending: None, io: tun }),
    {
        Behaviour { init_stream: None, tun: Arc::new(tun) }
    }

    /// Asks that the handler of the connection to `peer_id` open the
    /// tunnel stream.
    pub fn open_stream(&mut self, peer_id: PeerId)
        ensures
            final(self).state() == after_open_stream(old(self).state(), peer_id),
    {
        self.init_stream = Some(peer_id);
    }

    /// A prototype of handlers that shares the behaviour's tunnel source.
    pub fn new_handler(&mut self) -> (prototype: Prototype<T>)
        ensures
            prototype.io() == old(self).state().io,
            final(self).state() == old(self).state(),
    {
        Prototype::new(arc_clone(&self.tun))
    }

    /// Gives the peer whose handler is to be notified, once; `None` when no
    /// request is pending.
    pub fn poll(&mut self) -> (notify: Option<PeerId>)
        ensures
            notify == old(self).state().pending,
            final(self).state() == after_behaviour_poll(old(self).state()),
    {
        self.init_stream.take()
    }
}

/// A request to open the tunnel stream is delivered at the next poll, and
/// only once.
pub proof fn open_stream_is_delivered_once<T>(s: BehaviourState<T>, peer: PeerId)
    ensures
        after_open_stream(s, peer).pending == Some(peer),
        after_behaviour_poll(after_open_stream(s, peer)).pending is None,
{
}

/// Of two requests before a poll, the later one is delivered.
pub proof fn later_open_stream_wins<T>(s: BehaviourState<T>, first: PeerId, second: PeerId)
    ensures
        after_open_stream(after_open_stream(s, first), second) == after_open_stream(s, second),
{
}

/// Neither a request nor a poll changes the shared tunnel source.
pub proof fn tunnel_source_is_kept<T>(s: BehaviourState<T>, peer: PeerId)
    ensures
        after_open_stream(s, peer).io == s.io,
        after_behaviour_poll(s).io == s.io,
{
}

/// A call made on a behaviour, as the run laws see it.
pub enum BehaviourCall {
    /// `open_stream` for this peer.
    OpenStream(PeerId),
    /// `new_handler`.
    NewHandler,
    /// `poll`.
    Poll,
}

/// A behaviour's state along a run of calls, with the peers asked for by
/// `open_stream` and the peers that polls notified, each in order.
pub struct BehaviourRun<T> {
    pub state: BehaviourState<T>,
    pub requested: Seq<PeerId>,
    pub notified: Seq<PeerId>,
}

/// The run after `call`.
pub open spec fn behaviour_run_step<T>(r: BehaviourRun<T>, call: BehaviourCall) -> BehaviourRun<T> {
    match call {
        BehaviourCall::OpenStream(peer) => BehaviourRun {
            state: after_open_stream(r.state, peer),
            requested: r.requested.push(peer),
            notified: r.notified,
        },
        BehaviourCall::NewHandler => r,
        BehaviourCall::Poll => BehaviourRun {
            state: after_behaviour_poll(r.state),
            requested: r.requested,
            notified: match r.state.pending {
                Some(peer) => r.notified.push(peer),
                None => r.notified,
            },
        },
    }
}

/// The run after the calls of `calls`, in order, from `r`.
pub open spec fn behaviour_replay<T>(r: BehaviourRun<T>, calls: Seq<BehaviourCall>) -> BehaviourRun<T>
    decreases calls.len(),
{
    if calls.len() == 0 {
        r
    } else {
        behaviour_run_step(behaviour_replay(r, calls.drop_last()), calls.last())
    }
}

/// Over any run of calls on a behaviour that starts with no request pending,
/// as `new` gives it, polls notify only peers that `open_stream` asked for,
/// and no more notifications than requests; a request still pending names a
/// peer that was asked for and counts against the requests too.
pub proof fn notifications_come_from_requests<T>(start: BehaviourState<T>, calls: Seq<BehaviourCall>)
    requires
        start.pending is None,
    ensures
        ({
            let end = behaviour_replay(
                BehaviourRun { state: start, requested: Seq::empty(), notified: Seq::empty() },
                calls,
            );
            &&& forall|i: int| 0 <= i < end.notified.len() ==> end.requested.contains(#[trigger] end.notified[i])
            &&& end.state.pending matches Some(peer) ==> end.requested.contains(peer)
            &&& end.notified.len() + (if end.state.pending is Some { 1int } else { 0int }) <= end.requested.len()
            &&& end.notified.len() <= end.requested.len()
        }),
    decreases calls.len(),
{
    if calls.len() > 0 {
        let init = calls.drop_last();
        notifications_come_from_requests(start, init);
        let prev = behaviour_replay(
            BehaviourRun { state: start, requested: Seq::empty(), notified: Seq::empty() },
            init,
        );
        let end = behaviour_run_step(prev, calls.last());
        match calls.last() {
            BehaviourCall::OpenStream(peer) => {
                assert(end.requested[end.requested.len() - 1] == peer);
                assert forall|i: int| 0 <= i < end.notified.len() implies end.requested.contains(
                    #[trigger] end.notified[i],
                ) by {
                    let k = choose|k: int| 0 <= k < prev.requested.len() && prev.requested[k] == prev.notified[i];
                    assert(end.requested[k] == prev.requested[k]);
                }
            },
            BehaviourCall::NewHandler => {},
            BehaviourCall::Poll => {
                assert forall|i: int| 0 <= i < end.notified.len() implies end.requested.contains(
                    #[trigger] end.notified[i],
                ) by {
                    if i < prev.notified.len() {
                        assert(end.notified[i] == prev.notified[i]);
                    }
                }
            },
        }
    }
}

} // verus!
