//! How the node reacts to the events of the swarm once it runs.
use vstd::prelude::*;
use libp2p::PeerId;
use crate::mode::Mode;

verus! {

/// What the session is told of an event of the swarm.
pub enum SwarmEventKind {
    /// The swarm listens on a new address.
    NewListenAddr,
    /// The relay accepted the node's reservation.
    ReservationAccepted,
    /// Any other event of the relay client.
    RelayOther,
    /// An event of the identify protocol.
    Identify,
    /// An event of the ping protocol.
    Ping,
    /// A connection to this peer was established.
    ConnectionEstablished(PeerId),
    /// An outgoing connection failed.
    OutgoingConnectionError,
    /// A connection was closed.
    ConnectionClosed,
    /// Any other event.
    Other,
}

/// What the node does on an event.
pub enum Reaction {
    /// Go on waiting for events.
    Continue,
    /// Ask the tunnel behaviour to open the tunnel stream to this peer.
    OpenStream(PeerId),
    /// Join the relay again and reconnect to the circuit.
    Reconnect,
}

/// What the node does on `event` in `mode`.
pub open spec fn reaction_to(mode: Mode, event: SwarmEventKind) -> Reaction {
    match event {
        SwarmEventKind::ConnectionEstablished(peer) => if mode == Mode::Dial {
            Reaction::OpenStream(peer)
        } else {
            Reaction::Continue
        },
        SwarmEventKind::ConnectionClosed => Reaction::Reconnect,
        _ => Reaction::Continue,
    }
}

/// What the node does on `event` in `mode`: a dialing node opens the tunnel
/// to each peer it connects to, and a closed connection makes the node join
/// the relay again. Only a listening node can have its reservation accepted.
pub fn react(mode: Mode, event: SwarmEventKind) -> (reaction: Reaction)
    requires
        event is ReservationAccepted ==> mode == Mode::Listen,
    ensures
        reaction == reaction_to(mode, event),
{
    match event {
        SwarmEventKind::ConnectionEstablished(peer) => {
            if mode == Mode::Dial {
                Reaction::OpenStream(peer)
            } else {
                Reaction::Continue
            }
        },
        SwarmEventKind::ConnectionClosed => Reaction::Reconnect,
        _ => Reaction::Continue,
    }
}

/// While the swarm starts, only new listen addresses are expected; any other
/// event is fatal.
pub fn startup_accepts(event: &SwarmEventKind) -> (accepted: bool)
    ensures
        accepted == (*event is NewListenAddr),
{
    match event {
        SwarmEventKind::NewListenAddr => true,
        _ => false,
    }
}

/// A listening node never opens the tunnel itself: it waits for the dialing
/// peer to open it.
pub proof fn listener_never_opens_stream(event: SwarmEventKind)
    ensures
        !(reaction_to(Mode::Listen, event) is OpenStream),
{
}

/// A dialing node opens the tunnel to exactly the peer it connected to.
pub proof fn dialer_opens_stream_to_connected_peer(peer: PeerId)
    ensures
        reaction_to(Mode::Dial, SwarmEventKind::ConnectionEstablished(peer)) == Reaction::OpenStream(
            peer,
        ),
{
}

/// Only a closed connection makes the node join the relay again, in either
/// mode; only a connection established by a dialing node opens the tunnel,
/// to that connection's peer; every other event (new listen address,
/// reservation, relay, identify, ping, outgoing error, anything else) lets
/// the node go on, in either mode.
pub proof fn reactions_by_event(mode: Mode, event: SwarmEventKind)
    ensures
        (reaction_to(mode, event) is Reconnect) <==> (event is ConnectionClosed),
        (reaction_to(mode, event) is OpenStream) <==> (mode == Mode::Dial
            && event is ConnectionEstablished),
        reaction_to(mode, event) matches Reaction::OpenStream(peer) ==> event
            == SwarmEventKind::ConnectionEstablished(peer),
        !(event is ConnectionClosed) && !(event is ConnectionEstablished) ==> reaction_to(
            mode,
            event,
        ) == Reaction::Continue,
        event is ConnectionEstablished && mode == Mode::Listen ==> reaction_to(mode, event)
            == Reaction::Continue,
{
}

} // verus!
