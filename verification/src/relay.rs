//! Joining the relay: the handshake that learns the node's public address,
//! and the circuit address through which the node dials or listens.
use vstd::prelude::*;
use libp2p::multiaddr::Protocol;
use libp2p::{Multiaddr, PeerId};
use crate::mode::Mode;

verus! {

/// Seconds to wait before a failed dial or listen on the relay is tried again.
pub const RETRY_DELAY_SECS: u64 = 5;

/// What the relay handshake is told of an event of the swarm.
#[derive(Clone, Copy, Debug, PartialEq, Eq, Structural)]
pub enum RelayEvent {
    /// The identify protocol sent the relay its observed address.
    IdentifySent,
    /// The identify protocol received the node's observed address from the relay.
    IdentifyReceived,
    /// Any other event.
    Other,
}

/// The abstract state of the handshake: whether the node learned its
/// observed address, and whether it told the relay the relay's.
pub struct HandshakeState {
    pub learned_observed_addr: bool,
    pub told_relay_observed_addr: bool,
}

/// The state after `event`.
pub open spec fn handshake_step(s: HandshakeState, event: RelayEvent) -> HandshakeState {
    match event {
        RelayEvent::IdentifySent => HandshakeState {
            learned_observed_addr: s.learned_observed_addr,
            told_relay_observed_addr: true,
        },
        RelayEvent::IdentifyReceived => HandshakeState {
            learned_observed_addr: true,
            told_relay_observed_addr: s.told_relay_observed_addr,
        },
        RelayEvent::Other => s,
    }
}

/// The handshake is done once both addresses were exchanged.
pub open spec fn handshake_done(s: HandshakeState) -> bool {
    s.learned_observed_addr && s.told_relay_observed_addr
}

/// The state of a fresh handshake.
pub open spec fn handshake_start() -> HandshakeState {
    HandshakeState { learned_observed_addr: false, told_relay_observed_addr: false }
}

/// The state after the events of `events`, in order, from `s`.
pub open spec fn handshake_replay(s: HandshakeState, events: Seq<RelayEvent>) -> HandshakeState
    decreases events.len(),
{
    if events.len() == 0 {
        s
    } else {
        handshake_step(handshake_replay(s, events.drop_last()), events.last())
    }
}

/// The exchange of observed addresses with the relay after a dial.
pub struct RelayHandshake {
    learned_observed_addr: bool,
    told_relay_observed_addr: bool,
}

impl RelayHandshake {
    /// The abstract state of the handshake.
    pub closed spec fn state(self) -> HandshakeState {
        HandshakeState {
            learned_observed_addr: self.learned_observed_addr,
            told_relay_observed_addr: self.told_relay_observed_addr,
        }
    }

    /// A handshake in which nothing was exchanged yet.
    pub fn new() -> (handshake: Self)
        ensures
            handshake.state() == handshake_start(),
    {
        RelayHandshake { learned_observed_addr: false, told_relay_observed_addr: false }
    }

    /// Takes one event of the swarm; says whether the handshake is done.
    pub fn on_event(&mut self, event: RelayEvent) -> (done: bool)
        ensures
            final(self).state() == handshake_step(old(self).state(), event),
            done == handshake_done(final(self).state()),
    {
        match event {
            RelayEvent::IdentifySent => {
                self.told_relay_observed_addr = true;
            },
            RelayEvent::IdentifyReceived => {
                self.learned_observed_addr = true;
            },
            RelayEvent::Other => {},
        }
        self.learned_observed_addr && self.told_relay_observed_addr
    }
}

/// A fresh handshake is done after a run of events exactly when the run
/// holds both an `IdentifySent` and an `IdentifyReceived`, in either order.
pub proof fn handshake_done_iff_both_exchanged(events: Seq<RelayEvent>)
    ensures
        handshake_done(handshake_replay(handshake_start(), events)) <==> (events.contains(
            RelayEvent::IdentifySent,
        ) && events.contains(RelayEvent::IdentifyReceived)),
    decreases events.len(),
{
    let s = handshake_replay(handshake_start(), events);
    assert(s.told_relay_observed_addr <==> events.contains(RelayEvent::IdentifySent)) by {
        lemma_flag_iff_seen(events, RelayEvent::IdentifySent);
    }
    assert(s.learned_observed_addr <==> events.contains(RelayEvent::IdentifyReceived)) by {
        lemma_flag_iff_seen(events, RelayEvent::IdentifyReceived);
    }
}

/// The part of the handshake state that `event` sets.
spec fn flag_set_by(s: HandshakeState, event: RelayEvent) -> bool {
    match event {
        RelayEvent::IdentifySent => s.told_relay_observed_addr,
        RelayEvent::IdentifyReceived => s.learned_observed_addr,
        RelayEvent::Other => false,
    }
}

/// After a run from a fresh handshake, the flag that `event` sets is set
/// exactly when the run holds `event`.
proof fn lemma_flag_iff_seen(events: Seq<RelayEvent>, event: RelayEvent)
    requires
        !(event is Other),
    ensures
        flag_set_by(handshake_replay(handshake_start(), events), event) <==> events.contains(event),
    decreases events.len(),
{
    if events.len() > 0 {
        let init = events.drop_last();
        lemma_flag_iff_seen(init, event);
        if init.contains(event) {
            let k = choose|k: int| 0 <= k < init.len() && init[k] == event;
            assert(events[k] == event);
        }
        if events.contains(event) {
            let k = choose|k: int| 0 <= k < events.len() && events[k] == event;
            if k < events.len() - 1 {
                assert(init[k] == event);
            }
        }
        if events.last() == event {
            assert(events[events.len() - 1] == event);
        }
    }
}

/// Identifies a multiaddress; the library only carries it.
#[verifier::external_type_specification]
#[verifier::external_body]
pub struct ExMultiaddr(Multiaddr);

/// The bytes of the binary form of `addr`.
pub uninterp spec fn multiaddr_bytes(addr: Multiaddr) -> Seq<u8>;

/// The bytes of the multihash that `peer` wraps.
pub uninterp spec fn peer_id_bytes(peer: PeerId) -> Seq<u8>;

/// The unsigned varint of the multiformats, which codes `n` in groups of
/// seven bits, the lowest group first, each group but the last with its
/// high bit set.
pub open spec fn uvarint(n: nat) -> Seq<u8>
    decreases n,
{
    if n < 128 {
        seq![n as u8]
    } else {
        seq![(n % 128 + 128) as u8] + uvarint(n / 128)
    }
}

/// The protocol code of a relayed circuit in a multiaddress.
pub open spec fn p2p_circuit_code() -> nat {
    290
}

/// The protocol code of a peer id in a multiaddress.
pub open spec fn p2p_code() -> nat {
    421
}

/// The binary form of the component that names a relayed circuit.
pub open spec fn circuit_component() -> Seq<u8> {
    uvarint(p2p_circuit_code())
}

/// The binary form of the component that names the peer whose id has the
/// multihash `peer`.
pub open spec fn peer_component(peer: Seq<u8>) -> Seq<u8> {
    uvarint(p2p_code()) + uvarint(peer.len()) + peer
}

/// Calls `Multiaddr::with(Protocol::P2pCircuit)` of `multiaddr`, which
/// writes the varint of the circuit code after the bytes of `addr`.
#[verifier::external_body]
fn multiaddr_with_circuit(addr: Multiaddr) -> (extended: Multiaddr)
    ensures
        multiaddr_bytes(extended) == multiaddr_bytes(addr) + circuit_component(),
{
    addr.with(Protocol::P2pCircuit)
}

/// Calls `Multiaddr::with(Protocol::P2p(peer))` of `multiaddr`, which writes
/// the varint of the peer code, the varint of the length of the peer's
/// multihash, then that multihash, after the bytes of `addr`.
#[verifier::external_body]
fn multiaddr_with_peer(addr: Multiaddr, peer: PeerId) -> (extended: Multiaddr)
    ensures
        multiaddr_bytes(extended) == multiaddr_bytes(addr) + peer_component(peer_id_bytes(peer)),
{
    addr.with(Protocol::P2p(peer))
}

/// Where the node joins the relayed circuit.
pub enum CircuitTarget {
    /// Dial this address, which reaches the remote peer through the relay.
    Dial(Multiaddr),
    /// Listen on this address, the relay's circuit.
    Listen(Multiaddr),
}

/// The binary form of the address on which a node listens through the relay
/// whose address has the bytes `relay`.
pub open spec fn listen_circuit_bytes(relay: Seq<u8>) -> Seq<u8> {
    relay + circuit_component()
}

/// The binary form of the address that dials the peer with multihash `peer`
/// through the relay whose address has the bytes `relay`.
pub open spec fn dial_circuit_bytes(relay: Seq<u8>, peer: Seq<u8>) -> Seq<u8> {
    relay + circuit_component() + peer_component(peer)
}

/// In dial mode, the address of `remote` through the relay's circuit; in
/// listen mode, the relay's circuit itself.
pub fn circuit_target(mode: Mode, relay_addr: Multiaddr, remote: Option<PeerId>) -> (target:
    CircuitTarget)
    requires
        mode == Mode::Dial ==> remote is Some,
    ensures
        match target {
            CircuitTarget::Dial(addr) => mode == Mode::Dial && multiaddr_bytes(addr)
                == dial_circuit_bytes(multiaddr_bytes(relay_addr), peer_id_bytes(remote.unwrap())),
            CircuitTarget::Listen(addr) => mode == Mode::Listen && multiaddr_bytes(addr)
                == listen_circuit_bytes(multiaddr_bytes(relay_addr)),
        },
{
    match mode {
        Mode::Dial => {
            let peer = remote.unwrap();
            let circuit = multiaddr_with_circuit(relay_addr);
            CircuitTarget::Dial(multiaddr_with_peer(circuit, peer))
        },
        Mode::Listen => CircuitTarget::Listen(multiaddr_with_circuit(relay_addr)),
    }
}

/// The address a dialing node uses extends, by the remote's component, the
/// address on which a listening node waits at the same relay; both start
/// with the relay's address.
pub proof fn dial_address_extends_listen_address(relay: Seq<u8>, peer: Seq<u8>)
    ensures
        dial_circuit_bytes(relay, peer) == listen_circuit_bytes(relay) + peer_component(peer),
        listen_circuit_bytes(relay).subrange(0, relay.len() as int) == relay,
        dial_circuit_bytes(relay, peer).subrange(0, listen_circuit_bytes(relay).len() as int)
            == listen_circuit_bytes(relay),
{
    assert(listen_circuit_bytes(relay).subrange(0, relay.len() as int) =~= relay);
    assert(dial_circuit_bytes(relay, peer).subrange(0, listen_circuit_bytes(relay).len() as int)
        =~= listen_circuit_bytes(relay));
}

} // verus!
