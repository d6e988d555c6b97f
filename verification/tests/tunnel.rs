use std::cell::Cell;
use std::rc::Rc;
use std::sync::Arc;

use libp2p::identity::Keypair;
use libp2p::{Multiaddr, PeerId};
use p2p_tun::behaviour::Behaviour;
use p2p_tun::handler::{protocol_name, ConnectionEvent, HandlerPoll, IoHandler, Prototype};
use p2p_tun::identity::generate_ed25519;
use p2p_tun::mode::Mode;
use p2p_tun::relay::{circuit_target, CircuitTarget, RelayEvent, RelayHandshake, RETRY_DELAY_SECS};
use p2p_tun::session::{react, startup_accepts, Reaction, SwarmEventKind};

/// A tunnel source that numbers the handles it opens.
struct CountingIo {
    opened: Rc<Cell<u32>>,
}

impl IoHandler for CountingIo {
    type IO = u32;
    fn new_io(&self) -> u32 {
        let n = self.opened.get() + 1;
        self.opened.set(n);
        n
    }
}

fn peer(seed: u8) -> PeerId {
    generate_ed25519(seed).public().to_peer_id()
}

#[test]
fn mode_parses_dial_and_listen() {
    assert_eq!(Mode::from_str("dial"), Ok(Mode::Dial));
    assert_eq!(Mode::from_str("listen"), Ok(Mode::Listen));
    assert_eq!("dial".parse::<Mode>(), Ok(Mode::Dial));
    assert_eq!("listen".parse::<Mode>(), Ok(Mode::Listen));
}

#[test]
fn mode_refuses_other_text() {
    let expected = Err("Expected either 'dial' or 'listen'".to_string());
    assert_eq!(Mode::from_str("Dial"), expected);
    assert_eq!(Mode::from_str(""), expected);
    assert_eq!(Mode::from_str("dial "), expected);
    assert_eq!(Mode::from_str("listener"), expected);
    assert_eq!("x".parse::<Mode>(), expected);
}

#[test]
fn seed_gives_the_ed25519_key_of_its_secret() {
    let mut bytes = [0u8; 32];
    bytes[0] = 7;
    let expected = Keypair::ed25519_from_bytes(&mut bytes).unwrap();
    assert_eq!(generate_ed25519(7).public(), expected.public());
}

#[test]
fn same_seed_same_peer_id_distinct_seeds_distinct_peer_ids() {
    assert_eq!(peer(1), peer(1));
    assert_ne!(peer(1), peer(2));
    assert_ne!(peer(0), peer(255));
}

#[test]
fn protocol_name_is_tun_1_0() {
    assert_eq!(protocol_name(), "/tun/1.0");
}

#[test]
fn handler_requests_outbound_stream_once() {
    let opened = Rc::new(Cell::new(0));
    let prototype = Prototype::new(Arc::new(CountingIo { opened: opened.clone() }));
    assert_eq!(prototype.inbound_protocol(), "/tun/1.0");
    let mut handler = prototype.into_handler();
    assert_eq!(opened.get(), 1);
    assert!(handler.connection_keep_alive());
    assert_eq!(handler.listen_protocol(), "/tun/1.0");
    assert!(!handler.is_copying());
    assert_eq!(handler.poll(), HandlerPoll::Pending);
    handler.on_behaviour_event();
    assert_eq!(handler.poll(), HandlerPoll::OutboundSubstreamRequest);
    assert_eq!(handler.poll(), HandlerPoll::Pending);
    handler.on_behaviour_event();
    handler.on_behaviour_event();
    assert_eq!(handler.poll(), HandlerPoll::OutboundSubstreamRequest);
    assert_eq!(handler.poll(), HandlerPoll::Pending);
}

#[test]
fn handler_hands_out_tunnel_on_negotiation() {
    let opened = Rc::new(Cell::new(0));
    let prototype = Prototype::new(Arc::new(CountingIo { opened }));
    let mut handler = prototype.into_handler();
    assert_eq!(handler.on_connection_event(ConnectionEvent::<&str>::Other), None);
    assert!(!handler.is_copying());
    assert_eq!(
        handler.on_connection_event(ConnectionEvent::FullyNegotiatedOutbound("stream")),
        Some((1, "stream"))
    );
    assert!(handler.is_copying());
    assert_eq!(handler.poll(), HandlerPoll::DriveCopy);
    handler.on_behaviour_event();
    assert_eq!(handler.poll(), HandlerPoll::DriveCopy);
    assert_eq!(handler.on_connection_event(ConnectionEvent::<&str>::Other), None);
}

#[test]
fn handler_accepts_inbound_stream() {
    let opened = Rc::new(Cell::new(4));
    let mut handler = Prototype::new(Arc::new(CountingIo { opened })).into_handler();
    assert_eq!(
        handler.on_connection_event(ConnectionEvent::FullyNegotiatedInbound(9u8)),
        Some((5, 9u8))
    );
    assert!(handler.is_copying());
}

#[test]
fn request_before_negotiation_is_still_answered() {
    let opened = Rc::new(Cell::new(0));
    let mut handler = Prototype::new(Arc::new(CountingIo { opened })).into_handler();
    handler.on_behaviour_event();
    assert!(handler
        .on_connection_event(ConnectionEvent::FullyNegotiatedInbound(()))
        .is_some());
    assert_eq!(handler.poll(), HandlerPoll::OutboundSubstreamRequest);
    assert_eq!(handler.poll(), HandlerPoll::DriveCopy);
}

#[test]
fn behaviour_notifies_once_and_last_request_wins() {
    let opened = Rc::new(Cell::new(0));
    let mut behaviour = Behaviour::new(CountingIo { opened: opened.clone() });
    assert_eq!(behaviour.poll(), None);
    behaviour.open_stream(peer(1));
    assert_eq!(behaviour.poll(), Some(peer(1)));
    assert_eq!(behaviour.poll(), None);
    behaviour.open_stream(peer(1));
    behaviour.open_stream(peer(2));
    assert_eq!(behaviour.poll(), Some(peer(2)));
    assert_eq!(behaviour.poll(), None);
}

#[test]
fn behaviour_handlers_share_one_tunnel_source() {
    let opened = Rc::new(Cell::new(0));
    let mut behaviour = Behaviour::new(CountingIo { opened: opened.clone() });
    let first = behaviour.new_handler().into_handler();
    let second = behaviour.new_handler().into_handler();
    assert_eq!(opened.get(), 2);
    assert!(!first.is_copying());
    assert!(!second.is_copying());
}

#[test]
fn relay_handshake_needs_both_addresses() {
    let mut handshake = RelayHandshake::new();
    assert!(!handshake.on_event(RelayEvent::Other));
    assert!(!handshake.on_event(RelayEvent::IdentifySent));
    assert!(!handshake.on_event(RelayEvent::IdentifySent));
    assert!(handshake.on_event(RelayEvent::IdentifyReceived));
    assert!(handshake.on_event(RelayEvent::Other));

    let mut reversed = RelayHandshake::new();
    assert!(!reversed.on_event(RelayEvent::IdentifyReceived));
    assert!(reversed.on_event(RelayEvent::IdentifySent));
}

#[test]
fn retry_delay_is_five_seconds() {
    assert_eq!(RETRY_DELAY_SECS, 5);
}

#[test]
fn listen_target_is_the_relay_circuit() {
    let relay: Multiaddr = "/ip4/10.0.0.1/udp/4001/quic-v1".parse().unwrap();
    match circuit_target(Mode::Listen, relay.clone(), None) {
        CircuitTarget::Listen(addr) => {
            assert_eq!(addr.to_string(), "/ip4/10.0.0.1/udp/4001/quic-v1/p2p-circuit");
            let mut expected = relay.to_vec();
            expected.extend_from_slice(&[0xa2, 0x02]);
            assert_eq!(addr.to_vec(), expected);
        }
        CircuitTarget::Dial(_) => panic!("listen mode gave a dial target"),
    }
}

#[test]
fn dial_target_names_the_remote_through_the_relay() {
    let relay: Multiaddr = "/ip4/10.0.0.1/udp/4001/quic-v1".parse().unwrap();
    let remote = peer(3);
    match circuit_target(Mode::Dial, relay.clone(), Some(remote)) {
        CircuitTarget::Dial(addr) => {
            assert_eq!(
                addr.to_string(),
                format!("/ip4/10.0.0.1/udp/4001/quic-v1/p2p-circuit/p2p/{}", remote)
            );
            let peer_bytes = remote.to_bytes();
            let mut expected = relay.to_vec();
            expected.extend_from_slice(&[0xa2, 0x02, 0xa5, 0x03, peer_bytes.len() as u8]);
            expected.extend_from_slice(&peer_bytes);
            assert_eq!(addr.to_vec(), expected);
        }
        CircuitTarget::Listen(_) => panic!("dial mode gave a listen target"),
    }
}

#[test]
fn dialer_opens_stream_to_connected_peer() {
    match react(Mode::Dial, SwarmEventKind::ConnectionEstablished(peer(4))) {
        Reaction::OpenStream(p) => assert_eq!(p, peer(4)),
        _ => panic!("a dialer must open the stream"),
    }
}

#[test]
fn listener_waits_for_the_stream() {
    assert!(matches!(
        react(Mode::Listen, SwarmEventKind::ConnectionEstablished(peer(4))),
        Reaction::Continue
    ));
    assert!(matches!(
        react(Mode::Listen, SwarmEventKind::ReservationAccepted),
        Reaction::Continue
    ));
}

#[test]
fn closed_connection_reconnects() {
    assert!(matches!(react(Mode::Dial, SwarmEventKind::ConnectionClosed), Reaction::Reconnect));
    assert!(matches!(react(Mode::Listen, SwarmEventKind::ConnectionClosed), Reaction::Reconnect));
    assert!(matches!(react(Mode::Dial, SwarmEventKind::Ping), Reaction::Continue));
    assert!(matches!(
        react(Mode::Dial, SwarmEventKind::OutgoingConnectionError),
        Reaction::Continue
    ));
}

#[test]
fn startup_accepts_only_new_listen_addresses() {
    assert!(startup_accepts(&SwarmEventKind::NewListenAddr));
    assert!(!startup_accepts(&SwarmEventKind::Other));
    assert!(!startup_accepts(&SwarmEventKind::ConnectionClosed));
}
