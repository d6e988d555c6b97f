# p2p_tun

A TUN device bridged to a remote peer over a libp2p relay circuit.

`src/` is the verified library (Verus):

- `mode` parses the node's role, `dial` or `listen`.
- `identity` derives the node's Ed25519 key pair from a one-byte seed.
- `handler` is the connection handler of the tunnel protocol: when it asks
  for an outbound substream, and how it hands the tunnel end and a negotiated
  substream to the copy task.
- `behaviour` is the network behaviour that shares the tunnel source and
  notifies a handler to open the tunnel stream.
- `relay` holds the address exchange with the relay and the circuit address
  on which the node dials or listens.
- `session` holds the node's reactions to swarm events.
- `error` is the handler's error type, which has no value.

`app/` is the program around it: the command line, the TUN device, the
libp2p swarm and its traits, and the byte copy between device and stream.
