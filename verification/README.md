# noise

The control logic of a point-to-point WireGuard tunnel, with proofs.

The library decides; the program around it acts. A call on a tunnel returns an `Action`: a packet to
be sealed, a datagram to be shown to the rate limiter, a message to be handed to the handshake. The
program carries it out and hands the outcome back, and the tunnel says what is to be sent to the
network or delivered to the tunnel interface.

- `src/packet.rs`: the messages on the wire
- `src/ip.rs`: addresses, and the headers of IP packets
- `src/session.rs`, `src/handshake.rs`, `src/timers.rs`, `src/rate_limiter.rs`: what the tunnel knows
  of its components
- `src/clock.rs`, `src/keys.rs`: the calls into the standard library, `x25519-dalek` and `rand`, with
  what is relied on
- `src/model.rs`: the state of a tunnel and its transitions, as mathematics
- `src/tunn.rs`: the tunnel
- `src/laws.rs`: what holds of every tunnel
- `app/`: a tunnel that runs, generic over the cryptography, the timers and the rate limiter
