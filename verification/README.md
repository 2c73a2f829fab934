# signaling

A peer that opens a WebRTC data channel to another peer, with the exchange of session
descriptions and ICE candidates over a web socket.

* `src/` is the library: every decision that the peer makes, verified with Verus. It never
  waits; `SignalingServer` hands out one action at a time and goes on by the reply to it.
  `src/laws.rs` states what holds of whole procedures, and `src/interleaving.rs` what holds while
  other procedures go on between their steps.
* `app/` is the program around it: it performs the actions on a real web socket and a real
  peer connection.
* `tests/` runs the library against the crates that it calls.

The program takes a user name and a password for the relay, and `relay` as a third word where
all traffic is to go through it. Then it reads lines: `offer` opens a data channel, `send TEXT`
sends a text over it, `exit` leaves.
