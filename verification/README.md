# webrtc_http

Byte streams over a WebRTC data channel, so that HTTP (or anything else that talks over a socket)
can be served from one peer to another. One side connects, the other listens and accepts; any number
of streams share the channel.

- `src/` decides: the wire format, where a message goes, what a write, a flush or a shutdown comes
  to, when a stream is open. It is verified with Verus, and `src/laws.rs` states what holds of whole
  exchanges.
- `app/` waits: the `tokio` streams, the data channel's handlers, the `axum` listener.
- `tests/` runs the library against the real `bytes`, `dashmap`, `rand`, `tokio` and `webrtc`.

A message is the identifier of a stream, four bytes in network order, followed by the bytes that the
stream carries. Shorter messages are dropped. A client drops messages for streams that it has not
opened; a listener opens them.

Each open stream has a sender, the end of the pipe that its incoming bytes go into. `src/` gives the
senders numbers, none of them twice, and `app/` keeps the pipes by those numbers.
