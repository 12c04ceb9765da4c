//! Many byte streams over one WebRTC data channel.
//!
//! A client opens streams and a listener accepts them. Every message on the channel names the
//! stream that it belongs to ([`frame`]), and each side keeps a table of the streams that it has
//! open, by which it finds out where an incoming message goes ([`route`]).
//!
//! Nothing here waits. What takes waiting is up to the program: it sends messages and polls them
//! on their way, hears messages, fills the pipes that streams read from, and waits for streams to
//! be accepted and shut down. The functions here decide what to do next, by what came of it.

pub mod buffer;
pub mod client;
pub mod frame;
pub mod laws;
pub mod plumbing;
pub mod queue;
pub mod route;
pub mod server;
pub mod table;
pub mod util;
