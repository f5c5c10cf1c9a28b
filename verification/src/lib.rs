//! A verified core for a small TCP echo/add message server.
//!
//! The library holds everything about the server that is pure logic: the
//! binary wire codec for the two message envelopes, the dispatch that turns
//! a decoded request into a response, the per-connection and accept-loop
//! decision functions, and the shared connection counter.  The sockets,
//! threads and sleeps that drive it live outside, in the application.

pub mod codec;
pub mod engine;
pub mod laws;
pub mod messages;
pub mod varint;
