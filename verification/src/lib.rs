//! A minimal TCP echo/add server, factored so that everything but the raw
//! socket calls is verified: the wire codec for the tagged request and
//! response messages, the per-connection handle cycle, and the listener's
//! control decisions.

pub mod codec;
pub mod control;
pub mod decode;
pub mod encode;
pub mod handler;
pub mod laws;
pub mod messages;
pub mod roundtrip;
pub mod varint;
