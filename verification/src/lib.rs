//! Verified core of a remote channel, object and trait calling library.
//!
//! The modules hold the data types, classification rules, wire encodings and
//! state machines of the library. Everything that waits for a network, a timer
//! or another task is driven from outside: the state machines say what to do
//! next and are told what came of it.

pub mod chmux;
pub mod codec;
pub mod rch;
pub mod remote_send;
pub mod rfn;
pub mod robj;
pub mod robs;
pub mod rtc;
pub mod text;
pub mod tracing;
pub mod util;
pub mod varint;
pub mod versioned;
pub mod wire;
