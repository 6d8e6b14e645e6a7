//! Reliable command / acknowledgement messaging between the two halves of a
//! split keyboard (and between the keyboard and a host) over a raw, lossy
//! byte stream.
//!
//! The crate is the protocol core: the frame codec, the checksum, the
//! envelope types with their wire format, the registry of in-flight commands
//! and the state machines of the sender and of the two stream processors.
//! It performs no I/O and keeps no time; the caller moves bytes, runs timers
//! and wakes tasks as the values returned here direct.

pub mod checksum;
pub mod frame;
pub mod accumulator;
pub mod wire;
pub mod messages;
pub mod envelope;
pub mod waiters;
pub mod inbound;
pub mod outbound;
pub mod sender;
pub mod wrapping_id;
pub mod leds;
