//! Decoder for the messenger protocol of a distributed storage cluster, as it is seen in
//! captured network traffic.
//!
//! The protocol frames everything by a leading tag: a handshake of banner, endpoint
//! addresses and connect messages, then keepalives, acknowledgements and messages in
//! envelopes. Every structure of it has a reader and a writer, both held to a statement
//! of the layout over byte sequences ([`primitive::CephPrimitive`]); for the structures
//! whose values come back from their bytes this is proved
//! ([`primitive::RoundTrip`]). [`dissect::dissect_msgr`] tells what one captured buffer
//! holds.
//!
//! Integers are read by `nom` and written by `byteorder`. What is stated of these two,
//! of the UTF-8 check, of the UUID parser and of the clock is believed; all else is
//! proved.

pub mod error;
pub mod wire;
pub mod bytes;
pub mod primitive;
pub mod enums;
pub mod features;
pub mod list;
pub mod addr;
pub mod utime;
pub mod header;
pub mod handshake;
pub mod osd;
pub mod mon;
pub mod auth;
pub mod message;
pub mod envelope;
pub mod dissect;
pub mod frame;
pub mod sink;
