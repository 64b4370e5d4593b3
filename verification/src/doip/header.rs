//! The framing prefix of a DoIP message and the payloads that follow it.

pub mod header;
pub mod payload;
