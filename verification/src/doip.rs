//! The DoIP protocol: field widths, byte-level helpers, the header with its
//! payloads, and the code tables with the message envelope.

pub mod definitions;
pub mod header;
pub mod message;
pub mod wire;
