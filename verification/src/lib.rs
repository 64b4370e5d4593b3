//! A wire-format codec for Diagnostics over Internet Protocol (DoIP, ISO 13400).
//!
//! The crate turns DoIP headers and payloads into their byte sequences and
//! back. Every encoder and decoder carries a contract over a mathematical
//! model of the wire format, so that what a buffer decodes to, and when it is
//! rejected, is fixed for every input.

pub mod doip;
