//! The code tables of the protocol and the message envelope.

pub mod action_code;
pub mod activation_code;
pub mod activation_type;
pub mod diagnostic_ack;
pub mod diagnostic_nack;
pub mod message;
pub mod nack_codes;
pub mod node_type;
pub mod payload;
pub mod power_mode;
pub mod sync_status;
