//! Payload type codes and field widths of the DoIP wire format.

use vstd::prelude::*;

verus! {

// Header fields.
pub const DOIP_VERSION_LEN: usize = 1;

pub const DOIP_INV_VERSION_LEN: usize = 1;

pub const DOIP_TYPE_LEN: usize = 2;

pub const DOIP_LENGTH_LEN: usize = 4;

pub const DOIP_HEADER_LEN: usize = DOIP_VERSION_LEN + DOIP_INV_VERSION_LEN + DOIP_TYPE_LEN
    + DOIP_LENGTH_LEN;

// Payload type codes.
pub const DOIP_GENERIC_NACK: u16 = 0x0000;

pub const DOIP_VEHICLE_IDENTIFICATION_REQ: u16 = 0x0001;

pub const DOIP_VEHICLE_IDENTIFICATION_REQ_EID: u16 = 0x0002;

pub const DOIP_VEHICLE_IDENTIFICATION_REQ_VIN: u16 = 0x0003;

pub const DOIP_VEHICLE_ANNOUNCEMENT_MESSAGE: u16 = 0x0004;

pub const DOIP_ROUTING_ACTIVATION_REQUEST: u16 = 0x0005;

pub const DOIP_ROUTING_ACTIVATION_RESPONSE: u16 = 0x0006;

pub const DOIP_ALIVE_CHECK_REQUEST: u16 = 0x0007;

pub const DOIP_ALIVE_CHECK_RESPONSE: u16 = 0x0008;

pub const DOIP_ENTITY_STATUS_REQUEST: u16 = 0x4001;

pub const DOIP_ENTITY_STATUS_RESPONSE: u16 = 0x4002;

pub const DOIP_POWER_INFORMATION_REQUEST: u16 = 0x4003;

pub const DOIP_POWER_INFORMATION_RESPONSE: u16 = 0x4004;

pub const DOIP_DIAGNOSTIC_MESSAGE: u16 = 0x8001;

pub const DOIP_DIAGNOSTIC_MESSAGE_ACK: u16 = 0x8002;

pub const DOIP_DIAGNOSTIC_MESSAGE_NACK: u16 = 0x8003;

// Fields shared by several payloads.
pub const DOIP_COMMON_VIN_LEN: usize = 17;

pub const DOIP_COMMON_EID_LEN: usize = 6;

pub const DOIP_DIAG_COMMON_SOURCE_LEN: usize = 2;

pub const DOIP_DIAG_COMMON_TARGET_LEN: usize = 2;

// Generic negative acknowledgement.
pub const DOIP_GENERIC_NACK_LEN: usize = 1;

// Vehicle announcement.
pub const DOIP_VEHICLE_ANNOUNCEMENT_GID_LEN: usize = 6;

pub const DOIP_VEHICLE_ANNOUNCEMENT_ACTION_LEN: usize = 1;

pub const DOIP_VEHICLE_ANNOUNCEMENT_SYNC_LEN: usize = 1;

// Routing activation request.
pub const DOIP_ROUTING_ACTIVATION_REQ_SRC_LEN: usize = 2;

pub const DOIP_ROUTING_ACTIVATION_REQ_TYPE_LEN: usize = 1;

pub const DOIP_ROUTING_ACTIVATION_REQ_ISO_LEN: usize = 4;

// Routing activation response.
pub const DOIP_ROUTING_ACTIVATION_RES_TESTER_LEN: usize = 2;

pub const DOIP_ROUTING_ACTIVATION_RES_ENTITY_LEN: usize = 2;

pub const DOIP_ROUTING_ACTIVATION_RES_CODE_LEN: usize = 1;

pub const DOIP_ROUTING_ACTIVATION_RES_ISO_LEN: usize = 4;

// Alive check response.
pub const DOIP_ALIVE_CHECK_RESPONSE_SOURCE_LEN: usize = 2;

// Entity status response.
pub const DOIP_ENTITY_STATUS_RESPONSE_NODE_LEN: usize = 1;

pub const DOIP_ENTITY_STATUS_RESPONSE_MCTS_LEN: usize = 1;

pub const DOIP_ENTITY_STATUS_RESPONSE_NCTS_LEN: usize = 1;

pub const DOIP_ENTITY_STATUS_RESPONSE_MDS_LEN: usize = 4;

// Power information response.
pub const DOIP_POWER_MODE_LEN: usize = 1;

// Diagnostic message acknowledgements.
pub const DOIP_DIAG_MESSAGE_ACK_CODE_LEN: usize = 1;

pub const DOIP_DIAG_MESSAGE_NACK_CODE_LEN: usize = 1;

} // verus!
