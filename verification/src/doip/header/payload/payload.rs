//! The payload trait, the registry of payload types and the error that
//! every payload decoder reports.

use super::alive_check_response::AliveCheckResponseParseError;
use super::diagnostic_message::DiagnosticMessageError;
use super::diagnostic_message_ack::DiagnosticMessageAckError;
use super::diagnostic_message_nack::DiagnosticMessageNackParseError;
use super::entity_status_response::EntityStatusResponseError;
use super::generic_nack::GenericNackError;
use super::power_information_response::PowerInformationResponseError;
use super::routing_activation_request::RoutingActivationRequestError;
use super::routing_activation_response::RoutingActivationResponseError;
use super::vehicle_announcement_message::VehicleAnnouncementMessageError;
use super::vehicle_identification_request_eid::VehicleIdentificationRequestEidError;
use super::vehicle_identification_request_vin::VehicleIdentificationRequestVinError;
use crate::doip::definitions::{
    DOIP_ALIVE_CHECK_REQUEST, DOIP_ALIVE_CHECK_RESPONSE, DOIP_DIAGNOSTIC_MESSAGE,
    DOIP_DIAGNOSTIC_MESSAGE_ACK, DOIP_DIAGNOSTIC_MESSAGE_NACK, DOIP_ENTITY_STATUS_REQUEST,
    DOIP_ENTITY_STATUS_RESPONSE, DOIP_GENERIC_NACK, DOIP_POWER_INFORMATION_REQUEST,
    DOIP_POWER_INFORMATION_RESPONSE, DOIP_ROUTING_ACTIVATION_REQUEST,
    DOIP_ROUTING_ACTIVATION_RESPONSE, DOIP_TYPE_LEN, DOIP_VEHICLE_ANNOUNCEMENT_MESSAGE,
    DOIP_VEHICLE_IDENTIFICATION_REQ, DOIP_VEHICLE_IDENTIFICATION_REQ_EID,
    DOIP_VEHICLE_IDENTIFICATION_REQ_VIN,
};
use crate::doip::wire::{
    be16, be16_bytes, lemma_be16_bytes_of, lemma_be16_of_bytes, spec_be16, spec_be16_bytes,
};
use std::fmt::Debug;
use vstd::prelude::*;

verus! {

/// A value that travels as the payload of a DoIP message.
///
/// The wire format of an implementor is given by two functions over its
/// view: `wire`, the bytes of a value, and `parse`, what a buffer decodes to
/// or why it is rejected. The executable methods compute exactly these, and
/// every implementor proves that `parse` undoes `wire`.
pub trait DoipPayload: Sized + View + Debug + Send {
    /// The payload type under which the value is sent.
    spec fn kind(value: Self::V) -> PayloadType;

    /// The bytes of the value: its fields in declared order.
    spec fn wire(value: Self::V) -> Seq<u8>;

    /// The value that a buffer decodes to, or the reason why it holds none.
    spec fn parse(bytes: Seq<u8>) -> Result<Self::V, PayloadError>;

    /// Decoding the bytes of a value gives the value back.
    proof fn lemma_round_trip(value: Self::V)
        ensures
            Self::parse(Self::wire(value)) == Ok::<Self::V, PayloadError>(value),
    ;

    /// What is decoded was read off the front of the buffer: the bytes of
    /// the decoded value are a prefix of the buffer.
    proof fn lemma_parsed_prefix(bytes: Seq<u8>)
        ensures
            Self::parse(bytes) matches Ok(value) ==> Self::wire(value).is_prefix_of(bytes),
    ;

    /// Tells under which payload type the value is sent.
    fn payload_type(&self) -> (payload_type: PayloadType)
        ensures
            payload_type == Self::kind(self@),
    ;

    /// Encodes the value as a fresh byte sequence.
    fn to_bytes(&self) -> (bytes: Vec<u8>)
        ensures
            bytes@ == Self::wire(self@),
    ;

    /// Decodes a buffer. The length is checked before any field is read,
    /// and a byte that its code table does not define is an error, never a
    /// default. The result owns its bytes; the buffer can be reused at
    /// once.
    fn from_bytes(bytes: &[u8]) -> (result: Result<Self, PayloadError>)
        ensures
            match result {
                Ok(payload) => Self::parse(bytes@) == Ok::<Self::V, PayloadError>(payload@),
                Err(error) => Self::parse(bytes@) == Err::<Self::V, PayloadError>(error),
            },
    ;
}

/// Why a buffer could not be decoded as a payload: the payload kind that
/// failed together with its own cause, or a payload type that is not known.
#[derive(Copy, Clone, Debug, PartialEq, Eq)]
pub enum PayloadError {
    /// The buffer holds no alive check response.
    AliveCheckResponseParseError(AliveCheckResponseParseError),
    /// The buffer holds no negative diagnostic message acknowledgement.
    DiagnosticMessageNackParseError(DiagnosticMessageNackParseError),
    /// The buffer holds no diagnostic message acknowledgement.
    DiagnosticMessageAckError(DiagnosticMessageAckError),
    /// The buffer holds no diagnostic message.
    DiagnosticMessageError(DiagnosticMessageError),
    /// The buffer holds no entity status response.
    EntityStatusResponseError(EntityStatusResponseError),
    /// The buffer holds no generic negative acknowledgement.
    GenericNackError(GenericNackError),
    /// The buffer holds no power information response.
    PowerInformationResponseError(PowerInformationResponseError),
    /// The buffer holds no routing activation request.
    RoutingActivationRequestError(RoutingActivationRequestError),
    /// The buffer holds no routing activation response.
    RoutingActivationResponseError(RoutingActivationResponseError),
    /// The buffer holds no vehicle announcement message.
    VehicleAnnouncementMessageError(VehicleAnnouncementMessageError),
    /// The buffer holds no vehicle identification request by EID.
    VehicleIdentificationRequestEidError(VehicleIdentificationRequestEidError),
    /// The buffer holds no vehicle identification request by VIN.
    VehicleIdentificationRequestVinError(VehicleIdentificationRequestVinError),
    /// The payload type code belongs to no payload type.
    InvalidPayloadType,
}

impl PayloadError {
    /// The kind of payload that failed to decode, or `None` where the
    /// payload type itself was not known.
    pub open spec fn kind(self) -> Option<PayloadType> {
        match self {
            PayloadError::AliveCheckResponseParseError(_) => Some(PayloadType::AliveCheckResponse),
            PayloadError::DiagnosticMessageNackParseError(_) => {
                Some(PayloadType::DiagnosticMessageNack)
            },
            PayloadError::DiagnosticMessageAckError(_) => Some(PayloadType::DiagnosticMessageAck),
            PayloadError::DiagnosticMessageError(_) => Some(PayloadType::DiagnosticMessage),
            PayloadError::EntityStatusResponseError(_) => Some(PayloadType::EntityStatusResponse),
            PayloadError::GenericNackError(_) => Some(PayloadType::GenericNack),
            PayloadError::PowerInformationResponseError(_) => {
                Some(PayloadType::PowerInformationResponse)
            },
            PayloadError::RoutingActivationRequestError(_) => {
                Some(PayloadType::RoutingActivationRequest)
            },
            PayloadError::RoutingActivationResponseError(_) => {
                Some(PayloadType::RoutingActivationResponse)
            },
            PayloadError::VehicleAnnouncementMessageError(_) => {
                Some(PayloadType::VehicleAnnouncementMessage)
            },
            PayloadError::VehicleIdentificationRequestEidError(_) => {
                Some(PayloadType::VehicleIdentificationRequestEid)
            },
            PayloadError::VehicleIdentificationRequestVinError(_) => {
                Some(PayloadType::VehicleIdentificationRequestVin)
            },
            PayloadError::InvalidPayloadType => None,
        }
    }

    /// Whether the error says that the buffer is shorter than the payload.
    pub open spec fn is_invalid_length(self) -> bool {
        match self {
            PayloadError::AliveCheckResponseParseError(cause) => {
                cause == AliveCheckResponseParseError::InvalidLength
            },
            PayloadError::DiagnosticMessageNackParseError(cause) => {
                cause == DiagnosticMessageNackParseError::InvalidLength
            },
            PayloadError::DiagnosticMessageAckError(cause) => {
                cause == DiagnosticMessageAckError::InvalidLength
            },
            PayloadError::DiagnosticMessageError(cause) => {
                cause == DiagnosticMessageError::InvalidLength
            },
            PayloadError::EntityStatusResponseError(cause) => {
                cause == EntityStatusResponseError::InvalidLength
            },
            PayloadError::GenericNackError(cause) => cause == GenericNackError::InvalidLength,
            PayloadError::PowerInformationResponseError(cause) => {
                cause == PowerInformationResponseError::InvalidLength
            },
            PayloadError::RoutingActivationRequestError(cause) => {
                cause == RoutingActivationRequestError::InvalidLength
            },
            PayloadError::RoutingActivationResponseError(cause) => {
                cause == RoutingActivationResponseError::InvalidLength
            },
            PayloadError::VehicleAnnouncementMessageError(cause) => {
                cause == VehicleAnnouncementMessageError::InvalidLength
            },
            PayloadError::VehicleIdentificationRequestEidError(cause) => {
                cause == VehicleIdentificationRequestEidError::InvalidLength
            },
            PayloadError::VehicleIdentificationRequestVinError(cause) => {
                cause == VehicleIdentificationRequestVinError::InvalidLength
            },
            PayloadError::InvalidPayloadType => false,
        }
    }

    /// Whether the error says that a field reached past the end of the
    /// buffer.
    pub open spec fn is_invalid_index_range(self) -> bool {
        match self {
            PayloadError::AliveCheckResponseParseError(cause) => {
                cause == AliveCheckResponseParseError::InvalidIndexRange
            },
            PayloadError::DiagnosticMessageNackParseError(cause) => {
                cause == DiagnosticMessageNackParseError::InvalidIndexRange
            },
            PayloadError::DiagnosticMessageAckError(cause) => {
                cause == DiagnosticMessageAckError::InvalidIndexRange
            },
            PayloadError::DiagnosticMessageError(cause) => {
                cause == DiagnosticMessageError::InvalidIndexRange
            },
            PayloadError::EntityStatusResponseError(cause) => {
                cause == EntityStatusResponseError::InvalidIndexRange
            },
            PayloadError::GenericNackError(cause) => cause == GenericNackError::InvalidIndexRange,
            PayloadError::PowerInformationResponseError(cause) => {
                cause == PowerInformationResponseError::InvalidIndexRange
            },
            PayloadError::RoutingActivationRequestError(cause) => {
                cause == RoutingActivationRequestError::InvalidIndexRange
            },
            PayloadError::RoutingActivationResponseError(cause) => {
                cause == RoutingActivationResponseError::InvalidIndexRange
            },
            PayloadError::VehicleAnnouncementMessageError(cause) => {
                cause == VehicleAnnouncementMessageError::InvalidIndexRange
            },
            PayloadError::VehicleIdentificationRequestEidError(cause) => {
                cause == VehicleIdentificationRequestEidError::InvalidIndexRange
            },
            PayloadError::VehicleIdentificationRequestVinError(cause) => {
                cause == VehicleIdentificationRequestVinError::InvalidIndexRange
            },
            PayloadError::InvalidPayloadType => false,
        }
    }

    /// Whether the error is structural: the framing is malformed, whatever
    /// the bytes mean.
    pub open spec fn is_structural(self) -> bool {
        self.is_invalid_length() || self.is_invalid_index_range()
    }

    /// Whether the error is semantic: a field holds a byte that its code
    /// table does not define.
    pub open spec fn is_invalid_code(self) -> bool {
        match self {
            PayloadError::DiagnosticMessageNackParseError(cause) => {
                cause == DiagnosticMessageNackParseError::InvalidNackCode
            },
            PayloadError::DiagnosticMessageAckError(cause) => {
                cause == DiagnosticMessageAckError::InvalidAckCode
            },
            PayloadError::EntityStatusResponseError(cause) => {
                cause == EntityStatusResponseError::InvalidNodeType
            },
            PayloadError::GenericNackError(cause) => cause == GenericNackError::InvalidNackCode,
            PayloadError::PowerInformationResponseError(cause) => {
                cause == PowerInformationResponseError::InvalidPowerMode
            },
            PayloadError::RoutingActivationRequestError(cause) => {
                cause == RoutingActivationRequestError::InvalidActivationType
            },
            PayloadError::RoutingActivationResponseError(cause) => {
                cause == RoutingActivationResponseError::InvalidActivationCode
            },
            PayloadError::VehicleAnnouncementMessageError(cause) => {
                ||| cause == VehicleAnnouncementMessageError::InvalidActionCode
                ||| cause == VehicleAnnouncementMessageError::InvalidSyncStatus
            },
            _ => false,
        }
    }
}

/// The kinds of payload that a DoIP message carries. Each kind has one
/// 16-bit code in the header.
#[derive(Copy, Clone, Debug, PartialEq, Eq)]
pub enum PayloadType {
    /// Generic negative acknowledgement (`0x0000`).
    GenericNack,
    /// Vehicle identification request (`0x0001`).
    VehicleIdentificationRequest,
    /// Vehicle identification request by EID (`0x0002`).
    VehicleIdentificationRequestEid,
    /// Vehicle identification request by VIN (`0x0003`).
    VehicleIdentificationRequestVin,
    /// Vehicle announcement message and vehicle identification response (`0x0004`).
    VehicleAnnouncementMessage,
    /// Routing activation request (`0x0005`).
    RoutingActivationRequest,
    /// Routing activation response (`0x0006`).
    RoutingActivationResponse,
    /// Alive check request (`0x0007`).
    AliveCheckRequest,
    /// Alive check response (`0x0008`).
    AliveCheckResponse,
    /// Entity status request (`0x4001`).
    EntityStatusRequest,
    /// Entity status response (`0x4002`).
    EntityStatusResponse,
    /// Diagnostic power mode information request (`0x4003`).
    PowerInformationRequest,
    /// Diagnostic power mode information response (`0x4004`).
    PowerInformationResponse,
    /// Diagnostic message (`0x8001`).
    DiagnosticMessage,
    /// Positive diagnostic message acknowledgement (`0x8002`).
    DiagnosticMessageAck,
    /// Negative diagnostic message acknowledgement (`0x8003`).
    DiagnosticMessageNack,
}

impl PayloadType {
    /// The code of the payload type in the header.
    pub open spec fn spec_code(self) -> u16 {
        match self {
            PayloadType::GenericNack => DOIP_GENERIC_NACK,
            PayloadType::VehicleIdentificationRequest => DOIP_VEHICLE_IDENTIFICATION_REQ,
            PayloadType::VehicleIdentificationRequestEid => DOIP_VEHICLE_IDENTIFICATION_REQ_EID,
            PayloadType::VehicleIdentificationRequestVin => DOIP_VEHICLE_IDENTIFICATION_REQ_VIN,
            PayloadType::VehicleAnnouncementMessage => DOIP_VEHICLE_ANNOUNCEMENT_MESSAGE,
            PayloadType::RoutingActivationRequest => DOIP_ROUTING_ACTIVATION_REQUEST,
            PayloadType::RoutingActivationResponse => DOIP_ROUTING_ACTIVATION_RESPONSE,
            PayloadType::AliveCheckRequest => DOIP_ALIVE_CHECK_REQUEST,
            PayloadType::AliveCheckResponse => DOIP_ALIVE_CHECK_RESPONSE,
            PayloadType::EntityStatusRequest => DOIP_ENTITY_STATUS_REQUEST,
            PayloadType::EntityStatusResponse => DOIP_ENTITY_STATUS_RESPONSE,
            PayloadType::PowerInformationRequest => DOIP_POWER_INFORMATION_REQUEST,
            PayloadType::PowerInformationResponse => DOIP_POWER_INFORMATION_RESPONSE,
            PayloadType::DiagnosticMessage => DOIP_DIAGNOSTIC_MESSAGE,
            PayloadType::DiagnosticMessageAck => DOIP_DIAGNOSTIC_MESSAGE_ACK,
            PayloadType::DiagnosticMessageNack => DOIP_DIAGNOSTIC_MESSAGE_NACK,
        }
    }

    /// Whether a payload type has the code `code`.
    pub open spec fn is_defined(code: u16) -> bool {
        ||| code <= 0x0008
        ||| 0x4001 <= code <= 0x4004
        ||| 0x8001 <= code <= 0x8003
    }

    /// The payload type with the code `code`; a code that no payload type
    /// has gives `InvalidPayloadType`.
    pub open spec fn spec_from_code(code: u16) -> Result<PayloadType, PayloadError> {
        if code == DOIP_GENERIC_NACK {
            Ok(PayloadType::GenericNack)
        } else if code == DOIP_VEHICLE_IDENTIFICATION_REQ {
            Ok(PayloadType::VehicleIdentificationRequest)
        } else if code == DOIP_VEHICLE_IDENTIFICATION_REQ_EID {
            Ok(PayloadType::VehicleIdentificationRequestEid)
        } else if code == DOIP_VEHICLE_IDENTIFICATION_REQ_VIN {
            Ok(PayloadType::VehicleIdentificationRequestVin)
        } else if code == DOIP_VEHICLE_ANNOUNCEMENT_MESSAGE {
            Ok(PayloadType::VehicleAnnouncementMessage)
        } else if code == DOIP_ROUTING_ACTIVATION_REQUEST {
            Ok(PayloadType::RoutingActivationRequest)
        } else if code == DOIP_ROUTING_ACTIVATION_RESPONSE {
            Ok(PayloadType::RoutingActivationResponse)
        } else if code == DOIP_ALIVE_CHECK_REQUEST {
            Ok(PayloadType::AliveCheckRequest)
        } else if code == DOIP_ALIVE_CHECK_RESPONSE {
            Ok(PayloadType::AliveCheckResponse)
        } else if code == DOIP_ENTITY_STATUS_REQUEST {
            Ok(PayloadType::EntityStatusRequest)
        } else if code == DOIP_ENTITY_STATUS_RESPONSE {
            Ok(PayloadType::EntityStatusResponse)
        } else if code == DOIP_POWER_INFORMATION_REQUEST {
            Ok(PayloadType::PowerInformationRequest)
        } else if code == DOIP_POWER_INFORMATION_RESPONSE {
            Ok(PayloadType::PowerInformationResponse)
        } else if code == DOIP_DIAGNOSTIC_MESSAGE {
            Ok(PayloadType::DiagnosticMessage)
        } else if code == DOIP_DIAGNOSTIC_MESSAGE_ACK {
            Ok(PayloadType::DiagnosticMessageAck)
        } else if code == DOIP_DIAGNOSTIC_MESSAGE_NACK {
            Ok(PayloadType::DiagnosticMessageNack)
        } else {
            Err(PayloadError::InvalidPayloadType)
        }
    }

    /// Looks up the header code of the payload type.
    #[verifier::when_used_as_spec(spec_code)]
    pub fn code(self) -> (code: u16)
        ensures
            code == self.spec_code(),
    {
        match self {
            PayloadType::GenericNack => DOIP_GENERIC_NACK,
            PayloadType::VehicleIdentificationRequest => DOIP_VEHICLE_IDENTIFICATION_REQ,
            PayloadType::VehicleIdentificationRequestEid => DOIP_VEHICLE_IDENTIFICATION_REQ_EID,
            PayloadType::VehicleIdentificationRequestVin => DOIP_VEHICLE_IDENTIFICATION_REQ_VIN,
            PayloadType::VehicleAnnouncementMessage => DOIP_VEHICLE_ANNOUNCEMENT_MESSAGE,
            PayloadType::RoutingActivationRequest => DOIP_ROUTING_ACTIVATION_REQUEST,
            PayloadType::RoutingActivationResponse => DOIP_ROUTING_ACTIVATION_RESPONSE,
            PayloadType::AliveCheckRequest => DOIP_ALIVE_CHECK_REQUEST,
            PayloadType::AliveCheckResponse => DOIP_ALIVE_CHECK_RESPONSE,
            PayloadType::EntityStatusRequest => DOIP_ENTITY_STATUS_REQUEST,
            PayloadType::EntityStatusResponse => DOIP_ENTITY_STATUS_RESPONSE,
            PayloadType::PowerInformationRequest => DOIP_POWER_INFORMATION_REQUEST,
            PayloadType::PowerInformationResponse => DOIP_POWER_INFORMATION_RESPONSE,
            PayloadType::DiagnosticMessage => DOIP_DIAGNOSTIC_MESSAGE,
            PayloadType::DiagnosticMessageAck => DOIP_DIAGNOSTIC_MESSAGE_ACK,
            PayloadType::DiagnosticMessageNack => DOIP_DIAGNOSTIC_MESSAGE_NACK,
        }
    }

    /// Resolves a header code to its payload type.
    #[verifier::when_used_as_spec(spec_from_code)]
    pub fn from_code(code: u16) -> (result: Result<PayloadType, PayloadError>)
        ensures
            result == Self::spec_from_code(code),
    {
        match code {
            DOIP_GENERIC_NACK => Ok(PayloadType::GenericNack),
            DOIP_VEHICLE_IDENTIFICATION_REQ => Ok(PayloadType::VehicleIdentificationRequest),
            DOIP_VEHICLE_IDENTIFICATION_REQ_EID => Ok(PayloadType::VehicleIdentificationRequestEid),
            DOIP_VEHICLE_IDENTIFICATION_REQ_VIN => Ok(PayloadType::VehicleIdentificationRequestVin),
            DOIP_VEHICLE_ANNOUNCEMENT_MESSAGE => Ok(PayloadType::VehicleAnnouncementMessage),
            DOIP_ROUTING_ACTIVATION_REQUEST => Ok(PayloadType::RoutingActivationRequest),
            DOIP_ROUTING_ACTIVATION_RESPONSE => Ok(PayloadType::RoutingActivationResponse),
            DOIP_ALIVE_CHECK_REQUEST => Ok(PayloadType::AliveCheckRequest),
            DOIP_ALIVE_CHECK_RESPONSE => Ok(PayloadType::AliveCheckResponse),
            DOIP_ENTITY_STATUS_REQUEST => Ok(PayloadType::EntityStatusRequest),
            DOIP_ENTITY_STATUS_RESPONSE => Ok(PayloadType::EntityStatusResponse),
            DOIP_POWER_INFORMATION_REQUEST => Ok(PayloadType::PowerInformationRequest),
            DOIP_POWER_INFORMATION_RESPONSE => Ok(PayloadType::PowerInformationResponse),
            DOIP_DIAGNOSTIC_MESSAGE => Ok(PayloadType::DiagnosticMessage),
            DOIP_DIAGNOSTIC_MESSAGE_ACK => Ok(PayloadType::DiagnosticMessageAck),
            DOIP_DIAGNOSTIC_MESSAGE_NACK => Ok(PayloadType::DiagnosticMessageNack),
            _ => Err(PayloadError::InvalidPayloadType),
        }
    }

    /// Every payload type has a defined code and is found again under it.
    pub proof fn lemma_code_round_trip(self)
        ensures
            Self::is_defined(self.code()),
            Self::from_code(self.code()) == Ok::<PayloadType, PayloadError>(self),
    {
    }

    /// A code resolves exactly when it is defined, and then to the one
    /// payload type that has it; every other code gives
    /// `InvalidPayloadType`.
    pub proof fn lemma_from_code(code: u16)
        ensures
            Self::from_code(code) is Ok <==> Self::is_defined(code),
            Self::from_code(code) matches Ok(payload_type) ==> payload_type.code() == code,
            !Self::is_defined(code) ==> Self::from_code(code) == Err::<PayloadType, PayloadError>(
                PayloadError::InvalidPayloadType,
            ),
    {
    }
}

impl View for PayloadType {
    type V = PayloadType;

    open spec fn view(&self) -> PayloadType {
        *self
    }
}

/// A payload type travels as its code, two bytes in big-endian order.
impl DoipPayload for PayloadType {
    open spec fn kind(value: PayloadType) -> PayloadType {
        value
    }

    open spec fn wire(value: PayloadType) -> Seq<u8> {
        spec_be16_bytes(value.code())
    }

    /// A buffer that is too short to hold a code names no payload type.
    open spec fn parse(bytes: Seq<u8>) -> Result<PayloadType, PayloadError> {
        if bytes.len() < DOIP_TYPE_LEN {
            Err(PayloadError::InvalidPayloadType)
        } else {
            PayloadType::from_code(spec_be16(bytes[0], bytes[1]))
        }
    }

    proof fn lemma_round_trip(value: PayloadType) {
        lemma_be16_of_bytes(value.code());
    }

    proof fn lemma_parsed_prefix(bytes: Seq<u8>) {
        if let Ok(value) = Self::parse(bytes) {
            lemma_be16_bytes_of(bytes[0], bytes[1]);
            assert(Self::wire(value) =~= bytes.subrange(0, 2));
        }
    }

    fn payload_type(&self) -> (payload_type: PayloadType) {
        *self
    }

    fn to_bytes(&self) -> (bytes: Vec<u8>) {
        let code = be16_bytes(self.code());
        let mut bytes: Vec<u8> = Vec::new();
        bytes.extend_from_slice(&code);
        bytes
    }

    fn from_bytes(bytes: &[u8]) -> (result: Result<PayloadType, PayloadError>) {
        if bytes.len() < DOIP_TYPE_LEN {
            return Err(PayloadError::InvalidPayloadType);
        }
        PayloadType::from_code(be16(bytes[0], bytes[1]))
    }
}

} // verus!
