//! The payload of a message as one type over all kinds, and the dispatch
//! from a payload type to the decoder of its kind.

use crate::doip::definitions::DOIP_VEHICLE_ANNOUNCEMENT_SYNC_LEN;
use crate::doip::header::payload::alive_check_request::AliveCheckRequest;
use crate::doip::header::payload::alive_check_response::AliveCheckResponse;
use crate::doip::header::payload::diagnostic_message::{DiagnosticMessage, DiagnosticMessageView};
use crate::doip::header::payload::diagnostic_message_ack::DiagnosticMessageAck;
use crate::doip::header::payload::diagnostic_message_nack::DiagnosticMessageNack;
use crate::doip::header::payload::entity_status_request::EntityStatusRequest;
use crate::doip::header::payload::entity_status_response::EntityStatusResponse;
use crate::doip::header::payload::generic_nack::GenericNack;
use crate::doip::header::payload::payload::{DoipPayload, PayloadError, PayloadType};
use crate::doip::header::payload::power_information_request::PowerInformationRequest;
use crate::doip::header::payload::power_information_response::PowerInformationResponse;
use crate::doip::header::payload::routing_activation_request::RoutingActivationRequest;
use crate::doip::header::payload::routing_activation_response::RoutingActivationResponse;
use crate::doip::header::payload::vehicle_announcement_message::VehicleAnnouncementMessage;
use crate::doip::header::payload::vehicle_identification_request::VehicleIdentificationRequest;
use crate::doip::header::payload::vehicle_identification_request_eid::VehicleIdentificationRequestEid;
use crate::doip::header::payload::vehicle_identification_request_vin::VehicleIdentificationRequestVin;
use crate::doip::message::action_code::ActionCode;
use crate::doip::message::activation_code::ActivationCode;
use crate::doip::message::activation_type::ActivationType;
use crate::doip::message::diagnostic_ack::DiagnosticAckCode;
use crate::doip::message::diagnostic_nack::DiagnosticNackCode;
use crate::doip::message::nack_codes::NackCodes;
use crate::doip::message::node_type::NodeType;
use crate::doip::message::power_mode::PowerMode;
use crate::doip::message::sync_status::SyncStatus;
use vstd::prelude::*;

verus! {

/// The payload of a message: one of the sixteen kinds, with its fields.
#[derive(Clone, Debug, PartialEq, Eq)]
pub enum Payload {
    /// A generic negative acknowledgement.
    GenericNack(GenericNack),
    /// A vehicle identification request.
    VehicleIdentificationRequest(VehicleIdentificationRequest),
    /// A vehicle identification request by EID.
    VehicleIdentificationRequestEid(VehicleIdentificationRequestEid),
    /// A vehicle identification request by VIN.
    VehicleIdentificationRequestVin(VehicleIdentificationRequestVin),
    /// A vehicle announcement message.
    VehicleAnnouncementMessage(VehicleAnnouncementMessage),
    /// A routing activation request.
    RoutingActivationRequest(RoutingActivationRequest),
    /// A routing activation response.
    RoutingActivationResponse(RoutingActivationResponse),
    /// An alive check request.
    AliveCheckRequest(AliveCheckRequest),
    /// An alive check response.
    AliveCheckResponse(AliveCheckResponse),
    /// An entity status request.
    EntityStatusRequest(EntityStatusRequest),
    /// An entity status response.
    EntityStatusResponse(EntityStatusResponse),
    /// A diagnostic power mode information request.
    PowerInformationRequest(PowerInformationRequest),
    /// A diagnostic power mode information response.
    PowerInformationResponse(PowerInformationResponse),
    /// A diagnostic message.
    DiagnosticMessage(DiagnosticMessage),
    /// A positive diagnostic message acknowledgement.
    DiagnosticMessageAck(DiagnosticMessageAck),
    /// A negative diagnostic message acknowledgement.
    DiagnosticMessageNack(DiagnosticMessageNack),
}

/// A payload as a mathematical value: each kind by its view.
pub enum PayloadView {
    /// A generic negative acknowledgement.
    GenericNack(GenericNack),
    /// A vehicle identification request.
    VehicleIdentificationRequest(VehicleIdentificationRequest),
    /// A vehicle identification request by EID.
    VehicleIdentificationRequestEid(VehicleIdentificationRequestEid),
    /// A vehicle identification request by VIN.
    VehicleIdentificationRequestVin(VehicleIdentificationRequestVin),
    /// A vehicle announcement message.
    VehicleAnnouncementMessage(VehicleAnnouncementMessage),
    /// A routing activation request.
    RoutingActivationRequest(RoutingActivationRequest),
    /// A routing activation response.
    RoutingActivationResponse(RoutingActivationResponse),
    /// An alive check request.
    AliveCheckRequest(AliveCheckRequest),
    /// An alive check response.
    AliveCheckResponse(AliveCheckResponse),
    /// An entity status request.
    EntityStatusRequest(EntityStatusRequest),
    /// An entity status response.
    EntityStatusResponse(EntityStatusResponse),
    /// A diagnostic power mode information request.
    PowerInformationRequest(PowerInformationRequest),
    /// A diagnostic power mode information response.
    PowerInformationResponse(PowerInformationResponse),
    /// A diagnostic message.
    DiagnosticMessage(DiagnosticMessageView),
    /// A positive diagnostic message acknowledgement.
    DiagnosticMessageAck(DiagnosticMessageAck),
    /// A negative diagnostic message acknowledgement.
    DiagnosticMessageNack(DiagnosticMessageNack),
}

impl View for Payload {
    type V = PayloadView;

    open spec fn view(&self) -> PayloadView {
        match self {
            Payload::GenericNack(payload) => PayloadView::GenericNack(payload@),
            Payload::VehicleIdentificationRequest(payload) => {
                PayloadView::VehicleIdentificationRequest(payload@)
            },
            Payload::VehicleIdentificationRequestEid(payload) => {
                PayloadView::VehicleIdentificationRequestEid(payload@)
            },
            Payload::VehicleIdentificationRequestVin(payload) => {
                PayloadView::VehicleIdentificationRequestVin(payload@)
            },
            Payload::VehicleAnnouncementMessage(payload) => {
                PayloadView::VehicleAnnouncementMessage(payload@)
            },
            Payload::RoutingActivationRequest(payload) => {
                PayloadView::RoutingActivationRequest(payload@)
            },
            Payload::RoutingActivationResponse(payload) => {
                PayloadView::RoutingActivationResponse(payload@)
            },
            Payload::AliveCheckRequest(payload) => PayloadView::AliveCheckRequest(payload@),
            Payload::AliveCheckResponse(payload) => PayloadView::AliveCheckResponse(payload@),
            Payload::EntityStatusRequest(payload) => PayloadView::EntityStatusRequest(payload@),
            Payload::EntityStatusResponse(payload) => PayloadView::EntityStatusResponse(payload@),
            Payload::PowerInformationRequest(payload) => {
                PayloadView::PowerInformationRequest(payload@)
            },
            Payload::PowerInformationResponse(payload) => {
                PayloadView::PowerInformationResponse(payload@)
            },
            Payload::DiagnosticMessage(payload) => PayloadView::DiagnosticMessage(payload@),
            Payload::DiagnosticMessageAck(payload) => PayloadView::DiagnosticMessageAck(payload@),
            Payload::DiagnosticMessageNack(payload) => PayloadView::DiagnosticMessageNack(payload@),
        }
    }
}

impl Payload {
    /// The payload type under which the payload is sent: the kind of the
    /// value that it carries.
    pub open spec fn kind(value: PayloadView) -> PayloadType {
        match value {
            PayloadView::GenericNack(payload) => GenericNack::kind(payload),
            PayloadView::VehicleIdentificationRequest(payload) => {
                VehicleIdentificationRequest::kind(payload)
            },
            PayloadView::VehicleIdentificationRequestEid(payload) => {
                VehicleIdentificationRequestEid::kind(payload)
            },
            PayloadView::VehicleIdentificationRequestVin(payload) => {
                VehicleIdentificationRequestVin::kind(payload)
            },
            PayloadView::VehicleAnnouncementMessage(payload) => {
                VehicleAnnouncementMessage::kind(payload)
            },
            PayloadView::RoutingActivationRequest(payload) => {
                RoutingActivationRequest::kind(payload)
            },
            PayloadView::RoutingActivationResponse(payload) => {
                RoutingActivationResponse::kind(payload)
            },
            PayloadView::AliveCheckRequest(payload) => AliveCheckRequest::kind(payload),
            PayloadView::AliveCheckResponse(payload) => AliveCheckResponse::kind(payload),
            PayloadView::EntityStatusRequest(payload) => EntityStatusRequest::kind(payload),
            PayloadView::EntityStatusResponse(payload) => EntityStatusResponse::kind(payload),
            PayloadView::PowerInformationRequest(payload) => PowerInformationRequest::kind(payload),
            PayloadView::PowerInformationResponse(payload) => {
                PowerInformationResponse::kind(payload)
            },
            PayloadView::DiagnosticMessage(payload) => DiagnosticMessage::kind(payload),
            PayloadView::DiagnosticMessageAck(payload) => DiagnosticMessageAck::kind(payload),
            PayloadView::DiagnosticMessageNack(payload) => DiagnosticMessageNack::kind(payload),
        }
    }

    /// The bytes of the payload: those of the value that it carries.
    pub open spec fn wire(value: PayloadView) -> Seq<u8> {
        match value {
            PayloadView::GenericNack(payload) => GenericNack::wire(payload),
            PayloadView::VehicleIdentificationRequest(payload) => {
                VehicleIdentificationRequest::wire(payload)
            },
            PayloadView::VehicleIdentificationRequestEid(payload) => {
                VehicleIdentificationRequestEid::wire(payload)
            },
            PayloadView::VehicleIdentificationRequestVin(payload) => {
                VehicleIdentificationRequestVin::wire(payload)
            },
            PayloadView::VehicleAnnouncementMessage(payload) => {
                VehicleAnnouncementMessage::wire(payload)
            },
            PayloadView::RoutingActivationRequest(payload) => {
                RoutingActivationRequest::wire(payload)
            },
            PayloadView::RoutingActivationResponse(payload) => {
                RoutingActivationResponse::wire(payload)
            },
            PayloadView::AliveCheckRequest(payload) => AliveCheckRequest::wire(payload),
            PayloadView::AliveCheckResponse(payload) => AliveCheckResponse::wire(payload),
            PayloadView::EntityStatusRequest(payload) => EntityStatusRequest::wire(payload),
            PayloadView::EntityStatusResponse(payload) => EntityStatusResponse::wire(payload),
            PayloadView::PowerInformationRequest(payload) => PowerInformationRequest::wire(payload),
            PayloadView::PowerInformationResponse(payload) => {
                PowerInformationResponse::wire(payload)
            },
            PayloadView::DiagnosticMessage(payload) => DiagnosticMessage::wire(payload),
            PayloadView::DiagnosticMessageAck(payload) => DiagnosticMessageAck::wire(payload),
            PayloadView::DiagnosticMessageNack(payload) => DiagnosticMessageNack::wire(payload),
        }
    }

    /// What a buffer decodes to when it is read as a payload of the type
    /// `payload_type`: the result of that kind's own decoder.
    pub open spec fn parse(payload_type: PayloadType, bytes: Seq<u8>) -> Result<
        PayloadView,
        PayloadError,
    > {
        match payload_type {
            PayloadType::GenericNack => match GenericNack::parse(bytes) {
                Ok(payload) => Ok(PayloadView::GenericNack(payload)),
                Err(error) => Err(error),
            },
            PayloadType::VehicleIdentificationRequest => {
                match VehicleIdentificationRequest::parse(bytes) {
                    Ok(payload) => Ok(PayloadView::VehicleIdentificationRequest(payload)),
                    Err(error) => Err(error),
                }
            },
            PayloadType::VehicleIdentificationRequestEid => {
                match VehicleIdentificationRequestEid::parse(bytes) {
                    Ok(payload) => Ok(PayloadView::VehicleIdentificationRequestEid(payload)),
                    Err(error) => Err(error),
                }
            },
            PayloadType::VehicleIdentificationRequestVin => {
                match VehicleIdentificationRequestVin::parse(bytes) {
                    Ok(payload) => Ok(PayloadView::VehicleIdentificationRequestVin(payload)),
                    Err(error) => Err(error),
                }
            },
            PayloadType::VehicleAnnouncementMessage => {
                match VehicleAnnouncementMessage::parse(bytes) {
                    Ok(payload) => Ok(PayloadView::VehicleAnnouncementMessage(payload)),
                    Err(error) => Err(error),
                }
            },
            PayloadType::RoutingActivationRequest => match RoutingActivationRequest::parse(bytes) {
                Ok(payload) => Ok(PayloadView::RoutingActivationRequest(payload)),
                Err(error) => Err(error),
            },
            PayloadType::RoutingActivationResponse => {
                match RoutingActivationResponse::parse(bytes) {
                    Ok(payload) => Ok(PayloadView::RoutingActivationResponse(payload)),
                    Err(error) => Err(error),
                }
            },
            PayloadType::AliveCheckRequest => match AliveCheckRequest::parse(bytes) {
                Ok(payload) => Ok(PayloadView::AliveCheckRequest(payload)),
                Err(error) => Err(error),
            },
            PayloadType::AliveCheckResponse => match AliveCheckResponse::parse(bytes) {
                Ok(payload) => Ok(PayloadView::AliveCheckResponse(payload)),
                Err(error) => Err(error),
            },
            PayloadType::EntityStatusRequest => match EntityStatusRequest::parse(bytes) {
                Ok(payload) => Ok(PayloadView::EntityStatusRequest(payload)),
                Err(error) => Err(error),
            },
            PayloadType::EntityStatusResponse => match EntityStatusResponse::parse(bytes) {
                Ok(payload) => Ok(PayloadView::EntityStatusResponse(payload)),
                Err(error) => Err(error),
            },
            PayloadType::PowerInformationRequest => match PowerInformationRequest::parse(bytes) {
                Ok(payload) => Ok(PayloadView::PowerInformationRequest(payload)),
                Err(error) => Err(error),
            },
            PayloadType::PowerInformationResponse => match PowerInformationResponse::parse(bytes) {
                Ok(payload) => Ok(PayloadView::PowerInformationResponse(payload)),
                Err(error) => Err(error),
            },
            PayloadType::DiagnosticMessage => match DiagnosticMessage::parse(bytes) {
                Ok(payload) => Ok(PayloadView::DiagnosticMessage(payload)),
                Err(error) => Err(error),
            },
            PayloadType::DiagnosticMessageAck => match DiagnosticMessageAck::parse(bytes) {
                Ok(payload) => Ok(PayloadView::DiagnosticMessageAck(payload)),
                Err(error) => Err(error),
            },
            PayloadType::DiagnosticMessageNack => match DiagnosticMessageNack::parse(bytes) {
                Ok(payload) => Ok(PayloadView::DiagnosticMessageNack(payload)),
                Err(error) => Err(error),
            },
        }
    }

    /// The number of bytes of the payload.
    pub open spec fn wire_len(value: PayloadView) -> nat {
        Self::wire(value).len()
    }

    /// The fewest bytes that hold a payload of the type `payload_type`.
    pub open spec fn min_length(payload_type: PayloadType) -> nat {
        match payload_type {
            PayloadType::GenericNack => GenericNack::MIN_LENGTH as nat,
            PayloadType::VehicleIdentificationRequest => {
                VehicleIdentificationRequest::MIN_LENGTH as nat
            },
            PayloadType::VehicleIdentificationRequestEid => {
                VehicleIdentificationRequestEid::MIN_LENGTH as nat
            },
            PayloadType::VehicleIdentificationRequestVin => {
                VehicleIdentificationRequestVin::MIN_LENGTH as nat
            },
            PayloadType::VehicleAnnouncementMessage => {
                VehicleAnnouncementMessage::MIN_LENGTH as nat
            },
            PayloadType::RoutingActivationRequest => RoutingActivationRequest::MIN_LENGTH as nat,
            PayloadType::RoutingActivationResponse => RoutingActivationResponse::MIN_LENGTH as nat,
            PayloadType::AliveCheckRequest => AliveCheckRequest::MIN_LENGTH as nat,
            PayloadType::AliveCheckResponse => AliveCheckResponse::MIN_LENGTH as nat,
            PayloadType::EntityStatusRequest => EntityStatusRequest::MIN_LENGTH as nat,
            PayloadType::EntityStatusResponse => EntityStatusResponse::MIN_LENGTH as nat,
            PayloadType::PowerInformationRequest => PowerInformationRequest::MIN_LENGTH as nat,
            PayloadType::PowerInformationResponse => PowerInformationResponse::MIN_LENGTH as nat,
            PayloadType::DiagnosticMessage => DiagnosticMessage::MIN_LENGTH as nat,
            PayloadType::DiagnosticMessageAck => DiagnosticMessageAck::MIN_LENGTH as nat,
            PayloadType::DiagnosticMessageNack => DiagnosticMessageNack::MIN_LENGTH as nat,
        }
    }

    /// Whether every code byte that a payload of the type `payload_type`
    /// has in `bytes` is defined by its code table. A payload without code
    /// fields has none to fail.
    pub open spec fn codes_defined(payload_type: PayloadType, bytes: Seq<u8>) -> bool {
        match payload_type {
            PayloadType::GenericNack => NackCodes::is_defined(bytes[0]),
            PayloadType::VehicleAnnouncementMessage => {
                &&& ActionCode::is_defined(bytes[31])
                &&& bytes.len() > VehicleAnnouncementMessage::MIN_LENGTH ==> SyncStatus::is_defined(
                    bytes[32],
                )
            },
            PayloadType::RoutingActivationRequest => ActivationType::is_defined(bytes[2]),
            PayloadType::RoutingActivationResponse => ActivationCode::is_defined(bytes[4]),
            PayloadType::EntityStatusResponse => NodeType::is_defined(bytes[0]),
            PayloadType::PowerInformationResponse => PowerMode::is_defined(bytes[0]),
            PayloadType::DiagnosticMessageAck => DiagnosticAckCode::is_defined(bytes[4]),
            PayloadType::DiagnosticMessageNack => DiagnosticNackCode::is_defined(bytes[4]),
            _ => true,
        }
    }

    /// Tells under which payload type the payload is sent.
    pub fn payload_type(&self) -> (payload_type: PayloadType)
        ensures
            payload_type == Self::kind(self@),
    {
        match self {
            Payload::GenericNack(payload) => payload.payload_type(),
            Payload::VehicleIdentificationRequest(payload) => payload.payload_type(),
            Payload::VehicleIdentificationRequestEid(payload) => payload.payload_type(),
            Payload::VehicleIdentificationRequestVin(payload) => payload.payload_type(),
            Payload::VehicleAnnouncementMessage(payload) => payload.payload_type(),
            Payload::RoutingActivationRequest(payload) => payload.payload_type(),
            Payload::RoutingActivationResponse(payload) => payload.payload_type(),
            Payload::AliveCheckRequest(payload) => payload.payload_type(),
            Payload::AliveCheckResponse(payload) => payload.payload_type(),
            Payload::EntityStatusRequest(payload) => payload.payload_type(),
            Payload::EntityStatusResponse(payload) => payload.payload_type(),
            Payload::PowerInformationRequest(payload) => payload.payload_type(),
            Payload::PowerInformationResponse(payload) => payload.payload_type(),
            Payload::DiagnosticMessage(payload) => payload.payload_type(),
            Payload::DiagnosticMessageAck(payload) => payload.payload_type(),
            Payload::DiagnosticMessageNack(payload) => payload.payload_type(),
        }
    }

    /// Encodes the payload.
    pub fn to_bytes(&self) -> (bytes: Vec<u8>)
        ensures
            bytes@ == Self::wire(self@),
    {
        match self {
            Payload::GenericNack(payload) => payload.to_bytes(),
            Payload::VehicleIdentificationRequest(payload) => payload.to_bytes(),
            Payload::VehicleIdentificationRequestEid(payload) => payload.to_bytes(),
            Payload::VehicleIdentificationRequestVin(payload) => payload.to_bytes(),
            Payload::VehicleAnnouncementMessage(payload) => payload.to_bytes(),
            Payload::RoutingActivationRequest(payload) => payload.to_bytes(),
            Payload::RoutingActivationResponse(payload) => payload.to_bytes(),
            Payload::AliveCheckRequest(payload) => payload.to_bytes(),
            Payload::AliveCheckResponse(payload) => payload.to_bytes(),
            Payload::EntityStatusRequest(payload) => payload.to_bytes(),
            Payload::EntityStatusResponse(payload) => payload.to_bytes(),
            Payload::PowerInformationRequest(payload) => payload.to_bytes(),
            Payload::PowerInformationResponse(payload) => payload.to_bytes(),
            Payload::DiagnosticMessage(payload) => payload.to_bytes(),
            Payload::DiagnosticMessageAck(payload) => payload.to_bytes(),
            Payload::DiagnosticMessageNack(payload) => payload.to_bytes(),
        }
    }

    /// Decodes a buffer as a payload of the type `payload_type`.
    pub fn from_bytes(payload_type: PayloadType, bytes: &[u8]) -> (result: Result<
        Payload,
        PayloadError,
    >)
        ensures
            match result {
                Ok(payload) => Self::parse(payload_type, bytes@) == Ok::<PayloadView, PayloadError>(
                    payload@,
                ),
                Err(error) => Self::parse(payload_type, bytes@) == Err::<PayloadView, PayloadError>(
                    error,
                ),
            },
    {
        match payload_type {
            PayloadType::GenericNack => match GenericNack::from_bytes(bytes) {
                Ok(payload) => Ok(Payload::GenericNack(payload)),
                Err(error) => Err(error),
            },
            PayloadType::VehicleIdentificationRequest => {
                match VehicleIdentificationRequest::from_bytes(bytes) {
                    Ok(payload) => Ok(Payload::VehicleIdentificationRequest(payload)),
                    Err(error) => Err(error),
                }
            },
            PayloadType::VehicleIdentificationRequestEid => {
                match VehicleIdentificationRequestEid::from_bytes(bytes) {
                    Ok(payload) => Ok(Payload::VehicleIdentificationRequestEid(payload)),
                    Err(error) => Err(error),
                }
            },
            PayloadType::VehicleIdentificationRequestVin => {
                match VehicleIdentificationRequestVin::from_bytes(bytes) {
                    Ok(payload) => Ok(Payload::VehicleIdentificationRequestVin(payload)),
                    Err(error) => Err(error),
                }
            },
            PayloadType::VehicleAnnouncementMessage => {
                match VehicleAnnouncementMessage::from_bytes(bytes) {
                    Ok(payload) => Ok(Payload::VehicleAnnouncementMessage(payload)),
                    Err(error) => Err(error),
                }
            },
            PayloadType::RoutingActivationRequest => {
                match RoutingActivationRequest::from_bytes(bytes) {
                    Ok(payload) => Ok(Payload::RoutingActivationRequest(payload)),
                    Err(error) => Err(error),
                }
            },
            PayloadType::RoutingActivationResponse => {
                match RoutingActivationResponse::from_bytes(bytes) {
                    Ok(payload) => Ok(Payload::RoutingActivationResponse(payload)),
                    Err(error) => Err(error),
                }
            },
            PayloadType::AliveCheckRequest => match AliveCheckRequest::from_bytes(bytes) {
                Ok(payload) => Ok(Payload::AliveCheckRequest(payload)),
                Err(error) => Err(error),
            },
            PayloadType::AliveCheckResponse => match AliveCheckResponse::from_bytes(bytes) {
                Ok(payload) => Ok(Payload::AliveCheckResponse(payload)),
                Err(error) => Err(error),
            },
            PayloadType::EntityStatusRequest => match EntityStatusRequest::from_bytes(bytes) {
                Ok(payload) => Ok(Payload::EntityStatusRequest(payload)),
                Err(error) => Err(error),
            },
            PayloadType::EntityStatusResponse => match EntityStatusResponse::from_bytes(bytes) {
                Ok(payload) => Ok(Payload::EntityStatusResponse(payload)),
                Err(error) => Err(error),
            },
            PayloadType::PowerInformationRequest => {
                match PowerInformationRequest::from_bytes(bytes) {
                    Ok(payload) => Ok(Payload::PowerInformationRequest(payload)),
                    Err(error) => Err(error),
                }
            },
            PayloadType::PowerInformationResponse => {
                match PowerInformationResponse::from_bytes(bytes) {
                    Ok(payload) => Ok(Payload::PowerInformationResponse(payload)),
                    Err(error) => Err(error),
                }
            },
            PayloadType::DiagnosticMessage => match DiagnosticMessage::from_bytes(bytes) {
                Ok(payload) => Ok(Payload::DiagnosticMessage(payload)),
                Err(error) => Err(error),
            },
            PayloadType::DiagnosticMessageAck => match DiagnosticMessageAck::from_bytes(bytes) {
                Ok(payload) => Ok(Payload::DiagnosticMessageAck(payload)),
                Err(error) => Err(error),
            },
            PayloadType::DiagnosticMessageNack => match DiagnosticMessageNack::from_bytes(bytes) {
                Ok(payload) => Ok(Payload::DiagnosticMessageNack(payload)),
                Err(error) => Err(error),
            },
        }
    }

    /// Measures the payload for the header's length field. The result is
    /// `None` where the payload has more bytes than the field can count.
    pub fn payload_length(&self) -> (length: Option<u32>)
        ensures
            match length {
                Some(length) => length == Self::wire_len(self@),
                None => Self::wire_len(self@) > u32::MAX,
            },
    {
        match self {
            Payload::GenericNack(_) => Some(GenericNack::MIN_LENGTH as u32),
            Payload::VehicleIdentificationRequest(_) => {
                Some(VehicleIdentificationRequest::MIN_LENGTH as u32)
            },
            Payload::VehicleIdentificationRequestEid(_) => {
                Some(VehicleIdentificationRequestEid::MIN_LENGTH as u32)
            },
            Payload::VehicleIdentificationRequestVin(_) => {
                Some(VehicleIdentificationRequestVin::MIN_LENGTH as u32)
            },
            Payload::VehicleAnnouncementMessage(payload) => match payload.vin_gid_sync {
                Some(_) => {
                    let length: usize = VehicleAnnouncementMessage::MIN_LENGTH
                        + DOIP_VEHICLE_ANNOUNCEMENT_SYNC_LEN;
                    Some(length as u32)
                },
                None => Some(VehicleAnnouncementMessage::MIN_LENGTH as u32),
            },
            Payload::RoutingActivationRequest(_) => {
                Some(RoutingActivationRequest::MIN_LENGTH as u32)
            },
            Payload::RoutingActivationResponse(_) => {
                Some(RoutingActivationResponse::MIN_LENGTH as u32)
            },
            Payload::AliveCheckRequest(_) => Some(AliveCheckRequest::MIN_LENGTH as u32),
            Payload::AliveCheckResponse(_) => Some(AliveCheckResponse::MIN_LENGTH as u32),
            Payload::EntityStatusRequest(_) => Some(EntityStatusRequest::MIN_LENGTH as u32),
            Payload::EntityStatusResponse(_) => Some(EntityStatusResponse::MIN_LENGTH as u32),
            Payload::PowerInformationRequest(_) => Some(PowerInformationRequest::MIN_LENGTH as u32),
            Payload::PowerInformationResponse(_) => {
                Some(PowerInformationResponse::MIN_LENGTH as u32)
            },
            Payload::DiagnosticMessage(payload) => {
                let data_length: usize = payload.message.len();
                if data_length > 0xFFFF_FFFF - DiagnosticMessage::MIN_LENGTH {
                    None
                } else {
                    Some((DiagnosticMessage::MIN_LENGTH + data_length) as u32)
                }
            },
            Payload::DiagnosticMessageAck(_) => Some(DiagnosticMessageAck::MIN_LENGTH as u32),
            Payload::DiagnosticMessageNack(_) => Some(DiagnosticMessageNack::MIN_LENGTH as u32),
        }
    }

    /// Decoding the bytes of a payload under its own payload type gives the
    /// payload back. This holds of every kind and of every value of it.
    pub proof fn lemma_round_trip(value: PayloadView)
        ensures
            Self::parse(Self::kind(value), Self::wire(value)) == Ok::<PayloadView, PayloadError>(
                value,
            ),
    {
        match value {
            PayloadView::GenericNack(payload) => GenericNack::lemma_round_trip(payload),
            PayloadView::VehicleIdentificationRequest(payload) => {
                VehicleIdentificationRequest::lemma_round_trip(payload)
            },
            PayloadView::VehicleIdentificationRequestEid(payload) => {
                VehicleIdentificationRequestEid::lemma_round_trip(payload)
            },
            PayloadView::VehicleIdentificationRequestVin(payload) => {
                VehicleIdentificationRequestVin::lemma_round_trip(payload)
            },
            PayloadView::VehicleAnnouncementMessage(payload) => {
                VehicleAnnouncementMessage::lemma_round_trip(payload)
            },
            PayloadView::RoutingActivationRequest(payload) => {
                RoutingActivationRequest::lemma_round_trip(payload)
            },
            PayloadView::RoutingActivationResponse(payload) => {
                RoutingActivationResponse::lemma_round_trip(payload)
            },
            PayloadView::AliveCheckRequest(payload) => AliveCheckRequest::lemma_round_trip(payload),
            PayloadView::AliveCheckResponse(payload) => {
                AliveCheckResponse::lemma_round_trip(payload)
            },
            PayloadView::EntityStatusRequest(payload) => {
                EntityStatusRequest::lemma_round_trip(payload)
            },
            PayloadView::EntityStatusResponse(payload) => {
                EntityStatusResponse::lemma_round_trip(payload)
            },
            PayloadView::PowerInformationRequest(payload) => {
                PowerInformationRequest::lemma_round_trip(payload)
            },
            PayloadView::PowerInformationResponse(payload) => {
                PowerInformationResponse::lemma_round_trip(payload)
            },
            PayloadView::DiagnosticMessage(payload) => DiagnosticMessage::lemma_round_trip(payload),
            PayloadView::DiagnosticMessageAck(payload) => {
                DiagnosticMessageAck::lemma_round_trip(payload)
            },
            PayloadView::DiagnosticMessageNack(payload) => {
                DiagnosticMessageNack::lemma_round_trip(payload)
            },
        }
    }

    /// What is decoded under a payload type is of that type, and was read
    /// off the front of the buffer.
    pub proof fn lemma_parsed_prefix(payload_type: PayloadType, bytes: Seq<u8>)
        ensures
            Self::parse(payload_type, bytes) matches Ok(value) ==> {
                &&& Self::kind(value) == payload_type
                &&& Self::wire(value).is_prefix_of(bytes)
            },
    {
        match payload_type {
            PayloadType::GenericNack => GenericNack::lemma_parsed_prefix(bytes),
            PayloadType::VehicleIdentificationRequest => {
                VehicleIdentificationRequest::lemma_parsed_prefix(bytes)
            },
            PayloadType::VehicleIdentificationRequestEid => {
                VehicleIdentificationRequestEid::lemma_parsed_prefix(bytes)
            },
            PayloadType::VehicleIdentificationRequestVin => {
                VehicleIdentificationRequestVin::lemma_parsed_prefix(bytes)
            },
            PayloadType::VehicleAnnouncementMessage => {
                VehicleAnnouncementMessage::lemma_parsed_prefix(bytes)
            },
            PayloadType::RoutingActivationRequest => {
                RoutingActivationRequest::lemma_parsed_prefix(bytes)
            },
            PayloadType::RoutingActivationResponse => {
                RoutingActivationResponse::lemma_parsed_prefix(bytes)
            },
            PayloadType::AliveCheckRequest => AliveCheckRequest::lemma_parsed_prefix(bytes),
            PayloadType::AliveCheckResponse => AliveCheckResponse::lemma_parsed_prefix(bytes),
            PayloadType::EntityStatusRequest => EntityStatusRequest::lemma_parsed_prefix(bytes),
            PayloadType::EntityStatusResponse => EntityStatusResponse::lemma_parsed_prefix(bytes),
            PayloadType::PowerInformationRequest => {
                PowerInformationRequest::lemma_parsed_prefix(bytes)
            },
            PayloadType::PowerInformationResponse => {
                PowerInformationResponse::lemma_parsed_prefix(bytes)
            },
            PayloadType::DiagnosticMessage => DiagnosticMessage::lemma_parsed_prefix(bytes),
            PayloadType::DiagnosticMessageAck => DiagnosticMessageAck::lemma_parsed_prefix(bytes),
            PayloadType::DiagnosticMessageNack => DiagnosticMessageNack::lemma_parsed_prefix(bytes),
        }
    }

    /// Two payloads of one kind with the same bytes are the same payload.
    pub proof fn lemma_wire_injective(first: PayloadView, second: PayloadView)
        requires
            Self::kind(first) == Self::kind(second),
            Self::wire(first) == Self::wire(second),
        ensures
            first == second,
    {
        Self::lemma_round_trip(first);
        Self::lemma_round_trip(second);
    }

    /// A buffer shorter than the fixed minimum of a kind is rejected for its
    /// length, whatever it holds: the length is checked before any field
    /// is read.
    pub proof fn lemma_too_short(payload_type: PayloadType, bytes: Seq<u8>)
        requires
            bytes.len() < Self::min_length(payload_type),
        ensures
            Self::parse(payload_type, bytes) matches Err(error) && error.is_invalid_length(),
    {
    }

    /// A buffer is accepted as a payload of a kind exactly when it holds
    /// the fixed minimum of that kind and defined bytes in its code fields.
    /// So a buffer of exactly the minimum with defined codes is accepted,
    /// and so is every longer one.
    pub proof fn lemma_accepted(payload_type: PayloadType, bytes: Seq<u8>)
        ensures
            Self::parse(payload_type, bytes) is Ok <==> {
                &&& bytes.len() >= Self::min_length(payload_type)
                &&& Self::codes_defined(payload_type, bytes)
            },
    {
    }

    /// A buffer that is long enough and holds an undefined byte in a code
    /// field is rejected for that code, never decoded to a default.
    pub proof fn lemma_undefined_code(payload_type: PayloadType, bytes: Seq<u8>)
        requires
            bytes.len() >= Self::min_length(payload_type),
            !Self::codes_defined(payload_type, bytes),
        ensures
            Self::parse(payload_type, bytes) matches Err(error) && error.is_invalid_code(),
    {
    }

    /// An error names the kind of payload that failed, and no buffer is
    /// rejected because a field reaches past its end: a buffer that is too
    /// short for its fields is rejected for its length.
    pub proof fn lemma_error(payload_type: PayloadType, bytes: Seq<u8>)
        ensures
            Self::parse(payload_type, bytes) matches Err(error) ==> {
                &&& error.kind() == Some(payload_type)
                &&& !error.is_invalid_index_range()
                &&& error.is_invalid_length() <==> bytes.len() < Self::min_length(payload_type)
            },
    {
    }
}

} // verus!
