use doip_codec::doip::header::payload::alive_check_response::AliveCheckResponseParseError;
use doip_codec::doip::header::payload::diagnostic_message::DiagnosticMessageError;
use doip_codec::doip::header::payload::diagnostic_message_ack::DiagnosticMessageAckError;
use doip_codec::doip::header::payload::diagnostic_message_nack::DiagnosticMessageNackParseError;
use doip_codec::doip::header::payload::entity_status_response::EntityStatusResponseError;
use doip_codec::doip::header::payload::generic_nack::GenericNackError;
use doip_codec::doip::header::payload::payload::{PayloadError, PayloadType};
use doip_codec::doip::header::payload::power_information_response::PowerInformationResponseError;
use doip_codec::doip::header::payload::routing_activation_request::RoutingActivationRequestError;
use doip_codec::doip::header::payload::routing_activation_response::RoutingActivationResponseError;
use doip_codec::doip::header::payload::vehicle_announcement_message::VehicleAnnouncementMessageError;
use doip_codec::doip::header::payload::vehicle_identification_request_eid::VehicleIdentificationRequestEidError;
use doip_codec::doip::header::payload::vehicle_identification_request_vin::VehicleIdentificationRequestVinError;
use doip_codec::doip::message::payload::Payload;

#[test]
fn every_kind_at_its_minimum_length() {
    let kinds = [
        (
            PayloadType::GenericNack,
            1,
            PayloadError::GenericNackError(GenericNackError::InvalidLength),
        ),
        (
            PayloadType::VehicleIdentificationRequestEid,
            6,
            PayloadError::VehicleIdentificationRequestEidError(
                VehicleIdentificationRequestEidError::InvalidLength,
            ),
        ),
        (
            PayloadType::VehicleIdentificationRequestVin,
            17,
            PayloadError::VehicleIdentificationRequestVinError(
                VehicleIdentificationRequestVinError::InvalidLength,
            ),
        ),
        (
            PayloadType::VehicleAnnouncementMessage,
            32,
            PayloadError::VehicleAnnouncementMessageError(
                VehicleAnnouncementMessageError::InvalidLength,
            ),
        ),
        (
            PayloadType::RoutingActivationRequest,
            7,
            PayloadError::RoutingActivationRequestError(
                RoutingActivationRequestError::InvalidLength,
            ),
        ),
        (
            PayloadType::RoutingActivationResponse,
            9,
            PayloadError::RoutingActivationResponseError(
                RoutingActivationResponseError::InvalidLength,
            ),
        ),
        (
            PayloadType::AliveCheckResponse,
            2,
            PayloadError::AliveCheckResponseParseError(AliveCheckResponseParseError::InvalidLength),
        ),
        (
            PayloadType::EntityStatusResponse,
            7,
            PayloadError::EntityStatusResponseError(EntityStatusResponseError::InvalidLength),
        ),
        (
            PayloadType::PowerInformationResponse,
            1,
            PayloadError::PowerInformationResponseError(
                PowerInformationResponseError::InvalidLength,
            ),
        ),
        (
            PayloadType::DiagnosticMessage,
            4,
            PayloadError::DiagnosticMessageError(DiagnosticMessageError::InvalidLength),
        ),
        (
            PayloadType::DiagnosticMessageAck,
            5,
            PayloadError::DiagnosticMessageAckError(DiagnosticMessageAckError::InvalidLength),
        ),
        (
            PayloadType::DiagnosticMessageNack,
            5,
            PayloadError::DiagnosticMessageNackParseError(
                DiagnosticMessageNackParseError::InvalidLength,
            ),
        ),
    ];
    for (payload_type, minimum, too_short) in kinds {
        // Every byte is 0xff: no code table defines it, and still the
        // length decides.
        let short = vec![0xff; minimum - 1];
        assert_eq!(Payload::from_bytes(payload_type, &short), Err(too_short));

        // 0x00 is defined in every code table.
        let exact = vec![0x00; minimum];
        let payload = Payload::from_bytes(payload_type, &exact).unwrap();
        assert_eq!(payload.payload_type(), payload_type);
        assert_eq!(payload.to_bytes(), exact);
    }
    for payload_type in [
        PayloadType::VehicleIdentificationRequest,
        PayloadType::AliveCheckRequest,
        PayloadType::EntityStatusRequest,
        PayloadType::PowerInformationRequest,
    ] {
        let payload = Payload::from_bytes(payload_type, &[]).unwrap();
        assert_eq!(payload.payload_type(), payload_type);
        assert_eq!(payload.to_bytes(), Vec::<u8>::new());
    }
}
