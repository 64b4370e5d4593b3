use doip_codec::doip::header::payload::alive_check_response::{
    AliveCheckResponse, AliveCheckResponseParseError,
};
use doip_codec::doip::header::payload::diagnostic_message_ack::{
    DiagnosticMessageAck, DiagnosticMessageAckError,
};
use doip_codec::doip::header::payload::entity_status_request::EntityStatusRequest;
use doip_codec::doip::header::payload::entity_status_response::{
    EntityStatusResponse, EntityStatusResponseError,
};
use doip_codec::doip::header::payload::payload::{DoipPayload, PayloadError, PayloadType};
use doip_codec::doip::header::payload::power_information_request::PowerInformationRequest;
use doip_codec::doip::header::payload::power_information_response::{
    PowerInformationResponse, PowerInformationResponseError,
};
use doip_codec::doip::header::payload::routing_activation_request::{
    RoutingActivationRequest, RoutingActivationRequestError,
};
use doip_codec::doip::header::payload::vehicle_identification_request::VehicleIdentificationRequest;
use doip_codec::doip::header::payload::vehicle_identification_request_eid::{
    VehicleIdentificationRequestEid, VehicleIdentificationRequestEidError,
};
use doip_codec::doip::header::payload::vehicle_identification_request_vin::{
    VehicleIdentificationRequestVin, VehicleIdentificationRequestVinError,
};
use doip_codec::doip::message::activation_type::ActivationType;
use doip_codec::doip::message::diagnostic_ack::DiagnosticAckCode;
use doip_codec::doip::message::node_type::NodeType;
use doip_codec::doip::message::power_mode::PowerMode;

#[test]
fn payloads_without_fields() {
    assert_eq!(EntityStatusRequest {}.to_bytes(), Vec::<u8>::new());
    assert_eq!(
        EntityStatusRequest {}.payload_type(),
        PayloadType::EntityStatusRequest
    );
    assert_eq!(
        EntityStatusRequest::from_bytes(&[]),
        Ok(EntityStatusRequest {})
    );
    assert_eq!(
        EntityStatusRequest::from_bytes(&[0x01, 0x02]),
        Ok(EntityStatusRequest {})
    );

    assert_eq!(VehicleIdentificationRequest {}.to_bytes(), Vec::<u8>::new());
    assert_eq!(
        VehicleIdentificationRequest {}.payload_type(),
        PayloadType::VehicleIdentificationRequest
    );
    assert_eq!(
        VehicleIdentificationRequest::from_bytes(&[]),
        Ok(VehicleIdentificationRequest {})
    );

    assert_eq!(PowerInformationRequest {}.to_bytes(), Vec::<u8>::new());
    assert_eq!(
        PowerInformationRequest {}.payload_type(),
        PayloadType::PowerInformationRequest
    );
    assert_eq!(
        PowerInformationRequest::from_bytes(&[0xff]),
        Ok(PowerInformationRequest {})
    );
}

#[test]
fn routing_activation_request_layout() {
    let request = RoutingActivationRequest {
        source_address: [0x0e, 0x80],
        activation_type: ActivationType::WwhObd,
        buffer: [0xa1, 0xa2, 0xa3, 0xa4],
    };
    assert_eq!(
        request.payload_type(),
        PayloadType::RoutingActivationRequest
    );
    let bytes = request.to_bytes();
    assert_eq!(bytes, vec![0x0e, 0x80, 0x01, 0xa1, 0xa2, 0xa3, 0xa4]);
    assert_eq!(RoutingActivationRequest::from_bytes(&bytes), Ok(request));
}

#[test]
fn routing_activation_request_boundaries() {
    let six = [0x0e, 0x80, 0x00, 0x00, 0x00, 0x00];
    assert_eq!(
        RoutingActivationRequest::from_bytes(&six),
        Err(PayloadError::RoutingActivationRequestError(
            RoutingActivationRequestError::InvalidLength
        ))
    );
    let types = [
        ActivationType::Default,
        ActivationType::WwhObd,
        ActivationType::CentralSecurity,
    ];
    for byte in 0u8..=255 {
        let bytes = [0x0e, 0x80, byte, 0x00, 0x01, 0x02, 0x03];
        let decoded = RoutingActivationRequest::from_bytes(&bytes);
        if byte <= 0x02 {
            assert_eq!(
                decoded,
                Ok(RoutingActivationRequest {
                    source_address: [0x0e, 0x80],
                    activation_type: types[byte as usize],
                    buffer: [0x00, 0x01, 0x02, 0x03],
                })
            );
        } else {
            assert_eq!(
                decoded,
                Err(PayloadError::RoutingActivationRequestError(
                    RoutingActivationRequestError::InvalidActivationType
                ))
            );
        }
    }
}

#[test]
fn alive_check_response_layout_and_boundaries() {
    let response = AliveCheckResponse {
        source_address: [0x0e, 0x80],
    };
    assert_eq!(response.payload_type(), PayloadType::AliveCheckResponse);
    assert_eq!(response.to_bytes(), vec![0x0e, 0x80]);
    assert_eq!(AliveCheckResponse::from_bytes(&[0x0e, 0x80]), Ok(response));
    assert_eq!(
        AliveCheckResponse::from_bytes(&[0x0e]),
        Err(PayloadError::AliveCheckResponseParseError(
            AliveCheckResponseParseError::InvalidLength
        ))
    );
}

#[test]
fn entity_status_response_layout() {
    let response = EntityStatusResponse {
        node_type: NodeType::DoipNode,
        max_concurrent_sockets: [0x08],
        currently_open_sockets: [0x03],
        max_data_size: [0x00, 0x00, 0x10, 0x00],
    };
    assert_eq!(response.payload_type(), PayloadType::EntityStatusResponse);
    let bytes = response.to_bytes();
    assert_eq!(bytes, vec![0x01, 0x08, 0x03, 0x00, 0x00, 0x10, 0x00]);
    assert_eq!(EntityStatusResponse::from_bytes(&bytes), Ok(response));
}

#[test]
fn entity_status_response_boundaries() {
    assert_eq!(
        EntityStatusResponse::from_bytes(&[0x00, 0x01, 0x01, 0x00, 0x00, 0x00]),
        Err(PayloadError::EntityStatusResponseError(
            EntityStatusResponseError::InvalidLength
        ))
    );
    for byte in 0u8..=255 {
        let bytes = [byte, 0x01, 0x01, 0x00, 0x00, 0x00, 0xff];
        let decoded = EntityStatusResponse::from_bytes(&bytes);
        if byte <= 0x01 {
            let response = decoded.unwrap();
            assert_eq!(
                response.node_type,
                if byte == 0 {
                    NodeType::DoipGateway
                } else {
                    NodeType::DoipNode
                }
            );
            assert_eq!(response.max_data_size, [0x00, 0x00, 0x00, 0xff]);
        } else {
            assert_eq!(
                decoded,
                Err(PayloadError::EntityStatusResponseError(
                    EntityStatusResponseError::InvalidNodeType
                ))
            );
        }
    }
}

#[test]
fn power_information_response_layout_and_boundaries() {
    let response = PowerInformationResponse {
        power_mode: PowerMode::Ready,
    };
    assert_eq!(
        response.payload_type(),
        PayloadType::PowerInformationResponse
    );
    assert_eq!(response.to_bytes(), vec![0x01]);
    assert_eq!(
        PowerInformationResponse::from_bytes(&[]),
        Err(PayloadError::PowerInformationResponseError(
            PowerInformationResponseError::InvalidLength
        ))
    );
    let modes = [PowerMode::NotReady, PowerMode::Ready, PowerMode::NotSupported];
    for byte in 0u8..=255 {
        let decoded = PowerInformationResponse::from_bytes(&[byte]);
        if byte <= 0x02 {
            assert_eq!(
                decoded,
                Ok(PowerInformationResponse {
                    power_mode: modes[byte as usize]
                })
            );
        } else {
            assert_eq!(
                decoded,
                Err(PayloadError::PowerInformationResponseError(
                    PowerInformationResponseError::InvalidPowerMode
                ))
            );
        }
    }
}

#[test]
fn diagnostic_message_ack_layout_and_boundaries() {
    let ack = DiagnosticMessageAck {
        source_address: [0x10, 0x01],
        target_address: [0x0e, 0x80],
        ack_code: DiagnosticAckCode::Acknowledged,
    };
    assert_eq!(ack.payload_type(), PayloadType::DiagnosticMessageAck);
    let bytes = ack.to_bytes();
    assert_eq!(bytes, vec![0x10, 0x01, 0x0e, 0x80, 0x00]);
    assert_eq!(DiagnosticMessageAck::from_bytes(&bytes), Ok(ack));
    assert_eq!(
        DiagnosticMessageAck::from_bytes(&[0x10, 0x01, 0x0e, 0x80]),
        Err(PayloadError::DiagnosticMessageAckError(
            DiagnosticMessageAckError::InvalidLength
        ))
    );
    for byte in 1u8..=255 {
        assert_eq!(
            DiagnosticMessageAck::from_bytes(&[0x10, 0x01, 0x0e, 0x80, byte]),
            Err(PayloadError::DiagnosticMessageAckError(
                DiagnosticMessageAckError::InvalidAckCode
            ))
        );
    }
}

#[test]
fn vehicle_identification_request_eid_layout_and_boundaries() {
    let request = VehicleIdentificationRequestEid {
        eid: [0x00, 0x1a, 0x37, 0xbf, 0xee, 0x74],
    };
    assert_eq!(
        request.payload_type(),
        PayloadType::VehicleIdentificationRequestEid
    );
    let bytes = request.to_bytes();
    assert_eq!(bytes, vec![0x00, 0x1a, 0x37, 0xbf, 0xee, 0x74]);
    assert_eq!(
        VehicleIdentificationRequestEid::from_bytes(&bytes),
        Ok(request)
    );
    assert_eq!(
        VehicleIdentificationRequestEid::from_bytes(&bytes[..5]),
        Err(PayloadError::VehicleIdentificationRequestEidError(
            VehicleIdentificationRequestEidError::InvalidLength
        ))
    );
}

#[test]
fn vehicle_identification_request_vin_layout_and_boundaries() {
    let request = VehicleIdentificationRequestVin {
        vin: *b"WAUZZZ8V9KA000001",
    };
    assert_eq!(
        request.payload_type(),
        PayloadType::VehicleIdentificationRequestVin
    );
    let bytes = request.to_bytes();
    assert_eq!(bytes, b"WAUZZZ8V9KA000001".to_vec());
    assert_eq!(
        VehicleIdentificationRequestVin::from_bytes(&bytes),
        Ok(request)
    );
    assert_eq!(
        VehicleIdentificationRequestVin::from_bytes(&bytes[..16]),
        Err(PayloadError::VehicleIdentificationRequestVinError(
            VehicleIdentificationRequestVinError::InvalidLength
        ))
    );
}
