use doip_codec::doip::header::payload::payload::{DoipPayload, PayloadError, PayloadType};

const TABLE: [(u16, PayloadType); 16] = [
    (0x0000, PayloadType::GenericNack),
    (0x0001, PayloadType::VehicleIdentificationRequest),
    (0x0002, PayloadType::VehicleIdentificationRequestEid),
    (0x0003, PayloadType::VehicleIdentificationRequestVin),
    (0x0004, PayloadType::VehicleAnnouncementMessage),
    (0x0005, PayloadType::RoutingActivationRequest),
    (0x0006, PayloadType::RoutingActivationResponse),
    (0x0007, PayloadType::AliveCheckRequest),
    (0x0008, PayloadType::AliveCheckResponse),
    (0x4001, PayloadType::EntityStatusRequest),
    (0x4002, PayloadType::EntityStatusResponse),
    (0x4003, PayloadType::PowerInformationRequest),
    (0x4004, PayloadType::PowerInformationResponse),
    (0x8001, PayloadType::DiagnosticMessage),
    (0x8002, PayloadType::DiagnosticMessageAck),
    (0x8003, PayloadType::DiagnosticMessageNack),
];

#[test]
fn payload_type_codes() {
    for (code, payload_type) in TABLE {
        assert_eq!(payload_type.code(), code);
        assert_eq!(PayloadType::from_code(code), Ok(payload_type));
    }
}

#[test]
fn payload_type_every_code() {
    for code in 0u16..=0xffff {
        let known = TABLE.iter().find(|(c, _)| *c == code).map(|(_, t)| *t);
        match known {
            Some(payload_type) => assert_eq!(PayloadType::from_code(code), Ok(payload_type)),
            None => assert_eq!(
                PayloadType::from_code(code),
                Err(PayloadError::InvalidPayloadType)
            ),
        }
    }
}

#[test]
fn payload_type_as_payload() {
    let payload_type = PayloadType::EntityStatusResponse;
    assert_eq!(payload_type.payload_type(), payload_type);
    assert_eq!(payload_type.to_bytes(), vec![0x40, 0x02]);
    assert_eq!(PayloadType::from_bytes(&[0x40, 0x02]), Ok(payload_type));
    assert_eq!(
        PayloadType::from_bytes(&[0x80, 0x03, 0xff]),
        Ok(PayloadType::DiagnosticMessageNack)
    );
    for (_, payload_type) in TABLE {
        assert_eq!(
            PayloadType::from_bytes(&payload_type.to_bytes()),
            Ok(payload_type)
        );
    }
}

#[test]
fn payload_type_from_bad_buffers() {
    assert_eq!(
        PayloadType::from_bytes(&[]),
        Err(PayloadError::InvalidPayloadType)
    );
    assert_eq!(
        PayloadType::from_bytes(&[0x00]),
        Err(PayloadError::InvalidPayloadType)
    );
    assert_eq!(
        PayloadType::from_bytes(&[0x00, 0x09]),
        Err(PayloadError::InvalidPayloadType)
    );
    assert_eq!(
        PayloadType::from_bytes(&[0x01, 0x00]),
        Err(PayloadError::InvalidPayloadType)
    );
}
