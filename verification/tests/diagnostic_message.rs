use doip_codec::doip::header::payload::diagnostic_message::{
    DiagnosticMessage, DiagnosticMessageError,
};
use doip_codec::doip::header::payload::payload::{DoipPayload, PayloadError, PayloadType};

const DEFAULT_SOURCE_ADDRESS: [u8; 2] = [0x01, 0x02];
const DEFAULT_TARGET_ADDRESS: [u8; 2] = [0x03, 0x04];

#[test]
fn diagnostic_message_test_payload_type() {
    let request = DiagnosticMessage {
        source_address: DEFAULT_SOURCE_ADDRESS,
        target_address: DEFAULT_TARGET_ADDRESS,
        message: vec![0x05, 0x06, 0x07, 0x08],
    };
    assert_eq!(request.payload_type(), PayloadType::DiagnosticMessage);
}

#[test]
fn diagnostic_message_test_to_bytes() {
    let request = DiagnosticMessage {
        source_address: DEFAULT_SOURCE_ADDRESS,
        target_address: DEFAULT_TARGET_ADDRESS,
        message: vec![0x05, 0x06, 0x07, 0x08],
    };
    assert_eq!(
        request.to_bytes(),
        vec![0x01, 0x02, 0x03, 0x04, 0x05, 0x06, 0x07, 0x08]
    );
}

#[test]
fn diagnostic_message_test_from_bytes_too_short() {
    let request = vec![0x01, 0x02, 0x03];
    let from_bytes = DiagnosticMessage::from_bytes(&request);

    assert!(
        from_bytes.is_err(),
        "Expected to receive an DiagnosticMessage::InvalidLength."
    );

    let error = from_bytes.unwrap_err();

    assert_eq!(
        error,
        PayloadError::DiagnosticMessageError(DiagnosticMessageError::InvalidLength),
        "Unexpected error message: {:?}",
        error
    );
}

#[test]
fn diagnostic_message_test_from_bytes_ok() {
    let request = DiagnosticMessage {
        source_address: DEFAULT_SOURCE_ADDRESS,
        target_address: DEFAULT_TARGET_ADDRESS,
        message: vec![0x05, 0x06, 0x07, 0x08],
    }
    .to_bytes();
    let from_bytes = DiagnosticMessage::from_bytes(&request);

    assert!(
        from_bytes.is_ok(),
        "Expected DiagnosticMessage, recieved an Error."
    );
}

#[test]
fn diagnostic_message_decodes_to_the_encoded_value() {
    let message = DiagnosticMessage {
        source_address: [0x01, 0x02],
        target_address: [0x03, 0x04],
        message: vec![0x05, 0x06, 0x07, 0x08],
    };
    let bytes = message.to_bytes();
    assert_eq!(bytes, vec![0x01, 0x02, 0x03, 0x04, 0x05, 0x06, 0x07, 0x08]);
    assert_eq!(DiagnosticMessage::from_bytes(&bytes), Ok(message));
}

#[test]
fn diagnostic_message_with_no_data_has_four_bytes() {
    let message = DiagnosticMessage {
        source_address: [0x0e, 0x80],
        target_address: [0x10, 0x01],
        message: vec![],
    };
    let bytes = message.to_bytes();
    assert_eq!(bytes, vec![0x0e, 0x80, 0x10, 0x01]);
    assert_eq!(DiagnosticMessage::from_bytes(&bytes), Ok(message));
}

#[test]
fn diagnostic_message_keeps_every_byte_of_data() {
    let mut bytes = vec![0xaa, 0xbb, 0xcc, 0xdd];
    for i in 0..300u32 {
        bytes.push((i % 251) as u8);
    }
    let message = DiagnosticMessage::from_bytes(&bytes).unwrap();
    assert_eq!(message.source_address, [0xaa, 0xbb]);
    assert_eq!(message.target_address, [0xcc, 0xdd]);
    assert_eq!(message.message, bytes[4..].to_vec());
    assert_eq!(message.to_bytes(), bytes);
}

#[test]
fn diagnostic_message_rejects_every_buffer_under_four_bytes() {
    for len in 0..4usize {
        let bytes = vec![0x00; len];
        assert_eq!(
            DiagnosticMessage::from_bytes(&bytes),
            Err(PayloadError::DiagnosticMessageError(
                DiagnosticMessageError::InvalidLength
            ))
        );
    }
}
