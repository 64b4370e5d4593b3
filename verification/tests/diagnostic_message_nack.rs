use doip_codec::doip::header::payload::diagnostic_message_nack::{
    DiagnosticMessageNack, DiagnosticMessageNackParseError,
};
use doip_codec::doip::header::payload::payload::{DoipPayload, PayloadError, PayloadType};
use doip_codec::doip::message::diagnostic_nack::DiagnosticNackCode;

const DEFAULT_SOURCE_ADDRESS: [u8; 2] = [0x01, 0x02];
const DEFAULT_TARGET_ADDRESS: [u8; 2] = [0x03, 0x04];
const DEFAULT_NACK_CODE: DiagnosticNackCode = DiagnosticNackCode::ReservedByIso13400_00;

#[test]
fn diagnostic_message_nack_test_payload_type() {
    let request = DiagnosticMessageNack {
        source_address: DEFAULT_SOURCE_ADDRESS,
        target_address: DEFAULT_TARGET_ADDRESS,
        nack_code: DEFAULT_NACK_CODE,
    };
    assert_eq!(request.payload_type(), PayloadType::DiagnosticMessageNack);
}

#[test]
fn diagnostic_message_nack_test_to_bytes() {
    let request = DiagnosticMessageNack {
        source_address: DEFAULT_SOURCE_ADDRESS,
        target_address: DEFAULT_TARGET_ADDRESS,
        nack_code: DEFAULT_NACK_CODE,
    };
    assert_eq!(request.to_bytes(), vec![0x01, 0x02, 0x03, 0x04, 0x00]);
}

#[test]
fn diagnostic_message_nack_test_from_bytes_too_short() {
    let request = vec![0x01, 0x02, 0x03];
    let from_bytes = DiagnosticMessageNack::from_bytes(&request);

    assert!(
        from_bytes.is_err(),
        "Expected to receive an DiagnosticMessageNackParseError::InvalidLength."
    );

    let error = from_bytes.unwrap_err();

    assert_eq!(
        error,
        PayloadError::DiagnosticMessageNackParseError(
            DiagnosticMessageNackParseError::InvalidLength
        ),
        "Unexpected error message: {:?}",
        error
    );
}

#[test]
fn diagnostic_message_nack_test_from_bytes_invalid_nack_code() {
    let request = vec![0x01, 0x02, 0x03, 0x04, 0x09];
    let from_bytes = DiagnosticMessageNack::from_bytes(&request);

    assert!(
        from_bytes.is_err(),
        "Expected to receive an DiagnosticMessageNackParseError::InvalidAckCode."
    );

    let error = from_bytes.unwrap_err();

    assert_eq!(
        error,
        PayloadError::DiagnosticMessageNackParseError(
            DiagnosticMessageNackParseError::InvalidNackCode
        ),
        "Unexpected error message: {:?}",
        error
    );
}

#[test]
fn diagnostic_message_nack_test_from_bytes_ok() {
    let request = DiagnosticMessageNack {
        source_address: DEFAULT_SOURCE_ADDRESS,
        target_address: DEFAULT_TARGET_ADDRESS,
        nack_code: DEFAULT_NACK_CODE,
    }
    .to_bytes();
    let from_bytes = DiagnosticMessageNack::from_bytes(&request);

    assert!(
        from_bytes.is_ok(),
        "Expected DiagnosticMessageNack, recieved an Error."
    );
}

#[test]
fn diagnostic_message_nack_boundaries() {
    let short = [0x01, 0x02, 0x03, 0x04];
    assert_eq!(
        DiagnosticMessageNack::from_bytes(&short),
        Err(PayloadError::DiagnosticMessageNackParseError(
            DiagnosticMessageNackParseError::InvalidLength
        ))
    );
    for code in 0u8..=255 {
        let bytes = [0x0e, 0x80, 0x10, 0x01, code];
        let decoded = DiagnosticMessageNack::from_bytes(&bytes);
        if code <= 0x08 {
            let nack = decoded.unwrap();
            assert_eq!(nack.source_address, [0x0e, 0x80]);
            assert_eq!(nack.target_address, [0x10, 0x01]);
            assert_eq!(nack.nack_code.to_byte(), code);
            assert_eq!(nack.to_bytes(), bytes.to_vec());
        } else {
            assert_eq!(
                decoded,
                Err(PayloadError::DiagnosticMessageNackParseError(
                    DiagnosticMessageNackParseError::InvalidNackCode
                ))
            );
        }
    }
}

#[test]
fn diagnostic_message_nack_length_is_checked_before_the_code() {
    assert_eq!(
        DiagnosticMessageNack::from_bytes(&[0xff, 0xff, 0xff, 0xff]),
        Err(PayloadError::DiagnosticMessageNackParseError(
            DiagnosticMessageNackParseError::InvalidLength
        ))
    );
}
