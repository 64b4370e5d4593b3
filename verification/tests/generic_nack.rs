use doip_codec::doip::header::payload::generic_nack::{GenericNack, GenericNackError};
use doip_codec::doip::header::payload::payload::{DoipPayload, PayloadError, PayloadType};
use doip_codec::doip::message::nack_codes::NackCodes;

const DEFAULT_NACK_CODE: NackCodes = NackCodes::IncorrectPatternFormat;

#[test]
fn generic_nack_test_payload_type() {
    let request = GenericNack {
        nack_code: DEFAULT_NACK_CODE,
    };
    assert_eq!(request.payload_type(), PayloadType::GenericNack);
}

#[test]
fn generic_nack_test_to_bytes() {
    let request = GenericNack {
        nack_code: DEFAULT_NACK_CODE,
    };
    assert_eq!(request.to_bytes(), vec![0x00]);
}

#[test]
fn generic_nack_test_from_bytes_too_short() {
    let request = vec![];
    let from_bytes = GenericNack::from_bytes(&request);

    assert!(
        from_bytes.is_err(),
        "Expected to receive an GenericNackError::InvalidLength."
    );

    let error = from_bytes.unwrap_err();

    assert_eq!(
        error,
        PayloadError::GenericNackError(GenericNackError::InvalidLength),
        "Unexpected error message: {:?}",
        error
    );
}

#[test]
fn generic_nack_test_from_bytes_invalid_nack_code() {
    let request = vec![0x05];
    let from_bytes = GenericNack::from_bytes(&request);

    assert!(
        from_bytes.is_err(),
        "Expected to receive an GenericNackError::InvalidNackCode."
    );

    let error = from_bytes.unwrap_err();

    assert_eq!(
        error,
        PayloadError::GenericNackError(GenericNackError::InvalidNackCode),
        "Unexpected error message: {:?}",
        error
    );
}

#[test]
fn generic_nack_test_from_bytes_ok() {
    let request = GenericNack {
        nack_code: DEFAULT_NACK_CODE,
    }
    .to_bytes();
    let from_bytes = GenericNack::from_bytes(&request);

    assert!(
        from_bytes.is_ok(),
        "Expected GenericNack, recieved an Error."
    );
}

#[test]
fn generic_nack_empty_illegal_and_legal_buffers() {
    assert_eq!(
        GenericNack::from_bytes(&[]),
        Err(PayloadError::GenericNackError(
            GenericNackError::InvalidLength
        ))
    );
    assert_eq!(
        GenericNack::from_bytes(&[0x05]),
        Err(PayloadError::GenericNackError(
            GenericNackError::InvalidNackCode
        ))
    );
    assert_eq!(
        GenericNack::from_bytes(&[0x00]),
        Ok(GenericNack {
            nack_code: NackCodes::IncorrectPatternFormat
        })
    );
}

#[test]
fn generic_nack_every_code_byte() {
    let legal = [
        NackCodes::IncorrectPatternFormat,
        NackCodes::UnknownPayloadType,
        NackCodes::MessageTooLarge,
        NackCodes::OutOfMemory,
        NackCodes::InvalidPayloadLength,
    ];
    for byte in 0u8..=255 {
        let decoded = GenericNack::from_bytes(&[byte]);
        if (byte as usize) < legal.len() {
            let nack = decoded.unwrap();
            assert_eq!(nack.nack_code, legal[byte as usize]);
            assert_eq!(nack.to_bytes(), vec![byte]);
        } else {
            assert_eq!(
                decoded,
                Err(PayloadError::GenericNackError(
                    GenericNackError::InvalidNackCode
                ))
            );
        }
    }
}

#[test]
fn generic_nack_reads_only_its_first_byte() {
    assert_eq!(
        GenericNack::from_bytes(&[0x02, 0xff, 0xff]),
        Ok(GenericNack {
            nack_code: NackCodes::MessageTooLarge
        })
    );
}
