use doip_codec::doip::header::payload::payload::{DoipPayload, PayloadError, PayloadType};
use doip_codec::doip::header::payload::routing_activation_response::{
    RoutingActivationResponse, RoutingActivationResponseError,
};
use doip_codec::doip::message::activation_code::ActivationCode;

const DEFAULT_LOGICAL_ADDRESS: [u8; 2] = [0x01, 0x02];
const DEFAULT_SOURCE_ADDRESS: [u8; 2] = [0x03, 0x04];
const DEFAULT_ACTIVATION_CODE: ActivationCode = ActivationCode::DeniedUnknownSourceAddress;
const DEFAULT_BUFFER: [u8; 4] = [0x01, 0x02, 0x03, 0x04];

#[test]
fn routing_activation_response_test_payload_type() {
    let request = RoutingActivationResponse {
        logical_address: DEFAULT_LOGICAL_ADDRESS,
        source_address: DEFAULT_SOURCE_ADDRESS,
        activation_code: DEFAULT_ACTIVATION_CODE,
        buffer: DEFAULT_BUFFER,
    };
    assert_eq!(
        request.payload_type(),
        PayloadType::RoutingActivationResponse
    );
}

#[test]
fn routing_activation_response_test_to_bytes() {
    let request = RoutingActivationResponse {
        logical_address: DEFAULT_LOGICAL_ADDRESS,
        source_address: DEFAULT_SOURCE_ADDRESS,
        activation_code: DEFAULT_ACTIVATION_CODE,
        buffer: DEFAULT_BUFFER,
    };
    assert_eq!(
        request.to_bytes(),
        vec![0x01, 0x02, 0x03, 0x04, 0x00, 0x01, 0x02, 0x03, 0x04]
    );
}

#[test]
fn routing_activation_response_test_from_bytes_too_short() {
    let request = vec![0x01, 0x02, 0x03];
    let from_bytes = RoutingActivationResponse::from_bytes(&request);

    assert!(
        from_bytes.is_err(),
        "Expected to receive an RoutingActivationResponseError::InvalidLength."
    );

    let error = from_bytes.unwrap_err();

    assert_eq!(
        error,
        PayloadError::RoutingActivationResponseError(
            RoutingActivationResponseError::InvalidLength
        ),
        "Unexpected error message: {:?}",
        error
    );
}

#[test]
fn test_from_bytes_invalid_ack_code() {
    let request = vec![0x01, 0x02, 0x03, 0x04, 0x12, 0x01, 0x02, 0x03, 0x04];
    let from_bytes = RoutingActivationResponse::from_bytes(&request);

    assert!(
        from_bytes.is_err(),
        "Expected to receive an RoutingActivationResponseError::InvalidActivationCode."
    );

    let error = from_bytes.unwrap_err();

    assert_eq!(
        error,
        PayloadError::RoutingActivationResponseError(
            RoutingActivationResponseError::InvalidActivationCode
        ),
        "Unexpected error message: {:?}",
        error
    );
}

#[test]
fn routing_activation_response_test_from_bytes_ok() {
    let request = RoutingActivationResponse {
        logical_address: DEFAULT_LOGICAL_ADDRESS,
        source_address: DEFAULT_SOURCE_ADDRESS,
        activation_code: DEFAULT_ACTIVATION_CODE,
        buffer: DEFAULT_BUFFER,
    }
    .to_bytes();
    let from_bytes = RoutingActivationResponse::from_bytes(&request);

    assert!(
        from_bytes.is_ok(),
        "Expected RoutingActivationResponse, recieved an Error."
    );
}

#[test]
fn routing_activation_response_boundaries() {
    let eight = [0x01, 0x02, 0x03, 0x04, 0x10, 0x00, 0x00, 0x00];
    assert_eq!(
        RoutingActivationResponse::from_bytes(&eight),
        Err(PayloadError::RoutingActivationResponseError(
            RoutingActivationResponseError::InvalidLength
        ))
    );
    for code in 0u8..=255 {
        let bytes = [0x0e, 0x80, 0x10, 0x01, code, 0xa1, 0xa2, 0xa3, 0xa4];
        let decoded = RoutingActivationResponse::from_bytes(&bytes);
        if code <= 0x11 {
            let response = decoded.unwrap();
            assert_eq!(response.logical_address, [0x0e, 0x80]);
            assert_eq!(response.source_address, [0x10, 0x01]);
            assert_eq!(response.activation_code.to_byte(), code);
            assert_eq!(response.buffer, [0xa1, 0xa2, 0xa3, 0xa4]);
            assert_eq!(response.to_bytes(), bytes.to_vec());
        } else {
            assert_eq!(
                decoded,
                Err(PayloadError::RoutingActivationResponseError(
                    RoutingActivationResponseError::InvalidActivationCode
                ))
            );
        }
    }
}

#[test]
fn routing_activation_response_decodes_named_codes() {
    let bytes = [0x0e, 0x80, 0x10, 0x01, 0x10, 0x00, 0x00, 0x00, 0x00];
    assert_eq!(
        RoutingActivationResponse::from_bytes(&bytes),
        Ok(RoutingActivationResponse {
            logical_address: [0x0e, 0x80],
            source_address: [0x10, 0x01],
            activation_code: ActivationCode::SuccessfullyActivated,
            buffer: [0x00; 4],
        })
    );
}
