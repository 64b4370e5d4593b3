use doip_codec::doip::header::payload::alive_check_request::AliveCheckRequest;
use doip_codec::doip::header::payload::payload::{DoipPayload, PayloadType};

#[test]
fn alive_check_request_test_payload_type() {
    let request = AliveCheckRequest {};
    assert_eq!(request.payload_type(), PayloadType::AliveCheckRequest);
}

#[test]
fn alive_check_request_test_to_bytes() {
    let request = AliveCheckRequest {};
    assert_eq!(request.to_bytes(), vec![]);
}

#[test]
fn alive_check_request_test_from_bytes_ok() {
    let bytes = AliveCheckRequest {}.to_bytes();
    let request = AliveCheckRequest::from_bytes(&bytes);

    assert!(
        request.is_ok(),
        "Expected AliveCheckRequest, recieved an Error."
    );
}

#[test]
fn alive_check_request_ignores_the_buffer() {
    assert_eq!(
        AliveCheckRequest::from_bytes(&[0xde, 0xad]),
        Ok(AliveCheckRequest {})
    );
}
