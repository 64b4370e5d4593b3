use doip_codec::doip::header::header::{Header, HeaderError};
use doip_codec::doip::header::payload::payload::PayloadType;
use doip_codec::doip::wire::{be16, be16_bytes, be32, be32_bytes, take};

#[test]
fn header_new_fills_in_the_inverse_version() {
    let header = Header::new(0x02, PayloadType::DiagnosticMessage, 6);
    assert_eq!(
        header,
        Header {
            protocol_version: 0x02,
            inverse_protocol_version: 0xfd,
            payload_type: 0x8001,
            payload_length: 6,
        }
    );
    assert_eq!(Header::inverse(0x00), 0xff);
    assert_eq!(Header::inverse(0xff), 0x00);
    assert_eq!(Header::inverse(0x03), 0xfc);
}

#[test]
fn header_to_bytes() {
    let header = Header {
        protocol_version: 0x02,
        inverse_protocol_version: 0xfd,
        payload_type: 0x8001,
        payload_length: 0x0102_0304,
    };
    assert_eq!(
        header.to_bytes(),
        vec![0x02, 0xfd, 0x80, 0x01, 0x01, 0x02, 0x03, 0x04]
    );
}

#[test]
fn header_from_bytes() {
    let bytes = [0x02, 0xfd, 0x40, 0x02, 0x00, 0x00, 0x00, 0x03, 0xaa, 0xbb, 0xcc];
    assert_eq!(
        Header::from_bytes(&bytes),
        Ok(Header {
            protocol_version: 0x02,
            inverse_protocol_version: 0xfd,
            payload_type: 0x4002,
            payload_length: 3,
        })
    );
}

#[test]
fn header_round_trip() {
    for version in [0x01u8, 0x02, 0x03, 0xff] {
        for length in [0usize, 1, 7, 300] {
            let header = Header::new(version, PayloadType::GenericNack, length as u32);
            let mut bytes = header.to_bytes();
            bytes.extend(std::iter::repeat(0x5a).take(length));
            assert_eq!(Header::from_bytes(&bytes), Ok(header));
        }
    }
}

#[test]
fn header_too_short() {
    for len in 0..8usize {
        let bytes = [0x02, 0xfd, 0x00, 0x00, 0x00, 0x00, 0x00, 0x00];
        assert_eq!(
            Header::from_bytes(&bytes[..len]),
            Err(HeaderError::InvalidLength)
        );
    }
}

#[test]
fn header_wrong_inverse_version() {
    for inverse in 0u8..=255 {
        let bytes = [0x02, inverse, 0x00, 0x00, 0x00, 0x00, 0x00, 0x00];
        if inverse == 0xfd {
            assert!(Header::from_bytes(&bytes).is_ok());
        } else {
            assert_eq!(
                Header::from_bytes(&bytes),
                Err(HeaderError::InvalidInverseVersion)
            );
        }
    }
}

#[test]
fn header_payload_length_must_match_exactly() {
    let declared_two = [0x02, 0xfd, 0x00, 0x00, 0x00, 0x00, 0x00, 0x02];
    let mut bytes = declared_two.to_vec();
    assert_eq!(
        Header::from_bytes(&bytes),
        Err(HeaderError::InvalidPayloadLength)
    );
    bytes.push(0x00);
    assert_eq!(
        Header::from_bytes(&bytes),
        Err(HeaderError::InvalidPayloadLength)
    );
    bytes.push(0x00);
    assert!(Header::from_bytes(&bytes).is_ok());
    bytes.push(0x00);
    assert_eq!(
        Header::from_bytes(&bytes),
        Err(HeaderError::InvalidPayloadLength)
    );
}

#[test]
fn header_inverse_version_is_checked_before_the_length() {
    let bytes = [0x02, 0x02, 0x00, 0x00, 0xff, 0xff, 0xff, 0xff];
    assert_eq!(
        Header::from_bytes(&bytes),
        Err(HeaderError::InvalidInverseVersion)
    );
}

#[test]
fn big_endian_integers() {
    assert_eq!(be16(0x12, 0x34), 0x1234);
    assert_eq!(be16(0xff, 0xff), 0xffff);
    assert_eq!(be16_bytes(0x1234), [0x12, 0x34]);
    assert_eq!(be16_bytes(0x00ff), [0x00, 0xff]);
    assert_eq!(be32(0x12, 0x34, 0x56, 0x78), 0x1234_5678);
    assert_eq!(be32(0xff, 0xff, 0xff, 0xff), 0xffff_ffff);
    assert_eq!(be32_bytes(0x1234_5678), [0x12, 0x34, 0x56, 0x78]);
    assert_eq!(be32_bytes(0x0000_0100), [0x00, 0x00, 0x01, 0x00]);
    for value in [0u16, 1, 0x00ff, 0x0100, 0x8001, 0xffff] {
        assert_eq!(value.to_be_bytes(), be16_bytes(value));
        let [hi, lo] = be16_bytes(value);
        assert_eq!(be16(hi, lo), value);
    }
    for value in [0u32, 1, 0xff, 0x100, 0x0001_0000, 0x0100_0000, 0xdead_beef, 0xffff_ffff] {
        assert_eq!(value.to_be_bytes(), be32_bytes(value));
        let [b0, b1, b2, b3] = be32_bytes(value);
        assert_eq!(be32(b0, b1, b2, b3), value);
    }
}

#[test]
fn fields_cut_out_of_a_buffer() {
    let bytes = [0x00, 0x01, 0x02, 0x03, 0x04, 0x05];
    assert_eq!(take::<2>(&bytes, 0), Some([0x00, 0x01]));
    assert_eq!(take::<4>(&bytes, 2), Some([0x02, 0x03, 0x04, 0x05]));
    assert_eq!(take::<6>(&bytes, 0), Some(bytes));
    assert_eq!(take::<0>(&bytes, 6), Some([]));
    assert_eq!(take::<1>(&bytes, 6), None);
    assert_eq!(take::<4>(&bytes, 3), None);
    assert_eq!(take::<2>(&bytes, 7), None);
    assert_eq!(take::<2>(&bytes, usize::MAX), None);
}
