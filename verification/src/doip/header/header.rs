//! The header of a DoIP message: protocol version, inverse protocol
//! version, payload type and payload length, eight bytes in all.

use crate::doip::definitions::{
    DOIP_HEADER_LEN, DOIP_INV_VERSION_LEN, DOIP_TYPE_LEN, DOIP_VERSION_LEN,
};
use crate::doip::header::payload::payload::PayloadType;
use crate::doip::wire::{
    be16, be16_bytes, be32, be32_bytes, lemma_be16_bytes_of, lemma_be16_of_bytes,
    lemma_be32_bytes_of, lemma_be32_of_bytes, spec_be16, spec_be16_bytes, spec_be32,
    spec_be32_bytes,
};
use vstd::prelude::*;

verus! {

/// The fields that precede every payload.
#[derive(Copy, Clone, Debug, PartialEq, Eq)]
pub struct Header {
    /// The version of the protocol.
    pub protocol_version: u8,
    /// The bitwise complement of the version, sent to detect corruption.
    pub inverse_protocol_version: u8,
    /// The code of the payload type. Any code can stand in a header; the
    /// registry of payload types decides whether it is known.
    pub payload_type: u16,
    /// The number of payload bytes that follow the header.
    pub payload_length: u32,
}

/// Why a buffer does not start with the header of the message it holds.
#[derive(Copy, Clone, Debug, PartialEq, Eq)]
pub enum HeaderError {
    /// The buffer is shorter than a header.
    InvalidLength,
    /// The second byte is not the bitwise complement of the first.
    InvalidInverseVersion,
    /// The payload length is not the number of bytes that follow the
    /// header.
    InvalidPayloadLength,
}

impl Header {
    /// The inverse of a protocol version: its bitwise complement.
    pub open spec fn spec_inverse(protocol_version: u8) -> u8 {
        !protocol_version
    }

    /// Whether the header is the right one in front of `payload_len` bytes
    /// of payload: its inverse version is the complement of its version
    /// and its payload length is `payload_len`.
    pub open spec fn frames(self, payload_len: nat) -> bool {
        &&& self.inverse_protocol_version == Self::spec_inverse(self.protocol_version)
        &&& self.payload_length == payload_len
    }

    /// The eight bytes of the header; the integers are big-endian.
    pub open spec fn wire(self) -> Seq<u8> {
        seq![self.protocol_version, self.inverse_protocol_version] + spec_be16_bytes(
            self.payload_type,
        ) + spec_be32_bytes(self.payload_length)
    }

    /// The header of the message that fills the buffer `bytes`, or the
    /// reason why `bytes` is no such message. The checks come in this
    /// order: enough bytes for a header, the inverse version, and the
    /// payload length, which has to be the exact number of bytes after the
    /// header.
    pub open spec fn parse(bytes: Seq<u8>) -> Result<Header, HeaderError> {
        if bytes.len() < DOIP_HEADER_LEN {
            Err(HeaderError::InvalidLength)
        } else if bytes[1] != Self::spec_inverse(bytes[0]) {
            Err(HeaderError::InvalidInverseVersion)
        } else if spec_be32(bytes[4], bytes[5], bytes[6], bytes[7]) != bytes.len()
            - DOIP_HEADER_LEN {
            Err(HeaderError::InvalidPayloadLength)
        } else {
            Ok(
                Header {
                    protocol_version: bytes[0],
                    inverse_protocol_version: bytes[1],
                    payload_type: spec_be16(bytes[2], bytes[3]),
                    payload_length: spec_be32(bytes[4], bytes[5], bytes[6], bytes[7]),
                },
            )
        }
    }

    /// Computes the inverse of a protocol version.
    #[verifier::when_used_as_spec(spec_inverse)]
    pub fn inverse(protocol_version: u8) -> (inverse: u8)
        ensures
            inverse == Self::spec_inverse(protocol_version),
    {
        !protocol_version
    }

    /// Makes the header for a payload of the given type and length.
    pub fn new(protocol_version: u8, payload_type: PayloadType, payload_length: u32) -> (header:
        Header)
        ensures
            header == (Header {
                protocol_version,
                inverse_protocol_version: Self::spec_inverse(protocol_version),
                payload_type: payload_type.code(),
                payload_length,
            }),
            header.frames(payload_length as nat),
    {
        Header {
            protocol_version,
            inverse_protocol_version: Self::inverse(protocol_version),
            payload_type: payload_type.code(),
            payload_length,
        }
    }

    /// Encodes the header as its eight bytes.
    pub fn to_bytes(&self) -> (bytes: Vec<u8>)
        ensures
            bytes@ == self.wire(),
    {
        let mut bytes: Vec<u8> = Vec::new();

        bytes.push(self.protocol_version);
        bytes.push(self.inverse_protocol_version);
        bytes.extend_from_slice(&be16_bytes(self.payload_type));
        bytes.extend_from_slice(&be32_bytes(self.payload_length));

        assert(bytes@ =~= self.wire());
        bytes
    }

    /// Decodes the header of the message that fills `bytes`: the header
    /// and, after it, exactly as many payload bytes as the header says.
    pub fn from_bytes(bytes: &[u8]) -> (result: Result<Header, HeaderError>)
        ensures
            result == Self::parse(bytes@),
    {
        if bytes.len() < DOIP_HEADER_LEN {
            return Err(HeaderError::InvalidLength);
        }

        let version_offset: usize = 0;
        let protocol_version: u8 = bytes[version_offset];

        let inverse_version_offset: usize = version_offset + DOIP_VERSION_LEN;
        let inverse_protocol_version: u8 = bytes[inverse_version_offset];
        if inverse_protocol_version != Self::inverse(protocol_version) {
            return Err(HeaderError::InvalidInverseVersion);
        }

        let type_offset: usize = inverse_version_offset + DOIP_INV_VERSION_LEN;
        let payload_type: u16 = be16(bytes[type_offset], bytes[type_offset + 1]);

        let length_offset: usize = type_offset + DOIP_TYPE_LEN;
        let payload_length: u32 = be32(
            bytes[length_offset],
            bytes[length_offset + 1],
            bytes[length_offset + 2],
            bytes[length_offset + 3],
        );
        if payload_length as usize != bytes.len() - DOIP_HEADER_LEN {
            return Err(HeaderError::InvalidPayloadLength);
        }

        Ok(Header { protocol_version, inverse_protocol_version, payload_type, payload_length })
    }

    /// The inverse of a version is the version subtracted from `0xFF`, and
    /// the inverse of the inverse is the version.
    pub proof fn lemma_inverse(protocol_version: u8)
        ensures
            Self::spec_inverse(protocol_version) == 0xFF - protocol_version,
            Self::spec_inverse(Self::spec_inverse(protocol_version)) == protocol_version,
    {
        assert(!protocol_version == 0xFF - protocol_version) by (bit_vector);
        assert(!(!protocol_version) == protocol_version) by (bit_vector);
    }

    /// A header is eight bytes wide.
    pub proof fn lemma_wire_len(self)
        ensures
            self.wire().len() == DOIP_HEADER_LEN,
    {
    }

    /// Decoding a header followed by the payload that it frames gives the
    /// header back.
    pub proof fn lemma_round_trip(self, payload: Seq<u8>)
        requires
            self.frames(payload.len()),
        ensures
            Self::parse(self.wire() + payload) == Ok::<Header, HeaderError>(self),
    {
        lemma_be16_of_bytes(self.payload_type);
        lemma_be32_of_bytes(self.payload_length);
    }

    /// A decoded header was read off the front of the buffer and frames the
    /// rest of it: encoding it gives the first eight bytes back.
    pub proof fn lemma_parsed_prefix(bytes: Seq<u8>)
        ensures
            Self::parse(bytes) matches Ok(header) ==> {
                &&& header.wire() == bytes.subrange(0, DOIP_HEADER_LEN as int)
                &&& header.frames((bytes.len() - DOIP_HEADER_LEN) as nat)
            },
    {
        if let Ok(header) = Self::parse(bytes) {
            lemma_be16_bytes_of(bytes[2], bytes[3]);
            lemma_be32_bytes_of(bytes[4], bytes[5], bytes[6], bytes[7]);
            assert(header.wire() =~= bytes.subrange(0, DOIP_HEADER_LEN as int));
        }
    }

    /// A buffer shorter than a header is rejected as `InvalidLength`,
    /// whatever it holds.
    pub proof fn lemma_too_short(bytes: Seq<u8>)
        requires
            bytes.len() < DOIP_HEADER_LEN,
        ensures
            Self::parse(bytes) == Err::<Header, HeaderError>(HeaderError::InvalidLength),
    {
    }

    /// A buffer is accepted exactly when it holds a header whose second
    /// byte is the complement of the first and whose payload length is the
    /// number of bytes after the header.
    pub proof fn lemma_accepted(bytes: Seq<u8>)
        ensures
            Self::parse(bytes) is Ok <==> {
                &&& bytes.len() >= DOIP_HEADER_LEN
                &&& bytes[1] == Self::spec_inverse(bytes[0])
                &&& spec_be32(bytes[4], bytes[5], bytes[6], bytes[7]) == bytes.len()
                    - DOIP_HEADER_LEN
            },
    {
    }
}

} // verus!
