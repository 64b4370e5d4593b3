//! The routing activation response: tester address, entity address, response
//! code and four reserved bytes.

use super::payload::{DoipPayload, PayloadError, PayloadType};
use crate::doip::definitions::{
    DOIP_ROUTING_ACTIVATION_RES_CODE_LEN, DOIP_ROUTING_ACTIVATION_RES_ENTITY_LEN,
    DOIP_ROUTING_ACTIVATION_RES_ISO_LEN, DOIP_ROUTING_ACTIVATION_RES_TESTER_LEN,
};
use crate::doip::message::activation_code::ActivationCode;
use crate::doip::wire::{field, lemma_field, lemma_field_is, take};
use vstd::prelude::*;

verus! {

/// A DoIP entity's answer to a routing activation request.
#[derive(Copy, Clone, Debug, PartialEq, Eq)]
pub struct RoutingActivationResponse {
    /// The logical address of the tester that asked.
    pub logical_address: [u8; 2],
    /// The logical address of the entity that answers.
    pub source_address: [u8; 2],
    /// Whether routing was activated, or why not.
    pub activation_code: ActivationCode,
    /// Four bytes reserved by ISO 13400.
    pub buffer: [u8; 4],
}

/// Why a buffer holds no routing activation response.
#[derive(Copy, Clone, Debug, PartialEq, Eq)]
pub enum RoutingActivationResponseError {
    /// The buffer is shorter than the payload.
    InvalidLength,
    /// A field reaches past the end of the buffer. The length check rules
    /// this out; no buffer is decoded to it.
    InvalidIndexRange,
    /// The code byte is no activation response code.
    InvalidActivationCode,
}

impl View for RoutingActivationResponse {
    type V = RoutingActivationResponse;

    open spec fn view(&self) -> RoutingActivationResponse {
        *self
    }
}

impl RoutingActivationResponse {
    /// The width of the payload: the fewest bytes that hold a routing activation
    /// response.
    pub const MIN_LENGTH: usize = DOIP_ROUTING_ACTIVATION_RES_TESTER_LEN
        + DOIP_ROUTING_ACTIVATION_RES_ENTITY_LEN + DOIP_ROUTING_ACTIVATION_RES_CODE_LEN
        + DOIP_ROUTING_ACTIVATION_RES_ISO_LEN;

    /// Every value is encoded in exactly 9 bytes.
    pub proof fn lemma_wire_len(value: RoutingActivationResponse)
        ensures
            Self::wire(value).len() == Self::MIN_LENGTH,
    {
    }

    /// A buffer shorter than the payload is rejected as `InvalidLength`,
    /// whatever it holds.
    pub proof fn lemma_too_short(bytes: Seq<u8>)
        requires
            bytes.len() < Self::MIN_LENGTH,
        ensures
            Self::parse(bytes) == Err::<RoutingActivationResponse, PayloadError>(
                PayloadError::RoutingActivationResponseError(
                    RoutingActivationResponseError::InvalidLength,
                ),
            ),
    {
    }

    /// A buffer is accepted exactly when it holds at least 9 bytes and byte 4 is
    /// a defined activation response code. Bytes past the payload are not read.
    pub proof fn lemma_accepted(bytes: Seq<u8>)
        ensures
            Self::parse(bytes) is Ok <==> {
                &&& bytes.len() >= Self::MIN_LENGTH
                &&& ActivationCode::is_defined(bytes[4])
            },
    {
    }

    /// A buffer that is long enough and holds an undefined activation response
    /// code is rejected as `InvalidActivationCode`.
    pub proof fn lemma_invalid_activation_code(bytes: Seq<u8>)
        requires
            bytes.len() >= Self::MIN_LENGTH,
            !ActivationCode::is_defined(bytes[4]),
        ensures
            Self::parse(bytes) == Err::<RoutingActivationResponse, PayloadError>(
                PayloadError::RoutingActivationResponseError(
                    RoutingActivationResponseError::InvalidActivationCode,
                ),
            ),
    {
    }
}

impl DoipPayload for RoutingActivationResponse {
    open spec fn kind(value: RoutingActivationResponse) -> PayloadType {
        PayloadType::RoutingActivationResponse
    }

    open spec fn wire(value: RoutingActivationResponse) -> Seq<u8> {
        value.logical_address@ + value.source_address@ + seq![value.activation_code.to_byte()]
            + value.buffer@
    }

    open spec fn parse(bytes: Seq<u8>) -> Result<RoutingActivationResponse, PayloadError> {
        if bytes.len() < Self::MIN_LENGTH {
            Err(
                PayloadError::RoutingActivationResponseError(
                    RoutingActivationResponseError::InvalidLength,
                ),
            )
        } else {
            match ActivationCode::from_byte(bytes[4]) {
                None => Err(
                    PayloadError::RoutingActivationResponseError(
                        RoutingActivationResponseError::InvalidActivationCode,
                    ),
                ),
                Some(activation_code) => Ok(
                    RoutingActivationResponse {
                        logical_address: field(bytes, 0),
                        source_address: field(bytes, 2),
                        activation_code,
                        buffer: field(bytes, 5),
                    },
                ),
            }
        }
    }

    proof fn lemma_round_trip(value: RoutingActivationResponse) {
        let bytes = Self::wire(value);
        assert(bytes.subrange(0, 2) =~= value.logical_address@);
        lemma_field_is::<2>(bytes, 0, value.logical_address);
        assert(bytes.subrange(2, 4) =~= value.source_address@);
        lemma_field_is::<2>(bytes, 2, value.source_address);
        value.activation_code.lemma_to_byte_round_trip();
        assert(bytes.subrange(5, 9) =~= value.buffer@);
        lemma_field_is::<4>(bytes, 5, value.buffer);
    }

    proof fn lemma_parsed_prefix(bytes: Seq<u8>) {
        if let Ok(value) = Self::parse(bytes) {
            lemma_field::<2>(bytes, 0);
            lemma_field::<2>(bytes, 2);
            ActivationCode::lemma_from_byte(bytes[4]);
            lemma_field::<4>(bytes, 5);
            assert(Self::wire(value) =~= bytes.subrange(0, 9));
        }
    }

    fn payload_type(&self) -> (payload_type: PayloadType) {
        PayloadType::RoutingActivationResponse
    }

    fn to_bytes(&self) -> (bytes: Vec<u8>) {
        let mut bytes: Vec<u8> = Vec::new();

        bytes.extend_from_slice(&self.logical_address);
        bytes.extend_from_slice(&self.source_address);
        bytes.push(self.activation_code.to_byte());
        bytes.extend_from_slice(&self.buffer);

        assert(bytes@ =~= Self::wire(*self));
        bytes
    }

    fn from_bytes(bytes: &[u8]) -> (result: Result<RoutingActivationResponse, PayloadError>) {
        // Check that bytes have sufficient length
        if bytes.len() < Self::MIN_LENGTH {
            return Err(
                PayloadError::RoutingActivationResponseError(
                    RoutingActivationResponseError::InvalidLength,
                ),
            );
        }

        let logical_address_offset: usize = 0;
        let logical_address: [u8; 2] = match take(bytes, logical_address_offset) {
            Some(array) => array,
            None => return Err(
                PayloadError::RoutingActivationResponseError(
                    RoutingActivationResponseError::InvalidIndexRange,
                ),
            ),
        };

        let source_address_offset: usize = logical_address_offset
            + DOIP_ROUTING_ACTIVATION_RES_TESTER_LEN;
        let source_address: [u8; 2] = match take(bytes, source_address_offset) {
            Some(array) => array,
            None => return Err(
                PayloadError::RoutingActivationResponseError(
                    RoutingActivationResponseError::InvalidIndexRange,
                ),
            ),
        };

        let activation_code_offset: usize = source_address_offset
            + DOIP_ROUTING_ACTIVATION_RES_ENTITY_LEN;
        let activation_code = match ActivationCode::from_byte(bytes[activation_code_offset]) {
            Some(code) => code,
            None => return Err(
                PayloadError::RoutingActivationResponseError(
                    RoutingActivationResponseError::InvalidActivationCode,
                ),
            ),
        };

        let buffer_offset: usize = activation_code_offset + DOIP_ROUTING_ACTIVATION_RES_CODE_LEN;
        let buffer: [u8; 4] = match take(bytes, buffer_offset) {
            Some(array) => array,
            None => return Err(
                PayloadError::RoutingActivationResponseError(
                    RoutingActivationResponseError::InvalidIndexRange,
                ),
            ),
        };

        Ok(RoutingActivationResponse { logical_address, source_address, activation_code, buffer })
    }
}

} // verus!
