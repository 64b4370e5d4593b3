//! The routing activation request: source address, activation type and four
//! reserved bytes.

use super::payload::{DoipPayload, PayloadError, PayloadType};
use crate::doip::definitions::{
    DOIP_ROUTING_ACTIVATION_REQ_ISO_LEN, DOIP_ROUTING_ACTIVATION_REQ_SRC_LEN,
    DOIP_ROUTING_ACTIVATION_REQ_TYPE_LEN,
};
use crate::doip::message::activation_type::ActivationType;
use crate::doip::wire::{field, lemma_field, lemma_field_is, take};
use vstd::prelude::*;

verus! {

/// A tester's request to have its diagnostic messages routed.
#[derive(Copy, Clone, Debug, PartialEq, Eq)]
pub struct RoutingActivationRequest {
    /// The logical address of the tester.
    pub source_address: [u8; 2],
    /// The kind of activation that is asked for.
    pub activation_type: ActivationType,
    /// Four bytes reserved by ISO 13400.
    pub buffer: [u8; 4],
}

/// Why a buffer holds no routing activation request.
#[derive(Copy, Clone, Debug, PartialEq, Eq)]
pub enum RoutingActivationRequestError {
    /// The buffer is shorter than the payload.
    InvalidLength,
    /// A field reaches past the end of the buffer. The length check rules
    /// this out; no buffer is decoded to it.
    InvalidIndexRange,
    /// The type byte is no activation type.
    InvalidActivationType,
}

impl View for RoutingActivationRequest {
    type V = RoutingActivationRequest;

    open spec fn view(&self) -> RoutingActivationRequest {
        *self
    }
}

impl RoutingActivationRequest {
    /// The width of the payload: the fewest bytes that hold a routing activation
    /// request.
    pub const MIN_LENGTH: usize = DOIP_ROUTING_ACTIVATION_REQ_SRC_LEN
        + DOIP_ROUTING_ACTIVATION_REQ_TYPE_LEN + DOIP_ROUTING_ACTIVATION_REQ_ISO_LEN;

    /// Every value is encoded in exactly 7 bytes.
    pub proof fn lemma_wire_len(value: RoutingActivationRequest)
        ensures
            Self::wire(value).len() == Self::MIN_LENGTH,
    {
    }

    /// A buffer shorter than the payload is rejected as `InvalidLength`,
    /// whatever it holds.
    pub proof fn lemma_too_short(bytes: Seq<u8>)
        requires
            bytes.len() < Self::MIN_LENGTH,
        ensures
            Self::parse(bytes) == Err::<RoutingActivationRequest, PayloadError>(
                PayloadError::RoutingActivationRequestError(
                    RoutingActivationRequestError::InvalidLength,
                ),
            ),
    {
    }

    /// A buffer is accepted exactly when it holds at least 7 bytes and byte 2 is
    /// a defined activation type. Bytes past the payload are not read.
    pub proof fn lemma_accepted(bytes: Seq<u8>)
        ensures
            Self::parse(bytes) is Ok <==> {
                &&& bytes.len() >= Self::MIN_LENGTH
                &&& ActivationType::is_defined(bytes[2])
            },
    {
    }

    /// A buffer that is long enough and holds an undefined activation type is
    /// rejected as `InvalidActivationType`.
    pub proof fn lemma_invalid_activation_type(bytes: Seq<u8>)
        requires
            bytes.len() >= Self::MIN_LENGTH,
            !ActivationType::is_defined(bytes[2]),
        ensures
            Self::parse(bytes) == Err::<RoutingActivationRequest, PayloadError>(
                PayloadError::RoutingActivationRequestError(
                    RoutingActivationRequestError::InvalidActivationType,
                ),
            ),
    {
    }
}

impl DoipPayload for RoutingActivationRequest {
    open spec fn kind(value: RoutingActivationRequest) -> PayloadType {
        PayloadType::RoutingActivationRequest
    }

    open spec fn wire(value: RoutingActivationRequest) -> Seq<u8> {
        value.source_address@ + seq![value.activation_type.to_byte()] + value.buffer@
    }

    open spec fn parse(bytes: Seq<u8>) -> Result<RoutingActivationRequest, PayloadError> {
        if bytes.len() < Self::MIN_LENGTH {
            Err(
                PayloadError::RoutingActivationRequestError(
                    RoutingActivationRequestError::InvalidLength,
                ),
            )
        } else {
            match ActivationType::from_byte(bytes[2]) {
                None => Err(
                    PayloadError::RoutingActivationRequestError(
                        RoutingActivationRequestError::InvalidActivationType,
                    ),
                ),
                Some(activation_type) => Ok(
                    RoutingActivationRequest {
                        source_address: field(bytes, 0),
                        activation_type,
                        buffer: field(bytes, 3),
                    },
                ),
            }
        }
    }

    proof fn lemma_round_trip(value: RoutingActivationRequest) {
        let bytes = Self::wire(value);
        assert(bytes.subrange(0, 2) =~= value.source_address@);
        lemma_field_is::<2>(bytes, 0, value.source_address);
        value.activation_type.lemma_to_byte_round_trip();
        assert(bytes.subrange(3, 7) =~= value.buffer@);
        lemma_field_is::<4>(bytes, 3, value.buffer);
    }

    proof fn lemma_parsed_prefix(bytes: Seq<u8>) {
        if let Ok(value) = Self::parse(bytes) {
            lemma_field::<2>(bytes, 0);
            ActivationType::lemma_from_byte(bytes[2]);
            lemma_field::<4>(bytes, 3);
            assert(Self::wire(value) =~= bytes.subrange(0, 7));
        }
    }

    fn payload_type(&self) -> (payload_type: PayloadType) {
        PayloadType::RoutingActivationRequest
    }

    fn to_bytes(&self) -> (bytes: Vec<u8>) {
        let mut bytes: Vec<u8> = Vec::new();

        bytes.extend_from_slice(&self.source_address);
        bytes.push(self.activation_type.to_byte());
        bytes.extend_from_slice(&self.buffer);

        assert(bytes@ =~= Self::wire(*self));
        bytes
    }

    fn from_bytes(bytes: &[u8]) -> (result: Result<RoutingActivationRequest, PayloadError>) {
        // Check that bytes have sufficient length
        if bytes.len() < Self::MIN_LENGTH {
            return Err(
                PayloadError::RoutingActivationRequestError(
                    RoutingActivationRequestError::InvalidLength,
                ),
            );
        }

        let source_address_offset: usize = 0;
        let source_address: [u8; 2] = match take(bytes, source_address_offset) {
            Some(array) => array,
            None => return Err(
                PayloadError::RoutingActivationRequestError(
                    RoutingActivationRequestError::InvalidIndexRange,
                ),
            ),
        };

        let activation_type_offset: usize = source_address_offset
            + DOIP_ROUTING_ACTIVATION_REQ_SRC_LEN;
        let activation_type = match ActivationType::from_byte(bytes[activation_type_offset]) {
            Some(code) => code,
            None => return Err(
                PayloadError::RoutingActivationRequestError(
                    RoutingActivationRequestError::InvalidActivationType,
                ),
            ),
        };

        let buffer_offset: usize = activation_type_offset + DOIP_ROUTING_ACTIVATION_REQ_TYPE_LEN;
        let buffer: [u8; 4] = match take(bytes, buffer_offset) {
            Some(array) => array,
            None => return Err(
                PayloadError::RoutingActivationRequestError(
                    RoutingActivationRequestError::InvalidIndexRange,
                ),
            ),
        };

        Ok(RoutingActivationRequest { source_address, activation_type, buffer })
    }
}

} // verus!
