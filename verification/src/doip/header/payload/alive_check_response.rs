//! The alive check response: the source address of the tester that is alive.

use super::payload::{DoipPayload, PayloadError, PayloadType};
use crate::doip::definitions::DOIP_ALIVE_CHECK_RESPONSE_SOURCE_LEN;
use crate::doip::wire::{field, lemma_field, lemma_field_is, take};
use vstd::prelude::*;

verus! {

/// A tester's answer to an alive check request.
#[derive(Copy, Clone, Debug, PartialEq, Eq)]
pub struct AliveCheckResponse {
    /// The logical address of the tester.
    pub source_address: [u8; 2],
}

/// Why a buffer holds no alive check response.
#[derive(Copy, Clone, Debug, PartialEq, Eq)]
pub enum AliveCheckResponseParseError {
    /// The buffer is shorter than the payload.
    InvalidLength,
    /// A field reaches past the end of the buffer. The length check rules
    /// this out; no buffer is decoded to it.
    InvalidIndexRange,
}

impl View for AliveCheckResponse {
    type V = AliveCheckResponse;

    open spec fn view(&self) -> AliveCheckResponse {
        *self
    }
}

impl AliveCheckResponse {
    /// The width of the payload: the fewest bytes that hold an alive check
    /// response.
    pub const MIN_LENGTH: usize = DOIP_ALIVE_CHECK_RESPONSE_SOURCE_LEN;

    /// Every value is encoded in exactly 2 bytes.
    pub proof fn lemma_wire_len(value: AliveCheckResponse)
        ensures
            Self::wire(value).len() == Self::MIN_LENGTH,
    {
    }

    /// A buffer shorter than the payload is rejected as `InvalidLength`,
    /// whatever it holds.
    pub proof fn lemma_too_short(bytes: Seq<u8>)
        requires
            bytes.len() < Self::MIN_LENGTH,
        ensures
            Self::parse(bytes) == Err::<AliveCheckResponse, PayloadError>(
                PayloadError::AliveCheckResponseParseError(
                    AliveCheckResponseParseError::InvalidLength,
                ),
            ),
    {
    }

    /// A buffer is accepted exactly when it holds at least 2 bytes. Bytes past
    /// the payload are not read.
    pub proof fn lemma_accepted(bytes: Seq<u8>)
        ensures
            Self::parse(bytes) is Ok <==> bytes.len() >= Self::MIN_LENGTH,
    {
    }
}

impl DoipPayload for AliveCheckResponse {
    open spec fn kind(value: AliveCheckResponse) -> PayloadType {
        PayloadType::AliveCheckResponse
    }

    open spec fn wire(value: AliveCheckResponse) -> Seq<u8> {
        value.source_address@
    }

    open spec fn parse(bytes: Seq<u8>) -> Result<AliveCheckResponse, PayloadError> {
        if bytes.len() < Self::MIN_LENGTH {
            Err(
                PayloadError::AliveCheckResponseParseError(
                    AliveCheckResponseParseError::InvalidLength,
                ),
            )
        } else {
            Ok(AliveCheckResponse { source_address: field(bytes, 0) })
        }
    }

    proof fn lemma_round_trip(value: AliveCheckResponse) {
        let bytes = Self::wire(value);
        assert(bytes.subrange(0, 2) =~= value.source_address@);
        lemma_field_is::<2>(bytes, 0, value.source_address);
    }

    proof fn lemma_parsed_prefix(bytes: Seq<u8>) {
        if let Ok(value) = Self::parse(bytes) {
            lemma_field::<2>(bytes, 0);
            assert(Self::wire(value) =~= bytes.subrange(0, 2));
        }
    }

    fn payload_type(&self) -> (payload_type: PayloadType) {
        PayloadType::AliveCheckResponse
    }

    fn to_bytes(&self) -> (bytes: Vec<u8>) {
        let mut bytes: Vec<u8> = Vec::new();

        bytes.extend_from_slice(&self.source_address);

        assert(bytes@ =~= Self::wire(*self));
        bytes
    }

    fn from_bytes(bytes: &[u8]) -> (result: Result<AliveCheckResponse, PayloadError>) {
        // Check that bytes have sufficient length
        if bytes.len() < Self::MIN_LENGTH {
            return Err(
                PayloadError::AliveCheckResponseParseError(
                    AliveCheckResponseParseError::InvalidLength,
                ),
            );
        }

        let source_address_offset: usize = 0;
        let source_address: [u8; 2] = match take(bytes, source_address_offset) {
            Some(array) => array,
            None => return Err(
                PayloadError::AliveCheckResponseParseError(
                    AliveCheckResponseParseError::InvalidIndexRange,
                ),
            ),
        };

        Ok(AliveCheckResponse { source_address })
    }
}

} // verus!
