//! The alive check request: a payload without fields.

use super::payload::{DoipPayload, PayloadError, PayloadType};
use vstd::prelude::*;

verus! {

/// A request that a tester show it is still there.
#[derive(Copy, Clone, Debug, PartialEq, Eq)]
pub struct AliveCheckRequest {}

impl View for AliveCheckRequest {
    type V = AliveCheckRequest;

    open spec fn view(&self) -> AliveCheckRequest {
        *self
    }
}

impl AliveCheckRequest {
    /// The width of the payload: it has no fields.
    pub const MIN_LENGTH: usize = 0;

    /// Every value is encoded in no bytes at all.
    pub proof fn lemma_wire_len(value: AliveCheckRequest)
        ensures
            Self::wire(value).len() == Self::MIN_LENGTH,
    {
    }

    /// The payload has no fields, so every buffer is accepted and none of it
    /// is read.
    pub proof fn lemma_accepted(bytes: Seq<u8>)
        ensures
            Self::parse(bytes) == Ok::<AliveCheckRequest, PayloadError>(
                AliveCheckRequest {},
            ),
    {
    }
}

impl DoipPayload for AliveCheckRequest {
    open spec fn kind(value: AliveCheckRequest) -> PayloadType {
        PayloadType::AliveCheckRequest
    }

    open spec fn wire(value: AliveCheckRequest) -> Seq<u8> {
        Seq::empty()
    }

    open spec fn parse(bytes: Seq<u8>) -> Result<AliveCheckRequest, PayloadError> {
        Ok(AliveCheckRequest {})
    }

    proof fn lemma_round_trip(value: AliveCheckRequest) {
    }

    proof fn lemma_parsed_prefix(bytes: Seq<u8>) {
    }

    fn payload_type(&self) -> (payload_type: PayloadType) {
        PayloadType::AliveCheckRequest
    }

    fn to_bytes(&self) -> (bytes: Vec<u8>) {
        Vec::new()
    }

    fn from_bytes(_bytes: &[u8]) -> (result: Result<AliveCheckRequest, PayloadError>) {
        Ok(AliveCheckRequest {})
    }
}

} // verus!
