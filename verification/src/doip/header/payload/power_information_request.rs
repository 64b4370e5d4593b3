//! The diagnostic power mode information request: a payload without fields.

use super::payload::{DoipPayload, PayloadError, PayloadType};
use vstd::prelude::*;

verus! {

/// A request that a DoIP entity report the vehicle's power mode.
#[derive(Copy, Clone, Debug, PartialEq, Eq)]
pub struct PowerInformationRequest {}

impl View for PowerInformationRequest {
    type V = PowerInformationRequest;

    open spec fn view(&self) -> PowerInformationRequest {
        *self
    }
}

impl PowerInformationRequest {
    /// The width of the payload: it has no fields.
    pub const MIN_LENGTH: usize = 0;

    /// Every value is encoded in no bytes at all.
    pub proof fn lemma_wire_len(value: PowerInformationRequest)
        ensures
            Self::wire(value).len() == Self::MIN_LENGTH,
    {
    }

    /// The payload has no fields, so every buffer is accepted and none of it
    /// is read.
    pub proof fn lemma_accepted(bytes: Seq<u8>)
        ensures
            Self::parse(bytes) == Ok::<PowerInformationRequest, PayloadError>(
                PowerInformationRequest {},
            ),
    {
    }
}

impl DoipPayload for PowerInformationRequest {
    open spec fn kind(value: PowerInformationRequest) -> PayloadType {
        PayloadType::PowerInformationRequest
    }

    open spec fn wire(value: PowerInformationRequest) -> Seq<u8> {
        Seq::empty()
    }

    open spec fn parse(bytes: Seq<u8>) -> Result<PowerInformationRequest, PayloadError> {
        Ok(PowerInformationRequest {})
    }

    proof fn lemma_round_trip(value: PowerInformationRequest) {
    }

    proof fn lemma_parsed_prefix(bytes: Seq<u8>) {
    }

    fn payload_type(&self) -> (payload_type: PayloadType) {
        PayloadType::PowerInformationRequest
    }

    fn to_bytes(&self) -> (bytes: Vec<u8>) {
        Vec::new()
    }

    fn from_bytes(_bytes: &[u8]) -> (result: Result<PowerInformationRequest, PayloadError>) {
        Ok(PowerInformationRequest {})
    }
}

} // verus!
