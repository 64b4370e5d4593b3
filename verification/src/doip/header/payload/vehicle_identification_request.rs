//! The vehicle identification request: a payload without fields.

use super::payload::{DoipPayload, PayloadError, PayloadType};
use vstd::prelude::*;

verus! {

/// A request that every vehicle on the network identify itself.
#[derive(Copy, Clone, Debug, PartialEq, Eq)]
pub struct VehicleIdentificationRequest {}

impl View for VehicleIdentificationRequest {
    type V = VehicleIdentificationRequest;

    open spec fn view(&self) -> VehicleIdentificationRequest {
        *self
    }
}

impl VehicleIdentificationRequest {
    /// The width of the payload: it has no fields.
    pub const MIN_LENGTH: usize = 0;

    /// Every value is encoded in no bytes at all.
    pub proof fn lemma_wire_len(value: VehicleIdentificationRequest)
        ensures
            Self::wire(value).len() == Self::MIN_LENGTH,
    {
    }

    /// The payload has no fields, so every buffer is accepted and none of it
    /// is read.
    pub proof fn lemma_accepted(bytes: Seq<u8>)
        ensures
            Self::parse(bytes) == Ok::<VehicleIdentificationRequest, PayloadError>(
                VehicleIdentificationRequest {},
            ),
    {
    }
}

impl DoipPayload for VehicleIdentificationRequest {
    open spec fn kind(value: VehicleIdentificationRequest) -> PayloadType {
        PayloadType::VehicleIdentificationRequest
    }

    open spec fn wire(value: VehicleIdentificationRequest) -> Seq<u8> {
        Seq::empty()
    }

    open spec fn parse(bytes: Seq<u8>) -> Result<VehicleIdentificationRequest, PayloadError> {
        Ok(VehicleIdentificationRequest {})
    }

    proof fn lemma_round_trip(value: VehicleIdentificationRequest) {
    }

    proof fn lemma_parsed_prefix(bytes: Seq<u8>) {
    }

    fn payload_type(&self) -> (payload_type: PayloadType) {
        PayloadType::VehicleIdentificationRequest
    }

    fn to_bytes(&self) -> (bytes: Vec<u8>) {
        Vec::new()
    }

    fn from_bytes(_bytes: &[u8]) -> (result: Result<VehicleIdentificationRequest, PayloadError>) {
        Ok(VehicleIdentificationRequest {})
    }
}

} // verus!
