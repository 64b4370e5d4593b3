//! The entity status request: a payload without fields.

use super::payload::{DoipPayload, PayloadError, PayloadType};
use vstd::prelude::*;

verus! {

/// A request that a DoIP entity report its status.
#[derive(Copy, Clone, Debug, PartialEq, Eq)]
pub struct EntityStatusRequest {}

impl View for EntityStatusRequest {
    type V = EntityStatusRequest;

    open spec fn view(&self) -> EntityStatusRequest {
        *self
    }
}

impl EntityStatusRequest {
    /// The width of the payload: it has no fields.
    pub const MIN_LENGTH: usize = 0;

    /// Every value is encoded in no bytes at all.
    pub proof fn lemma_wire_len(value: EntityStatusRequest)
        ensures
            Self::wire(value).len() == Self::MIN_LENGTH,
    {
    }

    /// The payload has no fields, so every buffer is accepted and none of it
    /// is read.
    pub proof fn lemma_accepted(bytes: Seq<u8>)
        ensures
            Self::parse(bytes) == Ok::<EntityStatusRequest, PayloadError>(
                EntityStatusRequest {},
            ),
    {
    }
}

impl DoipPayload for EntityStatusRequest {
    open spec fn kind(value: EntityStatusRequest) -> PayloadType {
        PayloadType::EntityStatusRequest
    }

    open spec fn wire(value: EntityStatusRequest) -> Seq<u8> {
        Seq::empty()
    }

    open spec fn parse(bytes: Seq<u8>) -> Result<EntityStatusRequest, PayloadError> {
        Ok(EntityStatusRequest {})
    }

    proof fn lemma_round_trip(value: EntityStatusRequest) {
    }

    proof fn lemma_parsed_prefix(bytes: Seq<u8>) {
    }

    fn payload_type(&self) -> (payload_type: PayloadType) {
        PayloadType::EntityStatusRequest
    }

    fn to_bytes(&self) -> (bytes: Vec<u8>) {
        Vec::new()
    }

    fn from_bytes(_bytes: &[u8]) -> (result: Result<EntityStatusRequest, PayloadError>) {
        Ok(EntityStatusRequest {})
    }
}

} // verus!
