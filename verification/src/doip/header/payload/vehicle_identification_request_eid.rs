//! The vehicle identification request by entity identifier: six bytes of EID.

use super::payload::{DoipPayload, PayloadError, PayloadType};
use crate::doip::definitions::DOIP_COMMON_EID_LEN;
use crate::doip::wire::{field, lemma_field, lemma_field_is, take};
use vstd::prelude::*;

verus! {

/// A request that the entity with the given EID identify itself.
#[derive(Copy, Clone, Debug, PartialEq, Eq)]
pub struct VehicleIdentificationRequestEid {
    /// The entity identifier that is asked for.
    pub eid: [u8; 6],
}

/// Why a buffer holds no vehicle identification request by EID.
#[derive(Copy, Clone, Debug, PartialEq, Eq)]
pub enum VehicleIdentificationRequestEidError {
    /// The buffer is shorter than the payload.
    InvalidLength,
    /// A field reaches past the end of the buffer. The length check rules
    /// this out; no buffer is decoded to it.
    InvalidIndexRange,
}

impl View for VehicleIdentificationRequestEid {
    type V = VehicleIdentificationRequestEid;

    open spec fn view(&self) -> VehicleIdentificationRequestEid {
        *self
    }
}

impl VehicleIdentificationRequestEid {
    /// The width of the payload: the fewest bytes that hold a vehicle
    /// identification request by EID.
    pub const MIN_LENGTH: usize = DOIP_COMMON_EID_LEN;

    /// Every value is encoded in exactly 6 bytes.
    pub proof fn lemma_wire_len(value: VehicleIdentificationRequestEid)
        ensures
            Self::wire(value).len() == Self::MIN_LENGTH,
    {
    }

    /// A buffer shorter than the payload is rejected as `InvalidLength`,
    /// whatever it holds.
    pub proof fn lemma_too_short(bytes: Seq<u8>)
        requires
            bytes.len() < Self::MIN_LENGTH,
        ensures
            Self::parse(bytes) == Err::<VehicleIdentificationRequestEid, PayloadError>(
                PayloadError::VehicleIdentificationRequestEidError(
                    VehicleIdentificationRequestEidError::InvalidLength,
                ),
            ),
    {
    }

    /// A buffer is accepted exactly when it holds at least 6 bytes. Bytes past
    /// the payload are not read.
    pub proof fn lemma_accepted(bytes: Seq<u8>)
        ensures
            Self::parse(bytes) is Ok <==> bytes.len() >= Self::MIN_LENGTH,
    {
    }
}

impl DoipPayload for VehicleIdentificationRequestEid {
    open spec fn kind(value: VehicleIdentificationRequestEid) -> PayloadType {
        PayloadType::VehicleIdentificationRequestEid
    }

    open spec fn wire(value: VehicleIdentificationRequestEid) -> Seq<u8> {
        value.eid@
    }

    open spec fn parse(bytes: Seq<u8>) -> Result<VehicleIdentificationRequestEid, PayloadError> {
        if bytes.len() < Self::MIN_LENGTH {
            Err(
                PayloadError::VehicleIdentificationRequestEidError(
                    VehicleIdentificationRequestEidError::InvalidLength,
                ),
            )
        } else {
            Ok(VehicleIdentificationRequestEid { eid: field(bytes, 0) })
        }
    }

    proof fn lemma_round_trip(value: VehicleIdentificationRequestEid) {
        let bytes = Self::wire(value);
        assert(bytes.subrange(0, 6) =~= value.eid@);
        lemma_field_is::<6>(bytes, 0, value.eid);
    }

    proof fn lemma_parsed_prefix(bytes: Seq<u8>) {
        if let Ok(value) = Self::parse(bytes) {
            lemma_field::<6>(bytes, 0);
            assert(Self::wire(value) =~= bytes.subrange(0, 6));
        }
    }

    fn payload_type(&self) -> (payload_type: PayloadType) {
        PayloadType::VehicleIdentificationRequestEid
    }

    fn to_bytes(&self) -> (bytes: Vec<u8>) {
        let mut bytes: Vec<u8> = Vec::new();

        bytes.extend_from_slice(&self.eid);

        assert(bytes@ =~= Self::wire(*self));
        bytes
    }

    fn from_bytes(bytes: &[u8]) -> (result: Result<VehicleIdentificationRequestEid, PayloadError>) {
        // Check that bytes have sufficient length
        if bytes.len() < Self::MIN_LENGTH {
            return Err(
                PayloadError::VehicleIdentificationRequestEidError(
                    VehicleIdentificationRequestEidError::InvalidLength,
                ),
            );
        }

        let eid_offset: usize = 0;
        let eid: [u8; 6] = match take(bytes, eid_offset) {
            Some(array) => array,
            None => return Err(
                PayloadError::VehicleIdentificationRequestEidError(
                    VehicleIdentificationRequestEidError::InvalidIndexRange,
                ),
            ),
        };

        Ok(VehicleIdentificationRequestEid { eid })
    }
}

} // verus!
