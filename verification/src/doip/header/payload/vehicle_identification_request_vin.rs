//! The vehicle identification request by vehicle identification number:
//! seventeen bytes of VIN.

use super::payload::{DoipPayload, PayloadError, PayloadType};
use crate::doip::definitions::DOIP_COMMON_VIN_LEN;
use crate::doip::wire::{field, lemma_field, lemma_field_is, take};
use vstd::prelude::*;

verus! {

/// A request that the vehicle with the given VIN identify itself.
#[derive(Copy, Clone, Debug, PartialEq, Eq)]
pub struct VehicleIdentificationRequestVin {
    /// The vehicle identification number that is asked for.
    pub vin: [u8; 17],
}

/// Why a buffer holds no vehicle identification request by VIN.
#[derive(Copy, Clone, Debug, PartialEq, Eq)]
pub enum VehicleIdentificationRequestVinError {
    /// The buffer is shorter than the payload.
    InvalidLength,
    /// A field reaches past the end of the buffer. The length check rules
    /// this out; no buffer is decoded to it.
    InvalidIndexRange,
}

impl View for VehicleIdentificationRequestVin {
    type V = VehicleIdentificationRequestVin;

    open spec fn view(&self) -> VehicleIdentificationRequestVin {
        *self
    }
}

impl VehicleIdentificationRequestVin {
    /// The width of the payload: the fewest bytes that hold a vehicle
    /// identification request by VIN.
    pub const MIN_LENGTH: usize = DOIP_COMMON_VIN_LEN;

    /// Every value is encoded in exactly 17 bytes.
    pub proof fn lemma_wire_len(value: VehicleIdentificationRequestVin)
        ensures
            Self::wire(value).len() == Self::MIN_LENGTH,
    {
    }

    /// A buffer shorter than the payload is rejected as `InvalidLength`,
    /// whatever it holds.
    pub proof fn lemma_too_short(bytes: Seq<u8>)
        requires
            bytes.len() < Self::MIN_LENGTH,
        ensures
            Self::parse(bytes) == Err::<VehicleIdentificationRequestVin, PayloadError>(
                PayloadError::VehicleIdentificationRequestVinError(
                    VehicleIdentificationRequestVinError::InvalidLength,
                ),
            ),
    {
    }

    /// A buffer is accepted exactly when it holds at least 17 bytes. Bytes past
    /// the payload are not read.
    pub proof fn lemma_accepted(bytes: Seq<u8>)
        ensures
            Self::parse(bytes) is Ok <==> bytes.len() >= Self::MIN_LENGTH,
    {
    }
}

impl DoipPayload for VehicleIdentificationRequestVin {
    open spec fn kind(value: VehicleIdentificationRequestVin) -> PayloadType {
        PayloadType::VehicleIdentificationRequestVin
    }

    open spec fn wire(value: VehicleIdentificationRequestVin) -> Seq<u8> {
        value.vin@
    }

    open spec fn parse(bytes: Seq<u8>) -> Result<VehicleIdentificationRequestVin, PayloadError> {
        if bytes.len() < Self::MIN_LENGTH {
            Err(
                PayloadError::VehicleIdentificationRequestVinError(
                    VehicleIdentificationRequestVinError::InvalidLength,
                ),
            )
        } else {
            Ok(VehicleIdentificationRequestVin { vin: field(bytes, 0) })
        }
    }

    proof fn lemma_round_trip(value: VehicleIdentificationRequestVin) {
        let bytes = Self::wire(value);
        assert(bytes.subrange(0, 17) =~= value.vin@);
        lemma_field_is::<17>(bytes, 0, value.vin);
    }

    proof fn lemma_parsed_prefix(bytes: Seq<u8>) {
        if let Ok(value) = Self::parse(bytes) {
            lemma_field::<17>(bytes, 0);
            assert(Self::wire(value) =~= bytes.subrange(0, 17));
        }
    }

    fn payload_type(&self) -> (payload_type: PayloadType) {
        PayloadType::VehicleIdentificationRequestVin
    }

    fn to_bytes(&self) -> (bytes: Vec<u8>) {
        let mut bytes: Vec<u8> = Vec::new();

        bytes.extend_from_slice(&self.vin);

        assert(bytes@ =~= Self::wire(*self));
        bytes
    }

    fn from_bytes(bytes: &[u8]) -> (result: Result<VehicleIdentificationRequestVin, PayloadError>) {
        // Check that bytes have sufficient length
        if bytes.len() < Self::MIN_LENGTH {
            return Err(
                PayloadError::VehicleIdentificationRequestVinError(
                    VehicleIdentificationRequestVinError::InvalidLength,
                ),
            );
        }

        let vin_offset: usize = 0;
        let vin: [u8; 17] = match take(bytes, vin_offset) {
            Some(array) => array,
            None => return Err(
                PayloadError::VehicleIdentificationRequestVinError(
                    VehicleIdentificationRequestVinError::InvalidIndexRange,
                ),
            ),
        };

        Ok(VehicleIdentificationRequestVin { vin })
    }
}

} // verus!
