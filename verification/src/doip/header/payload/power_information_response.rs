//! The diagnostic power mode information response: one power mode byte.

use super::payload::{DoipPayload, PayloadError, PayloadType};
use crate::doip::definitions::DOIP_POWER_MODE_LEN;
use crate::doip::message::power_mode::PowerMode;
use vstd::prelude::*;

verus! {

/// What a DoIP entity reports of the vehicle's power mode.
#[derive(Copy, Clone, Debug, PartialEq, Eq)]
pub struct PowerInformationResponse {
    /// Whether the vehicle is ready for diagnostics.
    pub power_mode: PowerMode,
}

/// Why a buffer holds no power information response.
#[derive(Copy, Clone, Debug, PartialEq, Eq)]
pub enum PowerInformationResponseError {
    /// The buffer is shorter than the payload.
    InvalidLength,
    /// A field reaches past the end of the buffer. The length check rules
    /// this out; no buffer is decoded to it.
    InvalidIndexRange,
    /// The mode byte is no power mode.
    InvalidPowerMode,
}

impl View for PowerInformationResponse {
    type V = PowerInformationResponse;

    open spec fn view(&self) -> PowerInformationResponse {
        *self
    }
}

impl PowerInformationResponse {
    /// The width of the payload: the fewest bytes that hold a power information
    /// response.
    pub const MIN_LENGTH: usize = DOIP_POWER_MODE_LEN;

    /// Every value is encoded in exactly 1 byte.
    pub proof fn lemma_wire_len(value: PowerInformationResponse)
        ensures
            Self::wire(value).len() == Self::MIN_LENGTH,
    {
    }

    /// A buffer shorter than the payload is rejected as `InvalidLength`,
    /// whatever it holds.
    pub proof fn lemma_too_short(bytes: Seq<u8>)
        requires
            bytes.len() < Self::MIN_LENGTH,
        ensures
            Self::parse(bytes) == Err::<PowerInformationResponse, PayloadError>(
                PayloadError::PowerInformationResponseError(
                    PowerInformationResponseError::InvalidLength,
                ),
            ),
    {
    }

    /// A buffer is accepted exactly when it holds at least 1 byte and byte 0 is a
    /// defined power mode. Bytes past the payload are not read.
    pub proof fn lemma_accepted(bytes: Seq<u8>)
        ensures
            Self::parse(bytes) is Ok <==> {
                &&& bytes.len() >= Self::MIN_LENGTH
                &&& PowerMode::is_defined(bytes[0])
            },
    {
    }

    /// A buffer that is long enough and holds an undefined power mode is rejected
    /// as `InvalidPowerMode`.
    pub proof fn lemma_invalid_power_mode(bytes: Seq<u8>)
        requires
            bytes.len() >= Self::MIN_LENGTH,
            !PowerMode::is_defined(bytes[0]),
        ensures
            Self::parse(bytes) == Err::<PowerInformationResponse, PayloadError>(
                PayloadError::PowerInformationResponseError(
                    PowerInformationResponseError::InvalidPowerMode,
                ),
            ),
    {
    }
}

impl DoipPayload for PowerInformationResponse {
    open spec fn kind(value: PowerInformationResponse) -> PayloadType {
        PayloadType::PowerInformationResponse
    }

    open spec fn wire(value: PowerInformationResponse) -> Seq<u8> {
        seq![value.power_mode.to_byte()]
    }

    open spec fn parse(bytes: Seq<u8>) -> Result<PowerInformationResponse, PayloadError> {
        if bytes.len() < Self::MIN_LENGTH {
            Err(
                PayloadError::PowerInformationResponseError(
                    PowerInformationResponseError::InvalidLength,
                ),
            )
        } else {
            match PowerMode::from_byte(bytes[0]) {
                None => Err(
                    PayloadError::PowerInformationResponseError(
                        PowerInformationResponseError::InvalidPowerMode,
                    ),
                ),
                Some(power_mode) => Ok(PowerInformationResponse { power_mode }),
            }
        }
    }

    proof fn lemma_round_trip(value: PowerInformationResponse) {
        value.power_mode.lemma_to_byte_round_trip();
    }

    proof fn lemma_parsed_prefix(bytes: Seq<u8>) {
        if let Ok(value) = Self::parse(bytes) {
            PowerMode::lemma_from_byte(bytes[0]);
            assert(Self::wire(value) =~= bytes.subrange(0, 1));
        }
    }

    fn payload_type(&self) -> (payload_type: PayloadType) {
        PayloadType::PowerInformationResponse
    }

    fn to_bytes(&self) -> (bytes: Vec<u8>) {
        let mut bytes: Vec<u8> = Vec::new();

        bytes.push(self.power_mode.to_byte());

        assert(bytes@ =~= Self::wire(*self));
        bytes
    }

    fn from_bytes(bytes: &[u8]) -> (result: Result<PowerInformationResponse, PayloadError>) {
        // Check that bytes have sufficient length
        if bytes.len() < Self::MIN_LENGTH {
            return Err(
                PayloadError::PowerInformationResponseError(
                    PowerInformationResponseError::InvalidLength,
                ),
            );
        }

        let power_mode_offset: usize = 0;
        let power_mode = match PowerMode::from_byte(bytes[power_mode_offset]) {
            Some(code) => code,
            None => return Err(
                PayloadError::PowerInformationResponseError(
                    PowerInformationResponseError::InvalidPowerMode,
                ),
            ),
        };

        Ok(PowerInformationResponse { power_mode })
    }
}

} // verus!
