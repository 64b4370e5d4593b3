//! The generic negative acknowledgement: one code byte.

use super::payload::{DoipPayload, PayloadError, PayloadType};
use crate::doip::definitions::DOIP_GENERIC_NACK_LEN;
use crate::doip::message::nack_codes::NackCodes;
use vstd::prelude::*;

verus! {

/// The refusal of a message as a whole, with its reason.
#[derive(Copy, Clone, Debug, PartialEq, Eq)]
pub struct GenericNack {
    /// Why the message was refused.
    pub nack_code: NackCodes,
}

/// Why a buffer holds no generic negative acknowledgement.
#[derive(Copy, Clone, Debug, PartialEq, Eq)]
pub enum GenericNackError {
    /// The buffer is shorter than the payload.
    InvalidLength,
    /// A field reaches past the end of the buffer. The length check rules
    /// this out; no buffer is decoded to it.
    InvalidIndexRange,
    /// The code byte is no negative acknowledgement code.
    InvalidNackCode,
}

impl View for GenericNack {
    type V = GenericNack;

    open spec fn view(&self) -> GenericNack {
        *self
    }
}

impl GenericNack {
    /// The width of the payload: the fewest bytes that hold a generic negative
    /// acknowledgement.
    pub const MIN_LENGTH: usize = DOIP_GENERIC_NACK_LEN;

    /// Every value is encoded in exactly 1 byte.
    pub proof fn lemma_wire_len(value: GenericNack)
        ensures
            Self::wire(value).len() == Self::MIN_LENGTH,
    {
    }

    /// A buffer shorter than the payload is rejected as `InvalidLength`,
    /// whatever it holds.
    pub proof fn lemma_too_short(bytes: Seq<u8>)
        requires
            bytes.len() < Self::MIN_LENGTH,
        ensures
            Self::parse(bytes) == Err::<GenericNack, PayloadError>(
                PayloadError::GenericNackError(GenericNackError::InvalidLength),
            ),
    {
    }

    /// A buffer is accepted exactly when it holds at least 1 byte and byte 0 is a
    /// defined negative acknowledgement code. Bytes past the payload are not
    /// read.
    pub proof fn lemma_accepted(bytes: Seq<u8>)
        ensures
            Self::parse(bytes) is Ok <==> {
                &&& bytes.len() >= Self::MIN_LENGTH
                &&& NackCodes::is_defined(bytes[0])
            },
    {
    }

    /// A buffer that is long enough and holds an undefined negative
    /// acknowledgement code is rejected as `InvalidNackCode`.
    pub proof fn lemma_invalid_nack_code(bytes: Seq<u8>)
        requires
            bytes.len() >= Self::MIN_LENGTH,
            !NackCodes::is_defined(bytes[0]),
        ensures
            Self::parse(bytes) == Err::<GenericNack, PayloadError>(
                PayloadError::GenericNackError(GenericNackError::InvalidNackCode),
            ),
    {
    }
}

impl DoipPayload for GenericNack {
    open spec fn kind(value: GenericNack) -> PayloadType {
        PayloadType::GenericNack
    }

    open spec fn wire(value: GenericNack) -> Seq<u8> {
        seq![value.nack_code.to_byte()]
    }

    open spec fn parse(bytes: Seq<u8>) -> Result<GenericNack, PayloadError> {
        if bytes.len() < Self::MIN_LENGTH {
            Err(PayloadError::GenericNackError(GenericNackError::InvalidLength))
        } else {
            match NackCodes::from_byte(bytes[0]) {
                None => Err(PayloadError::GenericNackError(GenericNackError::InvalidNackCode)),
                Some(nack_code) => Ok(GenericNack { nack_code }),
            }
        }
    }

    proof fn lemma_round_trip(value: GenericNack) {
        value.nack_code.lemma_to_byte_round_trip();
    }

    proof fn lemma_parsed_prefix(bytes: Seq<u8>) {
        if let Ok(value) = Self::parse(bytes) {
            NackCodes::lemma_from_byte(bytes[0]);
            assert(Self::wire(value) =~= bytes.subrange(0, 1));
        }
    }

    fn payload_type(&self) -> (payload_type: PayloadType) {
        PayloadType::GenericNack
    }

    fn to_bytes(&self) -> (bytes: Vec<u8>) {
        let mut bytes: Vec<u8> = Vec::new();

        bytes.push(self.nack_code.to_byte());

        assert(bytes@ =~= Self::wire(*self));
        bytes
    }

    fn from_bytes(bytes: &[u8]) -> (result: Result<GenericNack, PayloadError>) {
        // Check that bytes have sufficient length
        if bytes.len() < Self::MIN_LENGTH {
            return Err(PayloadError::GenericNackError(GenericNackError::InvalidLength));
        }

        let nack_code_offset: usize = 0;
        let nack_code = match NackCodes::from_byte(bytes[nack_code_offset]) {
            Some(code) => code,
            None => return Err(PayloadError::GenericNackError(GenericNackError::InvalidNackCode)),
        };

        Ok(GenericNack { nack_code })
    }
}

} // verus!
