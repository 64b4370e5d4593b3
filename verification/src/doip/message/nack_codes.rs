//! Codes of the generic negative acknowledgement.

use vstd::prelude::*;

verus! {

/// Why a DoIP entity refused a message as a whole.
#[derive(Clone, Copy, Debug, PartialEq, Eq)]
pub enum NackCodes {
    /// The header's version bytes do not match (`0x00`).
    IncorrectPatternFormat,
    /// The payload type is not known (`0x01`).
    UnknownPayloadType,
    /// The message exceeds what the entity can take (`0x02`).
    MessageTooLarge,
    /// The entity has no memory left for the message (`0x03`).
    OutOfMemory,
    /// The payload length does not fit the payload type (`0x04`).
    InvalidPayloadLength,
}

impl NackCodes {
    /// Whether `byte` is the wire value of a negative acknowledgement code.
    pub open spec fn is_defined(byte: u8) -> bool {
        byte <= 0x04
    }

    /// The byte that stands for this code on the wire.
    pub open spec fn spec_to_byte(self) -> u8 {
        match self {
            NackCodes::IncorrectPatternFormat => 0x00,
            NackCodes::UnknownPayloadType => 0x01,
            NackCodes::MessageTooLarge => 0x02,
            NackCodes::OutOfMemory => 0x03,
            NackCodes::InvalidPayloadLength => 0x04,
        }
    }

    /// The code that `byte` stands for, or `None` where the table has no
    /// entry for it.
    pub open spec fn spec_from_byte(byte: u8) -> Option<NackCodes> {
        match byte {
            0x00 => Some(NackCodes::IncorrectPatternFormat),
            0x01 => Some(NackCodes::UnknownPayloadType),
            0x02 => Some(NackCodes::MessageTooLarge),
            0x03 => Some(NackCodes::OutOfMemory),
            0x04 => Some(NackCodes::InvalidPayloadLength),
            _ => None,
        }
    }

    /// Encodes the code as its wire byte.
    #[verifier::when_used_as_spec(spec_to_byte)]
    pub fn to_byte(self) -> (byte: u8)
        ensures
            byte == self.spec_to_byte(),
    {
        match self {
            NackCodes::IncorrectPatternFormat => 0x00,
            NackCodes::UnknownPayloadType => 0x01,
            NackCodes::MessageTooLarge => 0x02,
            NackCodes::OutOfMemory => 0x03,
            NackCodes::InvalidPayloadLength => 0x04,
        }
    }

    /// Decodes a wire byte; a byte outside the table gives `None`, never a
    /// default.
    #[verifier::when_used_as_spec(spec_from_byte)]
    pub fn from_byte(byte: u8) -> (code: Option<NackCodes>)
        ensures
            code == Self::spec_from_byte(byte),
    {
        match byte {
            0x00 => Some(NackCodes::IncorrectPatternFormat),
            0x01 => Some(NackCodes::UnknownPayloadType),
            0x02 => Some(NackCodes::MessageTooLarge),
            0x03 => Some(NackCodes::OutOfMemory),
            0x04 => Some(NackCodes::InvalidPayloadLength),
            _ => None,
        }
    }

    /// Every code is written as a defined byte and read back from it
    /// unchanged.
    pub proof fn lemma_to_byte_round_trip(self)
        ensures
            Self::is_defined(self.to_byte()),
            Self::from_byte(self.to_byte()) == Some(self),
    {
    }

    /// A byte decodes exactly when it is defined, and then to the one code
    /// whose wire value it is; every other byte is rejected.
    pub proof fn lemma_from_byte(byte: u8)
        ensures
            Self::from_byte(byte) is Some <==> Self::is_defined(byte),
            Self::from_byte(byte) matches Some(code) ==> code.to_byte() == byte,
    {
    }
}

} // verus!
