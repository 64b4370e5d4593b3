//! Codes of the positive diagnostic message acknowledgement.

use vstd::prelude::*;

verus! {

/// The confirmation that a diagnostic message was routed.
#[derive(Clone, Copy, Debug, PartialEq, Eq)]
pub enum DiagnosticAckCode {
    /// The message was received and routed (`0x00`).
    Acknowledged,
}

impl DiagnosticAckCode {
    /// Whether `byte` is the wire value of an acknowledgement code.
    pub open spec fn is_defined(byte: u8) -> bool {
        byte == 0x00
    }

    /// The byte that stands for this code on the wire.
    pub open spec fn spec_to_byte(self) -> u8 {
        match self {
            DiagnosticAckCode::Acknowledged => 0x00,
        }
    }

    /// The code that `byte` stands for, or `None` where the table has no
    /// entry for it.
    pub open spec fn spec_from_byte(byte: u8) -> Option<DiagnosticAckCode> {
        match byte {
            0x00 => Some(DiagnosticAckCode::Acknowledged),
            _ => None,
        }
    }

    /// Encodes the code as its wire byte.
    #[verifier::when_used_as_spec(spec_to_byte)]
    pub fn to_byte(self) -> (byte: u8)
        ensures
            byte == self.spec_to_byte(),
    {
        match self {
            DiagnosticAckCode::Acknowledged => 0x00,
        }
    }

    /// Decodes a wire byte; a byte outside the table gives `None`, never a
    /// default.
    #[verifier::when_used_as_spec(spec_from_byte)]
    pub fn from_byte(byte: u8) -> (code: Option<DiagnosticAckCode>)
        ensures
            code == Self::spec_from_byte(byte),
    {
        match byte {
            0x00 => Some(DiagnosticAckCode::Acknowledged),
            _ => None,
        }
    }

    /// Every code is written as a defined byte and read back from it
    /// unchanged.
    pub proof fn lemma_to_byte_round_trip(self)
        ensures
            Self::is_defined(self.to_byte()),
            Self::from_byte(self.to_byte()) == Some(self),
    {
    }

    /// A byte decodes exactly when it is defined, and then to the one code
    /// whose wire value it is; every other byte is rejected.
    pub proof fn lemma_from_byte(byte: u8)
        ensures
            Self::from_byte(byte) is Some <==> Self::is_defined(byte),
            Self::from_byte(byte) matches Some(code) ==> code.to_byte() == byte,
    {
    }
}

} // verus!
