//! Further-action codes of a vehicle announcement.

use vstd::prelude::*;

verus! {

/// What a tester has to do after a vehicle announcement.
#[derive(Clone, Copy, Debug, PartialEq, Eq)]
pub enum ActionCode {
    /// No further action required (`0x00`).
    NoFurtherActionRequired,
    /// Reserved by ISO 13400 (`0x01`).
    ReservedByIso13400_01,
    /// Reserved by ISO 13400 (`0x02`).
    ReservedByIso13400_02,
    /// Reserved by ISO 13400 (`0x03`).
    ReservedByIso13400_03,
    /// Reserved by ISO 13400 (`0x04`).
    ReservedByIso13400_04,
    /// Reserved by ISO 13400 (`0x05`).
    ReservedByIso13400_05,
    /// Reserved by ISO 13400 (`0x06`).
    ReservedByIso13400_06,
    /// Reserved by ISO 13400 (`0x07`).
    ReservedByIso13400_07,
    /// Reserved by ISO 13400 (`0x08`).
    ReservedByIso13400_08,
    /// Reserved by ISO 13400 (`0x09`).
    ReservedByIso13400_09,
    /// Reserved by ISO 13400 (`0x0A`).
    ReservedByIso13400_0A,
    /// Reserved by ISO 13400 (`0x0B`).
    ReservedByIso13400_0B,
    /// Reserved by ISO 13400 (`0x0C`).
    ReservedByIso13400_0C,
    /// Reserved by ISO 13400 (`0x0D`).
    ReservedByIso13400_0D,
    /// Reserved by ISO 13400 (`0x0E`).
    ReservedByIso13400_0E,
    /// Reserved by ISO 13400 (`0x0F`).
    ReservedByIso13400_0F,
    /// Routing activation required to initiate central security (`0x10`).
    RoutingActivationRequired,
}

impl ActionCode {
    /// Whether `byte` is the wire value of a further-action code.
    pub open spec fn is_defined(byte: u8) -> bool {
        byte <= 0x10
    }

    /// The byte that stands for this code on the wire.
    pub open spec fn spec_to_byte(self) -> u8 {
        match self {
            ActionCode::NoFurtherActionRequired => 0x00,
            ActionCode::ReservedByIso13400_01 => 0x01,
            ActionCode::ReservedByIso13400_02 => 0x02,
            ActionCode::ReservedByIso13400_03 => 0x03,
            ActionCode::ReservedByIso13400_04 => 0x04,
            ActionCode::ReservedByIso13400_05 => 0x05,
            ActionCode::ReservedByIso13400_06 => 0x06,
            ActionCode::ReservedByIso13400_07 => 0x07,
            ActionCode::ReservedByIso13400_08 => 0x08,
            ActionCode::ReservedByIso13400_09 => 0x09,
            ActionCode::ReservedByIso13400_0A => 0x0A,
            ActionCode::ReservedByIso13400_0B => 0x0B,
            ActionCode::ReservedByIso13400_0C => 0x0C,
            ActionCode::ReservedByIso13400_0D => 0x0D,
            ActionCode::ReservedByIso13400_0E => 0x0E,
            ActionCode::ReservedByIso13400_0F => 0x0F,
            ActionCode::RoutingActivationRequired => 0x10,
        }
    }

    /// The code that `byte` stands for, or `None` where the table has no
    /// entry for it.
    pub open spec fn spec_from_byte(byte: u8) -> Option<ActionCode> {
        match byte {
            0x00 => Some(ActionCode::NoFurtherActionRequired),
            0x01 => Some(ActionCode::ReservedByIso13400_01),
            0x02 => Some(ActionCode::ReservedByIso13400_02),
            0x03 => Some(ActionCode::ReservedByIso13400_03),
            0x04 => Some(ActionCode::ReservedByIso13400_04),
            0x05 => Some(ActionCode::ReservedByIso13400_05),
            0x06 => Some(ActionCode::ReservedByIso13400_06),
            0x07 => Some(ActionCode::ReservedByIso13400_07),
            0x08 => Some(ActionCode::ReservedByIso13400_08),
            0x09 => Some(ActionCode::ReservedByIso13400_09),
            0x0A => Some(ActionCode::ReservedByIso13400_0A),
            0x0B => Some(ActionCode::ReservedByIso13400_0B),
            0x0C => Some(ActionCode::ReservedByIso13400_0C),
            0x0D => Some(ActionCode::ReservedByIso13400_0D),
            0x0E => Some(ActionCode::ReservedByIso13400_0E),
            0x0F => Some(ActionCode::ReservedByIso13400_0F),
            0x10 => Some(ActionCode::RoutingActivationRequired),
            _ => None,
        }
    }

    /// Encodes the code as its wire byte.
    #[verifier::when_used_as_spec(spec_to_byte)]
    pub fn to_byte(self) -> (byte: u8)
        ensures
            byte == self.spec_to_byte(),
    {
        match self {
            ActionCode::NoFurtherActionRequired => 0x00,
            ActionCode::ReservedByIso13400_01 => 0x01,
            ActionCode::ReservedByIso13400_02 => 0x02,
            ActionCode::ReservedByIso13400_03 => 0x03,
            ActionCode::ReservedByIso13400_04 => 0x04,
            ActionCode::ReservedByIso13400_05 => 0x05,
            ActionCode::ReservedByIso13400_06 => 0x06,
            ActionCode::ReservedByIso13400_07 => 0x07,
            ActionCode::ReservedByIso13400_08 => 0x08,
            ActionCode::ReservedByIso13400_09 => 0x09,
            ActionCode::ReservedByIso13400_0A => 0x0A,
            ActionCode::ReservedByIso13400_0B => 0x0B,
            ActionCode::ReservedByIso13400_0C => 0x0C,
            ActionCode::ReservedByIso13400_0D => 0x0D,
            ActionCode::ReservedByIso13400_0E => 0x0E,
            ActionCode::ReservedByIso13400_0F => 0x0F,
            ActionCode::RoutingActivationRequired => 0x10,
        }
    }

    /// Decodes a wire byte; a byte outside the table gives `None`, never a
    /// default.
    #[verifier::when_used_as_spec(spec_from_byte)]
    pub fn from_byte(byte: u8) -> (code: Option<ActionCode>)
        ensures
            code == Self::spec_from_byte(byte),
    {
        match byte {
            0x00 => Some(ActionCode::NoFurtherActionRequired),
            0x01 => Some(ActionCode::ReservedByIso13400_01),
            0x02 => Some(ActionCode::ReservedByIso13400_02),
            0x03 => Some(ActionCode::ReservedByIso13400_03),
            0x04 => Some(ActionCode::ReservedByIso13400_04),
            0x05 => Some(ActionCode::ReservedByIso13400_05),
            0x06 => Some(ActionCode::ReservedByIso13400_06),
            0x07 => Some(ActionCode::ReservedByIso13400_07),
            0x08 => Some(ActionCode::ReservedByIso13400_08),
            0x09 => Some(ActionCode::ReservedByIso13400_09),
            0x0A => Some(ActionCode::ReservedByIso13400_0A),
            0x0B => Some(ActionCode::ReservedByIso13400_0B),
            0x0C => Some(ActionCode::ReservedByIso13400_0C),
            0x0D => Some(ActionCode::ReservedByIso13400_0D),
            0x0E => Some(ActionCode::ReservedByIso13400_0E),
            0x0F => Some(ActionCode::ReservedByIso13400_0F),
            0x10 => Some(ActionCode::RoutingActivationRequired),
            _ => None,
        }
    }

    /// Every code is written as a defined byte and read back from it
    /// unchanged.
    pub proof fn lemma_to_byte_round_trip(self)
        ensures
            Self::is_defined(self.to_byte()),
            Self::from_byte(self.to_byte()) == Some(self),
    {
    }

    /// A byte decodes exactly when it is defined, and then to the one code
    /// whose wire value it is; every other byte is rejected.
    pub proof fn lemma_from_byte(byte: u8)
        ensures
            Self::from_byte(byte) is Some <==> Self::is_defined(byte),
            Self::from_byte(byte) matches Some(code) ==> code.to_byte() == byte,
    {
    }

    /// The text that describes this code.
    pub open spec fn label(self) -> Seq<char> {
        match self {
            ActionCode::NoFurtherActionRequired => "No further action required"@,
            ActionCode::RoutingActivationRequired => {
                "Routing activation required to initiate central security"@
            },
            _ => "Reserved by ISO 13400"@,
        }
    }

    /// Describes the code in words.
    pub fn to_string(&self) -> (text: String)
        ensures
            text@ == self.label(),
    {
        match self {
            ActionCode::NoFurtherActionRequired => "No further action required".to_owned(),
            ActionCode::RoutingActivationRequired => {
                "Routing activation required to initiate central security".to_owned()
            },
            _ => "Reserved by ISO 13400".to_owned(),
        }
    }
}

} // verus!
