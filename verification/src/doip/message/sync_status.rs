//! VIN/GID synchronisation status of a vehicle announcement.

use vstd::prelude::*;

verus! {

/// Whether the VIN and the GID of a vehicle are synchronised.
#[derive(Clone, Copy, Debug, PartialEq, Eq)]
pub enum SyncStatus {
    /// VIN and GID are synchronised (`0x00`).
    VinGinSynchronized,
    /// Reserved by ISO 13400 (`0x01`).
    ReservedByIso13400_01,
    /// Reserved by ISO 13400 (`0x02`).
    ReservedByIso13400_02,
    /// Reserved by ISO 13400 (`0x03`).
    ReservedByIso13400_03,
    /// Reserved by ISO 13400 (`0x04`).
    ReservedByIso13400_04,
    /// Reserved by ISO 13400 (`0x05`).
    ReservedByIso13400_05,
    /// Reserved by ISO 13400 (`0x06`).
    ReservedByIso13400_06,
    /// Reserved by ISO 13400 (`0x07`).
    ReservedByIso13400_07,
    /// Reserved by ISO 13400 (`0x08`).
    ReservedByIso13400_08,
    /// Reserved by ISO 13400 (`0x09`).
    ReservedByIso13400_09,
    /// Reserved by ISO 13400 (`0x0A`).
    ReservedByIso13400_0A,
    /// Reserved by ISO 13400 (`0x0B`).
    ReservedByIso13400_0B,
    /// Reserved by ISO 13400 (`0x0C`).
    ReservedByIso13400_0C,
    /// Reserved by ISO 13400 (`0x0D`).
    ReservedByIso13400_0D,
    /// Reserved by ISO 13400 (`0x0E`).
    ReservedByIso13400_0E,
    /// Reserved by ISO 13400 (`0x0F`).
    ReservedByIso13400_0F,
    /// VIN and GID are not synchronised (`0x10`).
    VinGinNotSynchronised,
}

impl SyncStatus {
    /// Whether `byte` is the wire value of a synchronisation status.
    pub open spec fn is_defined(byte: u8) -> bool {
        byte <= 0x10
    }

    /// The byte that stands for this code on the wire.
    pub open spec fn spec_to_byte(self) -> u8 {
        match self {
            SyncStatus::VinGinSynchronized => 0x00,
            SyncStatus::ReservedByIso13400_01 => 0x01,
            SyncStatus::ReservedByIso13400_02 => 0x02,
            SyncStatus::ReservedByIso13400_03 => 0x03,
            SyncStatus::ReservedByIso13400_04 => 0x04,
            SyncStatus::ReservedByIso13400_05 => 0x05,
            SyncStatus::ReservedByIso13400_06 => 0x06,
            SyncStatus::ReservedByIso13400_07 => 0x07,
            SyncStatus::ReservedByIso13400_08 => 0x08,
            SyncStatus::ReservedByIso13400_09 => 0x09,
            SyncStatus::ReservedByIso13400_0A => 0x0A,
            SyncStatus::ReservedByIso13400_0B => 0x0B,
            SyncStatus::ReservedByIso13400_0C => 0x0C,
            SyncStatus::ReservedByIso13400_0D => 0x0D,
            SyncStatus::ReservedByIso13400_0E => 0x0E,
            SyncStatus::ReservedByIso13400_0F => 0x0F,
            SyncStatus::VinGinNotSynchronised => 0x10,
        }
    }

    /// The code that `byte` stands for, or `None` where the table has no
    /// entry for it.
    pub open spec fn spec_from_byte(byte: u8) -> Option<SyncStatus> {
        match byte {
            0x00 => Some(SyncStatus::VinGinSynchronized),
            0x01 => Some(SyncStatus::ReservedByIso13400_01),
            0x02 => Some(SyncStatus::ReservedByIso13400_02),
            0x03 => Some(SyncStatus::ReservedByIso13400_03),
            0x04 => Some(SyncStatus::ReservedByIso13400_04),
            0x05 => Some(SyncStatus::ReservedByIso13400_05),
            0x06 => Some(SyncStatus::ReservedByIso13400_06),
            0x07 => Some(SyncStatus::ReservedByIso13400_07),
            0x08 => Some(SyncStatus::ReservedByIso13400_08),
            0x09 => Some(SyncStatus::ReservedByIso13400_09),
            0x0A => Some(SyncStatus::ReservedByIso13400_0A),
            0x0B => Some(SyncStatus::ReservedByIso13400_0B),
            0x0C => Some(SyncStatus::ReservedByIso13400_0C),
            0x0D => Some(SyncStatus::ReservedByIso13400_0D),
            0x0E => Some(SyncStatus::ReservedByIso13400_0E),
            0x0F => Some(SyncStatus::ReservedByIso13400_0F),
            0x10 => Some(SyncStatus::VinGinNotSynchronised),
            _ => None,
        }
    }

    /// Encodes the code as its wire byte.
    #[verifier::when_used_as_spec(spec_to_byte)]
    pub fn to_byte(self) -> (byte: u8)
        ensures
            byte == self.spec_to_byte(),
    {
        match self {
            SyncStatus::VinGinSynchronized => 0x00,
            SyncStatus::ReservedByIso13400_01 => 0x01,
            SyncStatus::ReservedByIso13400_02 => 0x02,
            SyncStatus::ReservedByIso13400_03 => 0x03,
            SyncStatus::ReservedByIso13400_04 => 0x04,
            SyncStatus::ReservedByIso13400_05 => 0x05,
            SyncStatus::ReservedByIso13400_06 => 0x06,
            SyncStatus::ReservedByIso13400_07 => 0x07,
            SyncStatus::ReservedByIso13400_08 => 0x08,
            SyncStatus::ReservedByIso13400_09 => 0x09,
            SyncStatus::ReservedByIso13400_0A => 0x0A,
            SyncStatus::ReservedByIso13400_0B => 0x0B,
            SyncStatus::ReservedByIso13400_0C => 0x0C,
            SyncStatus::ReservedByIso13400_0D => 0x0D,
            SyncStatus::ReservedByIso13400_0E => 0x0E,
            SyncStatus::ReservedByIso13400_0F => 0x0F,
            SyncStatus::VinGinNotSynchronised => 0x10,
        }
    }

    /// Decodes a wire byte; a byte outside the table gives `None`, never a
    /// default.
    #[verifier::when_used_as_spec(spec_from_byte)]
    pub fn from_byte(byte: u8) -> (code: Option<SyncStatus>)
        ensures
            code == Self::spec_from_byte(byte),
    {
        match byte {
            0x00 => Some(SyncStatus::VinGinSynchronized),
            0x01 => Some(SyncStatus::ReservedByIso13400_01),
            0x02 => Some(SyncStatus::ReservedByIso13400_02),
            0x03 => Some(SyncStatus::ReservedByIso13400_03),
            0x04 => Some(SyncStatus::ReservedByIso13400_04),
            0x05 => Some(SyncStatus::ReservedByIso13400_05),
            0x06 => Some(SyncStatus::ReservedByIso13400_06),
            0x07 => Some(SyncStatus::ReservedByIso13400_07),
            0x08 => Some(SyncStatus::ReservedByIso13400_08),
            0x09 => Some(SyncStatus::ReservedByIso13400_09),
            0x0A => Some(SyncStatus::ReservedByIso13400_0A),
            0x0B => Some(SyncStatus::ReservedByIso13400_0B),
            0x0C => Some(SyncStatus::ReservedByIso13400_0C),
            0x0D => Some(SyncStatus::ReservedByIso13400_0D),
            0x0E => Some(SyncStatus::ReservedByIso13400_0E),
            0x0F => Some(SyncStatus::ReservedByIso13400_0F),
            0x10 => Some(SyncStatus::VinGinNotSynchronised),
            _ => None,
        }
    }

    /// Every code is written as a defined byte and read back from it
    /// unchanged.
    pub proof fn lemma_to_byte_round_trip(self)
        ensures
            Self::is_defined(self.to_byte()),
            Self::from_byte(self.to_byte()) == Some(self),
    {
    }

    /// A byte decodes exactly when it is defined, and then to the one code
    /// whose wire value it is; every other byte is rejected.
    pub proof fn lemma_from_byte(byte: u8)
        ensures
            Self::from_byte(byte) is Some <==> Self::is_defined(byte),
            Self::from_byte(byte) matches Some(code) ==> code.to_byte() == byte,
    {
    }
}

} // verus!
