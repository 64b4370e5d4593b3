//! Response codes of a routing activation response.

use vstd::prelude::*;

verus! {

/// How a DoIP entity answered a routing activation request.
#[derive(Clone, Copy, Debug, PartialEq, Eq)]
pub enum ActivationCode {
    /// Denied: the source address is unknown (`0x00`).
    DeniedUnknownSourceAddress,
    /// Denied: all TCP sockets are in use (`0x01`).
    DeniedTCPSocketsFull,
    /// Denied: the TCP socket is already connected (`0x02`).
    DeniedTCPSocketAlreadyConnected,
    /// Denied: the source address is already active (`0x03`).
    DeniedSourceIsAlreadyActive,
    /// Denied: authentication is missing (`0x04`).
    DeniedMissingAuthentication,
    /// Denied: the confirmation was rejected (`0x05`).
    DeniedRejectedConfirmation,
    /// Denied: the activation type is not supported (`0x06`).
    DeniedUnsupportedRoutingActivationType,
    /// Denied: an encrypted TLS connection is required (`0x07`).
    DeniedRequestEncryptedTLSConnection,
    /// Reserved by ISO 13400 (`0x08`).
    ReservedByIso13400_08,
    /// Reserved by ISO 13400 (`0x09`).
    ReservedByIso13400_09,
    /// Reserved by ISO 13400 (`0x0A`).
    ReservedByIso13400_0A,
    /// Reserved by ISO 13400 (`0x0B`).
    ReservedByIso13400_0B,
    /// Reserved by ISO 13400 (`0x0C`).
    ReservedByIso13400_0C,
    /// Reserved by ISO 13400 (`0x0D`).
    ReservedByIso13400_0D,
    /// Reserved by ISO 13400 (`0x0E`).
    ReservedByIso13400_0E,
    /// Reserved by ISO 13400 (`0x0F`).
    ReservedByIso13400_0F,
    /// Routing was activated (`0x10`).
    SuccessfullyActivated,
    /// Routing will be activated once confirmed (`0x11`).
    ActivatedConfirmationRequired,
}

impl ActivationCode {
    /// Whether `byte` is the wire value of an activation response code.
    pub open spec fn is_defined(byte: u8) -> bool {
        byte <= 0x11
    }

    /// The byte that stands for this code on the wire.
    pub open spec fn spec_to_byte(self) -> u8 {
        match self {
            ActivationCode::DeniedUnknownSourceAddress => 0x00,
            ActivationCode::DeniedTCPSocketsFull => 0x01,
            ActivationCode::DeniedTCPSocketAlreadyConnected => 0x02,
            ActivationCode::DeniedSourceIsAlreadyActive => 0x03,
            ActivationCode::DeniedMissingAuthentication => 0x04,
            ActivationCode::DeniedRejectedConfirmation => 0x05,
            ActivationCode::DeniedUnsupportedRoutingActivationType => 0x06,
            ActivationCode::DeniedRequestEncryptedTLSConnection => 0x07,
            ActivationCode::ReservedByIso13400_08 => 0x08,
            ActivationCode::ReservedByIso13400_09 => 0x09,
            ActivationCode::ReservedByIso13400_0A => 0x0A,
            ActivationCode::ReservedByIso13400_0B => 0x0B,
            ActivationCode::ReservedByIso13400_0C => 0x0C,
            ActivationCode::ReservedByIso13400_0D => 0x0D,
            ActivationCode::ReservedByIso13400_0E => 0x0E,
            ActivationCode::ReservedByIso13400_0F => 0x0F,
            ActivationCode::SuccessfullyActivated => 0x10,
            ActivationCode::ActivatedConfirmationRequired => 0x11,
        }
    }

    /// The code that `byte` stands for, or `None` where the table has no
    /// entry for it.
    pub open spec fn spec_from_byte(byte: u8) -> Option<ActivationCode> {
        match byte {
            0x00 => Some(ActivationCode::DeniedUnknownSourceAddress),
            0x01 => Some(ActivationCode::DeniedTCPSocketsFull),
            0x02 => Some(ActivationCode::DeniedTCPSocketAlreadyConnected),
            0x03 => Some(ActivationCode::DeniedSourceIsAlreadyActive),
            0x04 => Some(ActivationCode::DeniedMissingAuthentication),
            0x05 => Some(ActivationCode::DeniedRejectedConfirmation),
            0x06 => Some(ActivationCode::DeniedUnsupportedRoutingActivationType),
            0x07 => Some(ActivationCode::DeniedRequestEncryptedTLSConnection),
            0x08 => Some(ActivationCode::ReservedByIso13400_08),
            0x09 => Some(ActivationCode::ReservedByIso13400_09),
            0x0A => Some(ActivationCode::ReservedByIso13400_0A),
            0x0B => Some(ActivationCode::ReservedByIso13400_0B),
            0x0C => Some(ActivationCode::ReservedByIso13400_0C),
            0x0D => Some(ActivationCode::ReservedByIso13400_0D),
            0x0E => Some(ActivationCode::ReservedByIso13400_0E),
            0x0F => Some(ActivationCode::ReservedByIso13400_0F),
            0x10 => Some(ActivationCode::SuccessfullyActivated),
            0x11 => Some(ActivationCode::ActivatedConfirmationRequired),
            _ => None,
        }
    }

    /// Encodes the code as its wire byte.
    #[verifier::when_used_as_spec(spec_to_byte)]
    pub fn to_byte(self) -> (byte: u8)
        ensures
            byte == self.spec_to_byte(),
    {
        match self {
            ActivationCode::DeniedUnknownSourceAddress => 0x00,
            ActivationCode::DeniedTCPSocketsFull => 0x01,
            ActivationCode::DeniedTCPSocketAlreadyConnected => 0x02,
            ActivationCode::DeniedSourceIsAlreadyActive => 0x03,
            ActivationCode::DeniedMissingAuthentication => 0x04,
            ActivationCode::DeniedRejectedConfirmation => 0x05,
            ActivationCode::DeniedUnsupportedRoutingActivationType => 0x06,
            ActivationCode::DeniedRequestEncryptedTLSConnection => 0x07,
            ActivationCode::ReservedByIso13400_08 => 0x08,
            ActivationCode::ReservedByIso13400_09 => 0x09,
            ActivationCode::ReservedByIso13400_0A => 0x0A,
            ActivationCode::ReservedByIso13400_0B => 0x0B,
            ActivationCode::ReservedByIso13400_0C => 0x0C,
            ActivationCode::ReservedByIso13400_0D => 0x0D,
            ActivationCode::ReservedByIso13400_0E => 0x0E,
            ActivationCode::ReservedByIso13400_0F => 0x0F,
            ActivationCode::SuccessfullyActivated => 0x10,
            ActivationCode::ActivatedConfirmationRequired => 0x11,
        }
    }

    /// Decodes a wire byte; a byte outside the table gives `None`, never a
    /// default.
    #[verifier::when_used_as_spec(spec_from_byte)]
    pub fn from_byte(byte: u8) -> (code: Option<ActivationCode>)
        ensures
            code == Self::spec_from_byte(byte),
    {
        match byte {
            0x00 => Some(ActivationCode::DeniedUnknownSourceAddress),
            0x01 => Some(ActivationCode::DeniedTCPSocketsFull),
            0x02 => Some(ActivationCode::DeniedTCPSocketAlreadyConnected),
            0x03 => Some(ActivationCode::DeniedSourceIsAlreadyActive),
            0x04 => Some(ActivationCode::DeniedMissingAuthentication),
            0x05 => Some(ActivationCode::DeniedRejectedConfirmation),
            0x06 => Some(ActivationCode::DeniedUnsupportedRoutingActivationType),
            0x07 => Some(ActivationCode::DeniedRequestEncryptedTLSConnection),
            0x08 => Some(ActivationCode::ReservedByIso13400_08),
            0x09 => Some(ActivationCode::ReservedByIso13400_09),
            0x0A => Some(ActivationCode::ReservedByIso13400_0A),
            0x0B => Some(ActivationCode::ReservedByIso13400_0B),
            0x0C => Some(ActivationCode::ReservedByIso13400_0C),
            0x0D => Some(ActivationCode::ReservedByIso13400_0D),
            0x0E => Some(ActivationCode::ReservedByIso13400_0E),
            0x0F => Some(ActivationCode::ReservedByIso13400_0F),
            0x10 => Some(ActivationCode::SuccessfullyActivated),
            0x11 => Some(ActivationCode::ActivatedConfirmationRequired),
            _ => None,
        }
    }

    /// Every code is written as a defined byte and read back from it
    /// unchanged.
    pub proof fn lemma_to_byte_round_trip(self)
        ensures
            Self::is_defined(self.to_byte()),
            Self::from_byte(self.to_byte()) == Some(self),
    {
    }

    /// A byte decodes exactly when it is defined, and then to the one code
    /// whose wire value it is; every other byte is rejected.
    pub proof fn lemma_from_byte(byte: u8)
        ensures
            Self::from_byte(byte) is Some <==> Self::is_defined(byte),
            Self::from_byte(byte) matches Some(code) ==> code.to_byte() == byte,
    {
    }
}

} // verus!
