//! Codes of the negative diagnostic message acknowledgement.

use vstd::prelude::*;

verus! {

/// Why a diagnostic message was not routed to its target.
#[derive(Clone, Copy, Debug, PartialEq, Eq)]
pub enum DiagnosticNackNode {
    /// Reserved by ISO 13400 (`0x00`).
    ReservedByIso13400_00,
    /// Reserved by ISO 13400 (`0x01`).
    ReservedByIso13400_01,
    /// Invalid source address (`0x02`).
    InvalidSourceAddress,
    /// Unknown target address (`0x03`).
    UnknownTargetAddress,
    /// Diagnostic message too large (`0x04`).
    DiagnosticMessageTooLarge,
    /// Out of memory (`0x05`).
    OutOfMemory,
    /// Target unreachable (`0x06`).
    TargetUnreachable,
    /// Unknown network (`0x07`).
    UnknownNetwork,
    /// Transport protocol error (`0x08`).
    TransportProtocolError,
}

/// The name under which payloads refer to this table.
pub type DiagnosticNackCode = DiagnosticNackNode;

impl DiagnosticNackNode {
    /// Whether `byte` is the wire value of a negative acknowledgement code.
    pub open spec fn is_defined(byte: u8) -> bool {
        byte <= 0x08
    }

    /// The byte that stands for this code on the wire.
    pub open spec fn spec_to_byte(self) -> u8 {
        match self {
            DiagnosticNackNode::ReservedByIso13400_00 => 0x00,
            DiagnosticNackNode::ReservedByIso13400_01 => 0x01,
            DiagnosticNackNode::InvalidSourceAddress => 0x02,
            DiagnosticNackNode::UnknownTargetAddress => 0x03,
            DiagnosticNackNode::DiagnosticMessageTooLarge => 0x04,
            DiagnosticNackNode::OutOfMemory => 0x05,
            DiagnosticNackNode::TargetUnreachable => 0x06,
            DiagnosticNackNode::UnknownNetwork => 0x07,
            DiagnosticNackNode::TransportProtocolError => 0x08,
        }
    }

    /// The code that `byte` stands for, or `None` where the table has no
    /// entry for it.
    pub open spec fn spec_from_byte(byte: u8) -> Option<DiagnosticNackNode> {
        match byte {
            0x00 => Some(DiagnosticNackNode::ReservedByIso13400_00),
            0x01 => Some(DiagnosticNackNode::ReservedByIso13400_01),
            0x02 => Some(DiagnosticNackNode::InvalidSourceAddress),
            0x03 => Some(DiagnosticNackNode::UnknownTargetAddress),
            0x04 => Some(DiagnosticNackNode::DiagnosticMessageTooLarge),
            0x05 => Some(DiagnosticNackNode::OutOfMemory),
            0x06 => Some(DiagnosticNackNode::TargetUnreachable),
            0x07 => Some(DiagnosticNackNode::UnknownNetwork),
            0x08 => Some(DiagnosticNackNode::TransportProtocolError),
            _ => None,
        }
    }

    /// Encodes the code as its wire byte.
    #[verifier::when_used_as_spec(spec_to_byte)]
    pub fn to_byte(self) -> (byte: u8)
        ensures
            byte == self.spec_to_byte(),
    {
        match self {
            DiagnosticNackNode::ReservedByIso13400_00 => 0x00,
            DiagnosticNackNode::ReservedByIso13400_01 => 0x01,
            DiagnosticNackNode::InvalidSourceAddress => 0x02,
            DiagnosticNackNode::UnknownTargetAddress => 0x03,
            DiagnosticNackNode::DiagnosticMessageTooLarge => 0x04,
            DiagnosticNackNode::OutOfMemory => 0x05,
            DiagnosticNackNode::TargetUnreachable => 0x06,
            DiagnosticNackNode::UnknownNetwork => 0x07,
            DiagnosticNackNode::TransportProtocolError => 0x08,
        }
    }

    /// Decodes a wire byte; a byte outside the table gives `None`, never a
    /// default.
    #[verifier::when_used_as_spec(spec_from_byte)]
    pub fn from_byte(byte: u8) -> (code: Option<DiagnosticNackNode>)
        ensures
            code == Self::spec_from_byte(byte),
    {
        match byte {
            0x00 => Some(DiagnosticNackNode::ReservedByIso13400_00),
            0x01 => Some(DiagnosticNackNode::ReservedByIso13400_01),
            0x02 => Some(DiagnosticNackNode::InvalidSourceAddress),
            0x03 => Some(DiagnosticNackNode::UnknownTargetAddress),
            0x04 => Some(DiagnosticNackNode::DiagnosticMessageTooLarge),
            0x05 => Some(DiagnosticNackNode::OutOfMemory),
            0x06 => Some(DiagnosticNackNode::TargetUnreachable),
            0x07 => Some(DiagnosticNackNode::UnknownNetwork),
            0x08 => Some(DiagnosticNackNode::TransportProtocolError),
            _ => None,
        }
    }

    /// Every code is written as a defined byte and read back from it
    /// unchanged.
    pub proof fn lemma_to_byte_round_trip(self)
        ensures
            Self::is_defined(self.to_byte()),
            Self::from_byte(self.to_byte()) == Some(self),
    {
    }

    /// A byte decodes exactly when it is defined, and then to the one code
    /// whose wire value it is; every other byte is rejected.
    pub proof fn lemma_from_byte(byte: u8)
        ensures
            Self::from_byte(byte) is Some <==> Self::is_defined(byte),
            Self::from_byte(byte) matches Some(code) ==> code.to_byte() == byte,
    {
    }

    /// The text that describes this code.
    pub open spec fn label(self) -> Seq<char> {
        match self {
            DiagnosticNackNode::ReservedByIso13400_00 => "Reserved by ISO 13400"@,
            DiagnosticNackNode::ReservedByIso13400_01 => "Reserved by ISO 13400"@,
            DiagnosticNackNode::InvalidSourceAddress => "Invalid source address"@,
            DiagnosticNackNode::UnknownTargetAddress => "Unknown target address"@,
            DiagnosticNackNode::DiagnosticMessageTooLarge => "Diagnostic message too large"@,
            DiagnosticNackNode::OutOfMemory => "Out of memory"@,
            DiagnosticNackNode::TargetUnreachable => "Target unreachable"@,
            DiagnosticNackNode::UnknownNetwork => "Unknown network"@,
            DiagnosticNackNode::TransportProtocolError => "Transport protocol error"@,
        }
    }

    /// Describes the code in words.
    pub fn to_string(&self) -> (text: String)
        ensures
            text@ == self.label(),
    {
        match self {
            DiagnosticNackNode::ReservedByIso13400_00 => "Reserved by ISO 13400".to_owned(),
            DiagnosticNackNode::ReservedByIso13400_01 => "Reserved by ISO 13400".to_owned(),
            DiagnosticNackNode::InvalidSourceAddress => "Invalid source address".to_owned(),
            DiagnosticNackNode::UnknownTargetAddress => "Unknown target address".to_owned(),
            DiagnosticNackNode::DiagnosticMessageTooLarge => {
                "Diagnostic message too large".to_owned()
            },
            DiagnosticNackNode::OutOfMemory => "Out of memory".to_owned(),
            DiagnosticNackNode::TargetUnreachable => "Target unreachable".to_owned(),
            DiagnosticNackNode::UnknownNetwork => "Unknown network".to_owned(),
            DiagnosticNackNode::TransportProtocolError => "Transport protocol error".to_owned(),
        }
    }
}

} // verus!
