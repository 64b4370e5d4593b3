//! The positive diagnostic message acknowledgement: source address, target
//! address and acknowledgement code.

use super::payload::{DoipPayload, PayloadError, PayloadType};
use crate::doip::definitions::{
    DOIP_DIAG_COMMON_SOURCE_LEN, DOIP_DIAG_COMMON_TARGET_LEN, DOIP_DIAG_MESSAGE_ACK_CODE_LEN,
};
use crate::doip::message::diagnostic_ack::DiagnosticAckCode;
use crate::doip::wire::{field, lemma_field, lemma_field_is, take};
use vstd::prelude::*;

verus! {

/// The confirmation that a diagnostic message reached its target.
#[derive(Copy, Clone, Debug, PartialEq, Eq)]
pub struct DiagnosticMessageAck {
    /// The logical address of the sender of the acknowledgement.
    pub source_address: [u8; 2],
    /// The logical address of the receiver of the acknowledgement.
    pub target_address: [u8; 2],
    /// The acknowledgement code.
    pub ack_code: DiagnosticAckCode,
}

/// Why a buffer holds no diagnostic message acknowledgement.
#[derive(Copy, Clone, Debug, PartialEq, Eq)]
pub enum DiagnosticMessageAckError {
    /// The buffer is shorter than the payload.
    InvalidLength,
    /// A field reaches past the end of the buffer. The length check rules
    /// this out; no buffer is decoded to it.
    InvalidIndexRange,
    /// The code byte is no acknowledgement code.
    InvalidAckCode,
}

impl View for DiagnosticMessageAck {
    type V = DiagnosticMessageAck;

    open spec fn view(&self) -> DiagnosticMessageAck {
        *self
    }
}

impl DiagnosticMessageAck {
    /// The width of the payload: the fewest bytes that hold a diagnostic message
    /// acknowledgement.
    pub const MIN_LENGTH: usize = DOIP_DIAG_COMMON_SOURCE_LEN + DOIP_DIAG_COMMON_TARGET_LEN
        + DOIP_DIAG_MESSAGE_ACK_CODE_LEN;

    /// Every value is encoded in exactly 5 bytes.
    pub proof fn lemma_wire_len(value: DiagnosticMessageAck)
        ensures
            Self::wire(value).len() == Self::MIN_LENGTH,
    {
    }

    /// A buffer shorter than the payload is rejected as `InvalidLength`,
    /// whatever it holds.
    pub proof fn lemma_too_short(bytes: Seq<u8>)
        requires
            bytes.len() < Self::MIN_LENGTH,
        ensures
            Self::parse(bytes) == Err::<DiagnosticMessageAck, PayloadError>(
                PayloadError::DiagnosticMessageAckError(DiagnosticMessageAckError::InvalidLength),
            ),
    {
    }

    /// A buffer is accepted exactly when it holds at least 5 bytes and byte 4 is
    /// a defined acknowledgement code. Bytes past the payload are not read.
    pub proof fn lemma_accepted(bytes: Seq<u8>)
        ensures
            Self::parse(bytes) is Ok <==> {
                &&& bytes.len() >= Self::MIN_LENGTH
                &&& DiagnosticAckCode::is_defined(bytes[4])
            },
    {
    }

    /// A buffer that is long enough and holds an undefined acknowledgement code
    /// is rejected as `InvalidAckCode`.
    pub proof fn lemma_invalid_ack_code(bytes: Seq<u8>)
        requires
            bytes.len() >= Self::MIN_LENGTH,
            !DiagnosticAckCode::is_defined(bytes[4]),
        ensures
            Self::parse(bytes) == Err::<DiagnosticMessageAck, PayloadError>(
                PayloadError::DiagnosticMessageAckError(DiagnosticMessageAckError::InvalidAckCode),
            ),
    {
    }
}

impl DoipPayload for DiagnosticMessageAck {
    open spec fn kind(value: DiagnosticMessageAck) -> PayloadType {
        PayloadType::DiagnosticMessageAck
    }

    open spec fn wire(value: DiagnosticMessageAck) -> Seq<u8> {
        value.source_address@ + value.target_address@ + seq![value.ack_code.to_byte()]
    }

    open spec fn parse(bytes: Seq<u8>) -> Result<DiagnosticMessageAck, PayloadError> {
        if bytes.len() < Self::MIN_LENGTH {
            Err(PayloadError::DiagnosticMessageAckError(DiagnosticMessageAckError::InvalidLength))
        } else {
            match DiagnosticAckCode::from_byte(bytes[4]) {
                None => Err(
                    PayloadError::DiagnosticMessageAckError(
                        DiagnosticMessageAckError::InvalidAckCode,
                    ),
                ),
                Some(ack_code) => Ok(
                    DiagnosticMessageAck {
                        source_address: field(bytes, 0),
                        target_address: field(bytes, 2),
                        ack_code,
                    },
                ),
            }
        }
    }

    proof fn lemma_round_trip(value: DiagnosticMessageAck) {
        let bytes = Self::wire(value);
        assert(bytes.subrange(0, 2) =~= value.source_address@);
        lemma_field_is::<2>(bytes, 0, value.source_address);
        assert(bytes.subrange(2, 4) =~= value.target_address@);
        lemma_field_is::<2>(bytes, 2, value.target_address);
        value.ack_code.lemma_to_byte_round_trip();
    }

    proof fn lemma_parsed_prefix(bytes: Seq<u8>) {
        if let Ok(value) = Self::parse(bytes) {
            lemma_field::<2>(bytes, 0);
            lemma_field::<2>(bytes, 2);
            DiagnosticAckCode::lemma_from_byte(bytes[4]);
            assert(Self::wire(value) =~= bytes.subrange(0, 5));
        }
    }

    fn payload_type(&self) -> (payload_type: PayloadType) {
        PayloadType::DiagnosticMessageAck
    }

    fn to_bytes(&self) -> (bytes: Vec<u8>) {
        let mut bytes: Vec<u8> = Vec::new();

        bytes.extend_from_slice(&self.source_address);
        bytes.extend_from_slice(&self.target_address);
        bytes.push(self.ack_code.to_byte());

        assert(bytes@ =~= Self::wire(*self));
        bytes
    }

    fn from_bytes(bytes: &[u8]) -> (result: Result<DiagnosticMessageAck, PayloadError>) {
        // Check that bytes have sufficient length
        if bytes.len() < Self::MIN_LENGTH {
            return Err(
                PayloadError::DiagnosticMessageAckError(DiagnosticMessageAckError::InvalidLength),
            );
        }

        let source_address_offset: usize = 0;
        let source_address: [u8; 2] = match take(bytes, source_address_offset) {
            Some(array) => array,
            None => return Err(
                PayloadError::DiagnosticMessageAckError(
                    DiagnosticMessageAckError::InvalidIndexRange,
                ),
            ),
        };

        let target_address_offset: usize = source_address_offset + DOIP_DIAG_COMMON_SOURCE_LEN;
        let target_address: [u8; 2] = match take(bytes, target_address_offset) {
            Some(array) => array,
            None => return Err(
                PayloadError::DiagnosticMessageAckError(
                    DiagnosticMessageAckError::InvalidIndexRange,
                ),
            ),
        };

        let ack_code_offset: usize = target_address_offset + DOIP_DIAG_COMMON_TARGET_LEN;
        let ack_code = match DiagnosticAckCode::from_byte(bytes[ack_code_offset]) {
            Some(code) => code,
            None => return Err(
                PayloadError::DiagnosticMessageAckError(DiagnosticMessageAckError::InvalidAckCode),
            ),
        };

        Ok(DiagnosticMessageAck { source_address, target_address, ack_code })
    }
}

} // verus!
