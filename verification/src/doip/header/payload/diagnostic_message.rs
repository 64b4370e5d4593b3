//! The diagnostic message: source address, target address and the
//! diagnostic request or response itself.

use super::payload::{DoipPayload, PayloadError, PayloadType};
use crate::doip::definitions::{DOIP_DIAG_COMMON_SOURCE_LEN, DOIP_DIAG_COMMON_TARGET_LEN};
use crate::doip::wire::{field, lemma_field, lemma_field_is, take};
use vstd::prelude::*;

verus! {

/// Diagnostic data on its way between a tester and an ECU.
#[derive(Clone, Debug, PartialEq, Eq)]
pub struct DiagnosticMessage {
    /// The logical address of the sender.
    pub source_address: [u8; 2],
    /// The logical address of the receiver.
    pub target_address: [u8; 2],
    /// The diagnostic data. The codec carries it as it is.
    pub message: Vec<u8>,
}

/// A diagnostic message as a mathematical value: the addresses, and the
/// data as a sequence of bytes.
pub struct DiagnosticMessageView {
    pub source_address: [u8; 2],
    pub target_address: [u8; 2],
    pub message: Seq<u8>,
}

/// Why a buffer holds no diagnostic message.
#[derive(Copy, Clone, Debug, PartialEq, Eq)]
pub enum DiagnosticMessageError {
    /// The buffer is shorter than the two addresses.
    InvalidLength,
    /// A field reaches past the end of the buffer. The length check rules
    /// this out; no buffer is decoded to it.
    InvalidIndexRange,
}

impl View for DiagnosticMessage {
    type V = DiagnosticMessageView;

    open spec fn view(&self) -> DiagnosticMessageView {
        DiagnosticMessageView {
            source_address: self.source_address,
            target_address: self.target_address,
            message: self.message@,
        }
    }
}

impl DiagnosticMessage {
    /// The width of the fixed part: the fewest bytes that hold a diagnostic
    /// message, one without data.
    pub const MIN_LENGTH: usize = DOIP_DIAG_COMMON_SOURCE_LEN + DOIP_DIAG_COMMON_TARGET_LEN;

    /// A message is encoded in as many bytes as its data has, and four more
    /// for the addresses.
    pub proof fn lemma_wire_len(value: DiagnosticMessageView)
        ensures
            Self::wire(value).len() == Self::MIN_LENGTH + value.message.len(),
    {
    }

    /// A buffer shorter than the two addresses is rejected as
    /// `InvalidLength`, whatever it holds.
    pub proof fn lemma_too_short(bytes: Seq<u8>)
        requires
            bytes.len() < Self::MIN_LENGTH,
        ensures
            Self::parse(bytes) == Err::<DiagnosticMessageView, PayloadError>(
                PayloadError::DiagnosticMessageError(DiagnosticMessageError::InvalidLength),
            ),
    {
    }

    /// A buffer is accepted exactly when it holds at least 4 bytes, and then
    /// every byte after the addresses is data: none is checked, none is
    /// dropped.
    pub proof fn lemma_accepted(bytes: Seq<u8>)
        ensures
            Self::parse(bytes) is Ok <==> bytes.len() >= Self::MIN_LENGTH,
            Self::parse(bytes) matches Ok(value) ==> value.message == bytes.skip(4),
    {
    }
}

impl DoipPayload for DiagnosticMessage {
    open spec fn kind(value: DiagnosticMessageView) -> PayloadType {
        PayloadType::DiagnosticMessage
    }

    open spec fn wire(value: DiagnosticMessageView) -> Seq<u8> {
        value.source_address@ + value.target_address@ + value.message
    }

    open spec fn parse(bytes: Seq<u8>) -> Result<DiagnosticMessageView, PayloadError> {
        if bytes.len() < Self::MIN_LENGTH {
            Err(PayloadError::DiagnosticMessageError(DiagnosticMessageError::InvalidLength))
        } else {
            Ok(
                DiagnosticMessageView {
                    source_address: field(bytes, 0),
                    target_address: field(bytes, 2),
                    message: bytes.skip(4),
                },
            )
        }
    }

    proof fn lemma_round_trip(value: DiagnosticMessageView) {
        let bytes = Self::wire(value);
        assert(bytes.subrange(0, 2) =~= value.source_address@);
        lemma_field_is::<2>(bytes, 0, value.source_address);
        assert(bytes.subrange(2, 4) =~= value.target_address@);
        lemma_field_is::<2>(bytes, 2, value.target_address);
        assert(bytes.skip(4) =~= value.message);
    }

    proof fn lemma_parsed_prefix(bytes: Seq<u8>) {
        if let Ok(value) = Self::parse(bytes) {
            lemma_field::<2>(bytes, 0);
            lemma_field::<2>(bytes, 2);
            assert(Self::wire(value) =~= bytes);
        }
    }

    fn payload_type(&self) -> (payload_type: PayloadType) {
        PayloadType::DiagnosticMessage
    }

    fn to_bytes(&self) -> (bytes: Vec<u8>) {
        let mut bytes: Vec<u8> = Vec::new();

        bytes.extend_from_slice(&self.source_address);
        bytes.extend_from_slice(&self.target_address);
        bytes.extend_from_slice(self.message.as_slice());

        assert(bytes@ =~= Self::wire(self@));
        bytes
    }

    fn from_bytes(bytes: &[u8]) -> (result: Result<DiagnosticMessage, PayloadError>) {
        // Check that bytes have sufficient length
        if bytes.len() < Self::MIN_LENGTH {
            return Err(PayloadError::DiagnosticMessageError(DiagnosticMessageError::InvalidLength));
        }

        let source_address_offset: usize = 0;
        let source_address: [u8; 2] = match take(bytes, source_address_offset) {
            Some(array) => array,
            None => return Err(
                PayloadError::DiagnosticMessageError(DiagnosticMessageError::InvalidIndexRange),
            ),
        };

        let target_address_offset: usize = source_address_offset + DOIP_DIAG_COMMON_SOURCE_LEN;
        let target_address: [u8; 2] = match take(bytes, target_address_offset) {
            Some(array) => array,
            None => return Err(
                PayloadError::DiagnosticMessageError(DiagnosticMessageError::InvalidIndexRange),
            ),
        };

        let message_offset: usize = target_address_offset + DOIP_DIAG_COMMON_TARGET_LEN;
        let mut message: Vec<u8> = Vec::new();
        message.extend_from_slice(&bytes[message_offset..bytes.len()]);

        assert(message@ =~= bytes@.skip(4));
        Ok(DiagnosticMessage { source_address, target_address, message })
    }
}

} // verus!
