//! The message envelope: a header together with the payload that it
//! announces.

use crate::doip::definitions::DOIP_HEADER_LEN;
use crate::doip::header::header::{Header, HeaderError};
use crate::doip::header::payload::payload::{PayloadError, PayloadType};
use crate::doip::message::payload::{Payload, PayloadView};
use vstd::prelude::*;

verus! {

/// A DoIP message: the header and the payload that it announces.
#[derive(Clone, Debug, PartialEq, Eq)]
pub struct Message {
    /// The framing prefix.
    pub header: Header,
    /// What the message carries.
    pub payload: Payload,
}

/// A message as a mathematical value.
pub struct MessageView {
    pub header: Header,
    pub payload: PayloadView,
}

/// Why a buffer holds no message: its header is wrong, or what follows
/// the header is no payload of the type that the header names.
#[derive(Copy, Clone, Debug, PartialEq, Eq)]
pub enum MessageError {
    /// The buffer does not start with the header of the message it holds.
    HeaderError(HeaderError),
    /// The payload type is not known, or the bytes after the header are no
    /// payload of that type.
    PayloadError(PayloadError),
}

impl View for Message {
    type V = MessageView;

    open spec fn view(&self) -> MessageView {
        MessageView { header: self.header, payload: self.payload@ }
    }
}

impl Message {
    /// The invariant of a message: the payload type in the header is the
    /// code of the kind of payload that the message carries.
    pub open spec fn well_formed(value: MessageView) -> bool {
        value.header.payload_type == Payload::kind(value.payload).code()
    }

    /// Whether the header fits the payload: it carries the complement of
    /// its version and counts the bytes of the payload.
    pub open spec fn well_framed(value: MessageView) -> bool {
        value.header.frames(Payload::wire_len(value.payload))
    }

    /// The bytes of the message: the header, then the payload.
    pub open spec fn wire(value: MessageView) -> Seq<u8> {
        value.header.wire() + Payload::wire(value.payload)
    }

    /// The message that fills the buffer `bytes`, or the reason why
    /// `bytes` is none: the header is decoded first, its payload type is
    /// looked up, and the bytes after the header are decoded as a payload
    /// of that type.
    pub open spec fn parse(bytes: Seq<u8>) -> Result<MessageView, MessageError> {
        match Header::parse(bytes) {
            Err(error) => Err(MessageError::HeaderError(error)),
            Ok(header) => match PayloadType::from_code(header.payload_type) {
                Err(error) => Err(MessageError::PayloadError(error)),
                Ok(payload_type) => match Payload::parse(
                    payload_type,
                    bytes.skip(DOIP_HEADER_LEN as int),
                ) {
                    Err(error) => Err(MessageError::PayloadError(error)),
                    Ok(payload) => Ok(MessageView { header, payload }),
                },
            },
        }
    }

    /// Puts a payload behind the header that announces it. The result is
    /// `None` where the payload has more bytes than a header can count.
    pub fn new(protocol_version: u8, payload: Payload) -> (message: Option<Message>)
        ensures
            match message {
                Some(message) => {
                    &&& message.payload@ == payload@
                    &&& message.header.protocol_version == protocol_version
                    &&& Self::well_formed(message@)
                    &&& Self::well_framed(message@)
                },
                None => Payload::wire_len(payload@) > u32::MAX,
            },
    {
        match payload.payload_length() {
            Some(payload_length) => {
                let header = Header::new(protocol_version, payload.payload_type(), payload_length);
                Some(Message { header, payload })
            },
            None => None,
        }
    }

    /// Encodes the message: the header as it stands, then the payload.
    pub fn to_bytes(&self) -> (bytes: Vec<u8>)
        ensures
            bytes@ == Self::wire(self@),
    {
        let mut bytes: Vec<u8> = self.header.to_bytes();
        let payload: Vec<u8> = self.payload.to_bytes();

        bytes.extend_from_slice(payload.as_slice());

        bytes
    }

    /// Decodes the message that fills `bytes`. A decoded message is well
    /// formed.
    pub fn from_bytes(bytes: &[u8]) -> (result: Result<Message, MessageError>)
        ensures
            match result {
                Ok(message) => Self::parse(bytes@) == Ok::<MessageView, MessageError>(message@),
                Err(error) => Self::parse(bytes@) == Err::<MessageView, MessageError>(error),
            },
            result matches Ok(message) ==> Self::well_formed(message@),
    {
        proof {
            Self::lemma_parsed_well_formed(bytes@);
        }
        let header = match Header::from_bytes(bytes) {
            Ok(header) => header,
            Err(error) => return Err(MessageError::HeaderError(error)),
        };

        let payload_type = match PayloadType::from_code(header.payload_type) {
            Ok(payload_type) => payload_type,
            Err(error) => return Err(MessageError::PayloadError(error)),
        };

        let payload_bytes = &bytes[DOIP_HEADER_LEN..bytes.len()];
        assert(payload_bytes@ =~= bytes@.skip(DOIP_HEADER_LEN as int));
        let payload = match Payload::from_bytes(payload_type, payload_bytes) {
            Ok(payload) => payload,
            Err(error) => return Err(MessageError::PayloadError(error)),
        };

        Ok(Message { header, payload })
    }

    /// Every decoded message is well formed: its header names the kind of
    /// payload that was decoded.
    pub proof fn lemma_parsed_well_formed(bytes: Seq<u8>)
        ensures
            Self::parse(bytes) matches Ok(value) ==> Self::well_formed(value),
    {
        if let Ok(header) = Header::parse(bytes) {
            PayloadType::lemma_from_code(header.payload_type);
            if let Ok(payload_type) = PayloadType::from_code(header.payload_type) {
                Payload::lemma_parsed_prefix(payload_type, bytes.skip(DOIP_HEADER_LEN as int));
            }
        }
    }

    /// A decoded message was read off the front of the buffer: its bytes
    /// are a prefix of the buffer.
    pub proof fn lemma_parsed_prefix(bytes: Seq<u8>)
        ensures
            Self::parse(bytes) matches Ok(value) ==> Self::wire(value).is_prefix_of(bytes),
    {
        if let Ok(value) = Self::parse(bytes) {
            Header::lemma_parsed_prefix(bytes);
            let payload_type = PayloadType::from_code(value.header.payload_type).unwrap();
            Payload::lemma_parsed_prefix(payload_type, bytes.skip(DOIP_HEADER_LEN as int));
            assert(Self::wire(value).is_prefix_of(bytes)) by {
                let payload = Payload::wire(value.payload);
                assert(payload.is_prefix_of(bytes.skip(DOIP_HEADER_LEN as int)));
                assert(Self::wire(value) =~= bytes.subrange(
                    0,
                    DOIP_HEADER_LEN + payload.len(),
                ));
            }
        }
    }

    /// Decoding the bytes of a well-formed, well-framed message gives the
    /// message back.
    pub proof fn lemma_round_trip(value: MessageView)
        requires
            Self::well_formed(value),
            Self::well_framed(value),
        ensures
            Self::parse(Self::wire(value)) == Ok::<MessageView, MessageError>(value),
    {
        let payload = Payload::wire(value.payload);
        let bytes = Self::wire(value);
        value.header.lemma_round_trip(payload);
        Payload::kind(value.payload).lemma_code_round_trip();
        assert(bytes.skip(DOIP_HEADER_LEN as int) =~= payload);
        Payload::lemma_round_trip(value.payload);
    }
}

} // verus!
