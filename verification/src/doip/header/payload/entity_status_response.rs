//! The entity status response: node type, socket counts and the largest
//! request the entity takes.

use super::payload::{DoipPayload, PayloadError, PayloadType};
use crate::doip::definitions::{
    DOIP_ENTITY_STATUS_RESPONSE_MCTS_LEN, DOIP_ENTITY_STATUS_RESPONSE_MDS_LEN,
    DOIP_ENTITY_STATUS_RESPONSE_NCTS_LEN, DOIP_ENTITY_STATUS_RESPONSE_NODE_LEN,
};
use crate::doip::message::node_type::NodeType;
use crate::doip::wire::{field, lemma_field, lemma_field_is, take};
use vstd::prelude::*;

verus! {

/// What a DoIP entity reports of itself.
#[derive(Copy, Clone, Debug, PartialEq, Eq)]
pub struct EntityStatusResponse {
    /// Whether the entity is a gateway or a node.
    pub node_type: NodeType,
    /// How many TCP sockets the entity can hold open at once.
    pub max_concurrent_sockets: [u8; 1],
    /// How many TCP sockets the entity holds open now.
    pub currently_open_sockets: [u8; 1],
    /// The largest request that the entity takes, in bytes, big-endian.
    pub max_data_size: [u8; 4],
}

/// Why a buffer holds no entity status response.
#[derive(Copy, Clone, Debug, PartialEq, Eq)]
pub enum EntityStatusResponseError {
    /// The buffer is shorter than the payload.
    InvalidLength,
    /// A field reaches past the end of the buffer. The length check rules
    /// this out; no buffer is decoded to it.
    InvalidIndexRange,
    /// The type byte is no node type.
    InvalidNodeType,
}

impl View for EntityStatusResponse {
    type V = EntityStatusResponse;

    open spec fn view(&self) -> EntityStatusResponse {
        *self
    }
}

impl EntityStatusResponse {
    /// The width of the payload: the fewest bytes that hold an entity status
    /// response.
    pub const MIN_LENGTH: usize = DOIP_ENTITY_STATUS_RESPONSE_NODE_LEN
        + DOIP_ENTITY_STATUS_RESPONSE_MCTS_LEN + DOIP_ENTITY_STATUS_RESPONSE_NCTS_LEN
        + DOIP_ENTITY_STATUS_RESPONSE_MDS_LEN;

    /// Every value is encoded in exactly 7 bytes.
    pub proof fn lemma_wire_len(value: EntityStatusResponse)
        ensures
            Self::wire(value).len() == Self::MIN_LENGTH,
    {
    }

    /// A buffer shorter than the payload is rejected as `InvalidLength`,
    /// whatever it holds.
    pub proof fn lemma_too_short(bytes: Seq<u8>)
        requires
            bytes.len() < Self::MIN_LENGTH,
        ensures
            Self::parse(bytes) == Err::<EntityStatusResponse, PayloadError>(
                PayloadError::EntityStatusResponseError(EntityStatusResponseError::InvalidLength),
            ),
    {
    }

    /// A buffer is accepted exactly when it holds at least 7 bytes and byte 0 is
    /// a defined node type. Bytes past the payload are not read.
    pub proof fn lemma_accepted(bytes: Seq<u8>)
        ensures
            Self::parse(bytes) is Ok <==> {
                &&& bytes.len() >= Self::MIN_LENGTH
                &&& NodeType::is_defined(bytes[0])
            },
    {
    }

    /// A buffer that is long enough and holds an undefined node type is rejected
    /// as `InvalidNodeType`.
    pub proof fn lemma_invalid_node_type(bytes: Seq<u8>)
        requires
            bytes.len() >= Self::MIN_LENGTH,
            !NodeType::is_defined(bytes[0]),
        ensures
            Self::parse(bytes) == Err::<EntityStatusResponse, PayloadError>(
                PayloadError::EntityStatusResponseError(EntityStatusResponseError::InvalidNodeType),
            ),
    {
    }
}

impl DoipPayload for EntityStatusResponse {
    open spec fn kind(value: EntityStatusResponse) -> PayloadType {
        PayloadType::EntityStatusResponse
    }

    open spec fn wire(value: EntityStatusResponse) -> Seq<u8> {
        seq![value.node_type.to_byte()] + value.max_concurrent_sockets@
            + value.currently_open_sockets@ + value.max_data_size@
    }

    open spec fn parse(bytes: Seq<u8>) -> Result<EntityStatusResponse, PayloadError> {
        if bytes.len() < Self::MIN_LENGTH {
            Err(PayloadError::EntityStatusResponseError(EntityStatusResponseError::InvalidLength))
        } else {
            match NodeType::from_byte(bytes[0]) {
                None => Err(
                    PayloadError::EntityStatusResponseError(
                        EntityStatusResponseError::InvalidNodeType,
                    ),
                ),
                Some(node_type) => Ok(
                    EntityStatusResponse {
                        node_type,
                        max_concurrent_sockets: field(bytes, 1),
                        currently_open_sockets: field(bytes, 2),
                        max_data_size: field(bytes, 3),
                    },
                ),
            }
        }
    }

    proof fn lemma_round_trip(value: EntityStatusResponse) {
        let bytes = Self::wire(value);
        value.node_type.lemma_to_byte_round_trip();
        assert(bytes.subrange(1, 2) =~= value.max_concurrent_sockets@);
        lemma_field_is::<1>(bytes, 1, value.max_concurrent_sockets);
        assert(bytes.subrange(2, 3) =~= value.currently_open_sockets@);
        lemma_field_is::<1>(bytes, 2, value.currently_open_sockets);
        assert(bytes.subrange(3, 7) =~= value.max_data_size@);
        lemma_field_is::<4>(bytes, 3, value.max_data_size);
    }

    proof fn lemma_parsed_prefix(bytes: Seq<u8>) {
        if let Ok(value) = Self::parse(bytes) {
            NodeType::lemma_from_byte(bytes[0]);
            lemma_field::<1>(bytes, 1);
            lemma_field::<1>(bytes, 2);
            lemma_field::<4>(bytes, 3);
            assert(Self::wire(value) =~= bytes.subrange(0, 7));
        }
    }

    fn payload_type(&self) -> (payload_type: PayloadType) {
        PayloadType::EntityStatusResponse
    }

    fn to_bytes(&self) -> (bytes: Vec<u8>) {
        let mut bytes: Vec<u8> = Vec::new();

        bytes.push(self.node_type.to_byte());
        bytes.extend_from_slice(&self.max_concurrent_sockets);
        bytes.extend_from_slice(&self.currently_open_sockets);
        bytes.extend_from_slice(&self.max_data_size);

        assert(bytes@ =~= Self::wire(*self));
        bytes
    }

    fn from_bytes(bytes: &[u8]) -> (result: Result<EntityStatusResponse, PayloadError>) {
        // Check that bytes have sufficient length
        if bytes.len() < Self::MIN_LENGTH {
            return Err(
                PayloadError::EntityStatusResponseError(EntityStatusResponseError::InvalidLength),
            );
        }

        let node_type_offset: usize = 0;
        let node_type = match NodeType::from_byte(bytes[node_type_offset]) {
            Some(code) => code,
            None => return Err(
                PayloadError::EntityStatusResponseError(EntityStatusResponseError::InvalidNodeType),
            ),
        };

        let max_concurrent_sockets_offset: usize = node_type_offset
            + DOIP_ENTITY_STATUS_RESPONSE_NODE_LEN;
        let max_concurrent_sockets: [u8; 1] = match take(bytes, max_concurrent_sockets_offset) {
            Some(array) => array,
            None => return Err(
                PayloadError::EntityStatusResponseError(
                    EntityStatusResponseError::InvalidIndexRange,
                ),
            ),
        };

        let currently_open_sockets_offset: usize = max_concurrent_sockets_offset
            + DOIP_ENTITY_STATUS_RESPONSE_MCTS_LEN;
        let currently_open_sockets: [u8; 1] = match take(bytes, currently_open_sockets_offset) {
            Some(array) => array,
            None => return Err(
                PayloadError::EntityStatusResponseError(
                    EntityStatusResponseError::InvalidIndexRange,
                ),
            ),
        };

        let max_data_size_offset: usize = currently_open_sockets_offset
            + DOIP_ENTITY_STATUS_RESPONSE_NCTS_LEN;
        let max_data_size: [u8; 4] = match take(bytes, max_data_size_offset) {
            Some(array) => array,
            None => return Err(
                PayloadError::EntityStatusResponseError(
                    EntityStatusResponseError::InvalidIndexRange,
                ),
            ),
        };

        Ok(
            EntityStatusResponse {
                node_type,
                max_concurrent_sockets,
                currently_open_sockets,
                max_data_size,
            },
        )
    }
}

} // verus!
