//! Node types of an entity status response.

use vstd::prelude::*;

verus! {

/// The role of a DoIP entity in the vehicle network.
#[derive(Clone, Copy, Debug, PartialEq, Eq)]
pub enum NodeType {
    /// A DoIP gateway (`0x00`).
    DoipGateway,
    /// A DoIP node (`0x01`).
    DoipNode,
}

impl NodeType {
    /// Whether `byte` is the wire value of a node type.
    pub open spec fn is_defined(byte: u8) -> bool {
        byte <= 0x01
    }

    /// The byte that stands for this code on the wire.
    pub open spec fn spec_to_byte(self) -> u8 {
        match self {
            NodeType::DoipGateway => 0x00,
            NodeType::DoipNode => 0x01,
        }
    }

    /// The code that `byte` stands for, or `None` where the table has no
    /// entry for it.
    pub open spec fn spec_from_byte(byte: u8) -> Option<NodeType> {
        match byte {
            0x00 => Some(NodeType::DoipGateway),
            0x01 => Some(NodeType::DoipNode),
            _ => None,
        }
    }

    /// Encodes the code as its wire byte.
    #[verifier::when_used_as_spec(spec_to_byte)]
    pub fn to_byte(self) -> (byte: u8)
        ensures
            byte == self.spec_to_byte(),
    {
        match self {
            NodeType::DoipGateway => 0x00,
            NodeType::DoipNode => 0x01,
        }
    }

    /// Decodes a wire byte; a byte outside the table gives `None`, never a
    /// default.
    #[verifier::when_used_as_spec(spec_from_byte)]
    pub fn from_byte(byte: u8) -> (code: Option<NodeType>)
        ensures
            code == Self::spec_from_byte(byte),
    {
        match byte {
            0x00 => Some(NodeType::DoipGateway),
            0x01 => Some(NodeType::DoipNode),
            _ => None,
        }
    }

    /// Every code is written as a defined byte and read back from it
    /// unchanged.
    pub proof fn lemma_to_byte_round_trip(self)
        ensures
            Self::is_defined(self.to_byte()),
            Self::from_byte(self.to_byte()) == Some(self),
    {
    }

    /// A byte decodes exactly when it is defined, and then to the one code
    /// whose wire value it is; every other byte is rejected.
    pub proof fn lemma_from_byte(byte: u8)
        ensures
            Self::from_byte(byte) is Some <==> Self::is_defined(byte),
            Self::from_byte(byte) matches Some(code) ==> code.to_byte() == byte,
    {
    }
}

} // verus!
