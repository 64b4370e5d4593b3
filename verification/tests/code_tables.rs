use doip_codec::doip::message::action_code::ActionCode;
use doip_codec::doip::message::activation_code::ActivationCode;
use doip_codec::doip::message::activation_type::ActivationType;
use doip_codec::doip::message::diagnostic_ack::DiagnosticAckCode;
use doip_codec::doip::message::diagnostic_nack::{DiagnosticNackCode, DiagnosticNackNode};
use doip_codec::doip::message::nack_codes::NackCodes;
use doip_codec::doip::message::node_type::NodeType;
use doip_codec::doip::message::power_mode::PowerMode;
use doip_codec::doip::message::sync_status::SyncStatus;

#[test]
fn nack_codes_table() {
    for byte in 0u8..=255 {
        match NackCodes::from_byte(byte) {
            Some(code) => {
                assert!(byte <= 0x04);
                assert_eq!(code.to_byte(), byte);
            }
            None => assert!(byte > 0x04),
        }
    }
    assert_eq!(NackCodes::from_byte(0x00), Some(NackCodes::IncorrectPatternFormat));
    assert_eq!(NackCodes::from_byte(0x01), Some(NackCodes::UnknownPayloadType));
    assert_eq!(NackCodes::from_byte(0x02), Some(NackCodes::MessageTooLarge));
    assert_eq!(NackCodes::from_byte(0x03), Some(NackCodes::OutOfMemory));
    assert_eq!(NackCodes::from_byte(0x04), Some(NackCodes::InvalidPayloadLength));
    assert_eq!(NackCodes::from_byte(0x05), None);
}

#[test]
fn activation_type_table() {
    for byte in 0u8..=255 {
        match ActivationType::from_byte(byte) {
            Some(code) => {
                assert!(byte <= 0x02);
                assert_eq!(code.to_byte(), byte);
            }
            None => assert!(byte > 0x02),
        }
    }
    assert_eq!(ActivationType::from_byte(0x00), Some(ActivationType::Default));
    assert_eq!(ActivationType::from_byte(0x01), Some(ActivationType::WwhObd));
    assert_eq!(ActivationType::from_byte(0x02), Some(ActivationType::CentralSecurity));
    assert_eq!(ActivationType::from_byte(0x03), None);
}

#[test]
fn activation_code_table() {
    for byte in 0u8..=255 {
        match ActivationCode::from_byte(byte) {
            Some(code) => {
                assert!(byte <= 0x11);
                assert_eq!(code.to_byte(), byte);
            }
            None => assert!(byte > 0x11),
        }
    }
    assert_eq!(
        ActivationCode::from_byte(0x00),
        Some(ActivationCode::DeniedUnknownSourceAddress)
    );
    assert_eq!(
        ActivationCode::from_byte(0x07),
        Some(ActivationCode::DeniedRequestEncryptedTLSConnection)
    );
    assert_eq!(
        ActivationCode::from_byte(0x0c),
        Some(ActivationCode::ReservedByIso13400_0C)
    );
    assert_eq!(
        ActivationCode::from_byte(0x10),
        Some(ActivationCode::SuccessfullyActivated)
    );
    assert_eq!(
        ActivationCode::from_byte(0x11),
        Some(ActivationCode::ActivatedConfirmationRequired)
    );
    assert_eq!(ActivationCode::from_byte(0x12), None);
}

#[test]
fn action_code_table() {
    for byte in 0u8..=255 {
        match ActionCode::from_byte(byte) {
            Some(code) => {
                assert!(byte <= 0x10);
                assert_eq!(code.to_byte(), byte);
            }
            None => assert!(byte > 0x10),
        }
    }
    assert_eq!(
        ActionCode::from_byte(0x00),
        Some(ActionCode::NoFurtherActionRequired)
    );
    assert_eq!(
        ActionCode::from_byte(0x0f),
        Some(ActionCode::ReservedByIso13400_0F)
    );
    assert_eq!(
        ActionCode::from_byte(0x10),
        Some(ActionCode::RoutingActivationRequired)
    );
    assert_eq!(ActionCode::from_byte(0x11), None);
}

#[test]
fn sync_status_table() {
    for byte in 0u8..=255 {
        match SyncStatus::from_byte(byte) {
            Some(code) => {
                assert!(byte <= 0x10);
                assert_eq!(code.to_byte(), byte);
            }
            None => assert!(byte > 0x10),
        }
    }
    assert_eq!(SyncStatus::from_byte(0x00), Some(SyncStatus::VinGinSynchronized));
    assert_eq!(SyncStatus::from_byte(0x01), Some(SyncStatus::ReservedByIso13400_01));
    assert_eq!(SyncStatus::from_byte(0x10), Some(SyncStatus::VinGinNotSynchronised));
    assert_eq!(SyncStatus::from_byte(0x11), None);
}

#[test]
fn node_type_table() {
    assert_eq!(NodeType::from_byte(0x00), Some(NodeType::DoipGateway));
    assert_eq!(NodeType::from_byte(0x01), Some(NodeType::DoipNode));
    for byte in 2u8..=255 {
        assert_eq!(NodeType::from_byte(byte), None);
    }
    assert_eq!(NodeType::DoipGateway.to_byte(), 0x00);
    assert_eq!(NodeType::DoipNode.to_byte(), 0x01);
}

#[test]
fn power_mode_table() {
    assert_eq!(PowerMode::from_byte(0x00), Some(PowerMode::NotReady));
    assert_eq!(PowerMode::from_byte(0x01), Some(PowerMode::Ready));
    assert_eq!(PowerMode::from_byte(0x02), Some(PowerMode::NotSupported));
    for byte in 3u8..=255 {
        assert_eq!(PowerMode::from_byte(byte), None);
    }
    assert_eq!(PowerMode::NotSupported.to_byte(), 0x02);
}

#[test]
fn diagnostic_ack_table() {
    assert_eq!(
        DiagnosticAckCode::from_byte(0x00),
        Some(DiagnosticAckCode::Acknowledged)
    );
    for byte in 1u8..=255 {
        assert_eq!(DiagnosticAckCode::from_byte(byte), None);
    }
    assert_eq!(DiagnosticAckCode::Acknowledged.to_byte(), 0x00);
}

#[test]
fn diagnostic_nack_table() {
    for byte in 0u8..=255 {
        match DiagnosticNackNode::from_byte(byte) {
            Some(code) => {
                assert!(byte <= 0x08);
                assert_eq!(code.to_byte(), byte);
            }
            None => assert!(byte > 0x08),
        }
    }
    assert_eq!(
        DiagnosticNackCode::from_byte(0x02),
        Some(DiagnosticNackNode::InvalidSourceAddress)
    );
    assert_eq!(
        DiagnosticNackCode::from_byte(0x08),
        Some(DiagnosticNackCode::TransportProtocolError)
    );
    assert_eq!(DiagnosticNackCode::from_byte(0x09), None);
}

#[test]
fn action_code_in_words() {
    assert_eq!(
        ActionCode::NoFurtherActionRequired.to_string(),
        "No further action required"
    );
    assert_eq!(
        ActionCode::RoutingActivationRequired.to_string(),
        "Routing activation required to initiate central security"
    );
    for byte in 1u8..=0x0f {
        assert_eq!(
            ActionCode::from_byte(byte).unwrap().to_string(),
            "Reserved by ISO 13400"
        );
    }
}

#[test]
fn diagnostic_nack_in_words() {
    let expected = [
        "Reserved by ISO 13400",
        "Reserved by ISO 13400",
        "Invalid source address",
        "Unknown target address",
        "Diagnostic message too large",
        "Out of memory",
        "Target unreachable",
        "Unknown network",
        "Transport protocol error",
    ];
    for byte in 0u8..=8 {
        assert_eq!(
            DiagnosticNackNode::from_byte(byte).unwrap().to_string(),
            expected[byte as usize]
        );
    }
}
