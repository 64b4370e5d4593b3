use doip_codec::doip::header::payload::payload::{DoipPayload, PayloadError, PayloadType};
use doip_codec::doip::header::payload::vehicle_announcement_message::{
    VehicleAnnouncementMessage, VehicleAnnouncementMessageError,
};
use doip_codec::doip::message::action_code::ActionCode;
use doip_codec::doip::message::sync_status::SyncStatus;

fn fixed_fields() -> Vec<u8> {
    let mut bytes = Vec::new();
    bytes.extend_from_slice(b"WAUZZZ8V9KA000001");
    bytes.extend_from_slice(&[0x10, 0x01]);
    bytes.extend_from_slice(&[0x00, 0x1a, 0x37, 0xbf, 0xee, 0x74]);
    bytes.extend_from_slice(&[0x11, 0x22, 0x33, 0x44, 0x55, 0x66]);
    bytes
}

fn announcement(sync: Option<SyncStatus>) -> VehicleAnnouncementMessage {
    VehicleAnnouncementMessage {
        vin: *b"WAUZZZ8V9KA000001",
        logical_address: [0x10, 0x01],
        eid: [0x00, 0x1a, 0x37, 0xbf, 0xee, 0x74],
        gid: [0x11, 0x22, 0x33, 0x44, 0x55, 0x66],
        further_action: ActionCode::RoutingActivationRequired,
        vin_gid_sync: sync,
    }
}

#[test]
fn vehicle_announcement_payload_type() {
    assert_eq!(
        announcement(None).payload_type(),
        PayloadType::VehicleAnnouncementMessage
    );
}

#[test]
fn vehicle_announcement_to_bytes_without_sync_status() {
    let mut expected = fixed_fields();
    expected.push(0x10);
    assert_eq!(expected.len(), 32);
    assert_eq!(announcement(None).to_bytes(), expected);
}

#[test]
fn vehicle_announcement_to_bytes_with_sync_status() {
    let mut expected = fixed_fields();
    expected.push(0x10);
    expected.push(0x10);
    assert_eq!(expected.len(), 33);
    assert_eq!(
        announcement(Some(SyncStatus::VinGinNotSynchronised)).to_bytes(),
        expected
    );
}

#[test]
fn vehicle_announcement_optional_sync_status() {
    let mut without = fixed_fields();
    without.push(0x00);
    let decoded = VehicleAnnouncementMessage::from_bytes(&without).unwrap();
    assert_eq!(decoded.vin_gid_sync, None);
    assert_eq!(decoded.further_action, ActionCode::NoFurtherActionRequired);
    assert_eq!(decoded.vin, *b"WAUZZZ8V9KA000001");
    assert_eq!(decoded.logical_address, [0x10, 0x01]);
    assert_eq!(decoded.eid, [0x00, 0x1a, 0x37, 0xbf, 0xee, 0x74]);
    assert_eq!(decoded.gid, [0x11, 0x22, 0x33, 0x44, 0x55, 0x66]);

    let mut with = without.clone();
    with.push(0x00);
    let decoded = VehicleAnnouncementMessage::from_bytes(&with).unwrap();
    assert_eq!(decoded.vin_gid_sync, Some(SyncStatus::VinGinSynchronized));
}

#[test]
fn vehicle_announcement_one_byte_short_of_the_fixed_fields() {
    let bytes = fixed_fields();
    assert_eq!(bytes.len(), 31);
    assert_eq!(
        VehicleAnnouncementMessage::from_bytes(&bytes),
        Err(PayloadError::VehicleAnnouncementMessageError(
            VehicleAnnouncementMessageError::InvalidLength
        ))
    );
}

#[test]
fn vehicle_announcement_every_action_byte() {
    for byte in 0u8..=255 {
        let mut bytes = fixed_fields();
        bytes.push(byte);
        let decoded = VehicleAnnouncementMessage::from_bytes(&bytes);
        if byte <= 0x10 {
            let message = decoded.unwrap();
            assert_eq!(message.further_action.to_byte(), byte);
            assert_eq!(message.to_bytes(), bytes);
        } else {
            assert_eq!(
                decoded,
                Err(PayloadError::VehicleAnnouncementMessageError(
                    VehicleAnnouncementMessageError::InvalidActionCode
                ))
            );
        }
    }
}

#[test]
fn vehicle_announcement_every_sync_status_byte() {
    for byte in 0u8..=255 {
        let mut bytes = fixed_fields();
        bytes.push(0x00);
        bytes.push(byte);
        let decoded = VehicleAnnouncementMessage::from_bytes(&bytes);
        if byte <= 0x10 {
            let message = decoded.unwrap();
            assert_eq!(message.vin_gid_sync.unwrap().to_byte(), byte);
            assert_eq!(message.to_bytes(), bytes);
        } else {
            assert_eq!(
                decoded,
                Err(PayloadError::VehicleAnnouncementMessageError(
                    VehicleAnnouncementMessageError::InvalidSyncStatus
                ))
            );
        }
    }
}

#[test]
fn vehicle_announcement_action_code_is_checked_before_sync_status() {
    let mut bytes = fixed_fields();
    bytes.push(0x11);
    bytes.push(0x11);
    assert_eq!(
        VehicleAnnouncementMessage::from_bytes(&bytes),
        Err(PayloadError::VehicleAnnouncementMessageError(
            VehicleAnnouncementMessageError::InvalidActionCode
        ))
    );
}

#[test]
fn vehicle_announcement_round_trip() {
    for sync in [
        None,
        Some(SyncStatus::VinGinSynchronized),
        Some(SyncStatus::ReservedByIso13400_0A),
        Some(SyncStatus::VinGinNotSynchronised),
    ] {
        let message = announcement(sync);
        assert_eq!(
            VehicleAnnouncementMessage::from_bytes(&message.to_bytes()),
            Ok(message)
        );
    }
}
