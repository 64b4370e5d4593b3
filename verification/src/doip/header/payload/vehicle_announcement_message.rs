//! The vehicle announcement message, which is also the vehicle
//! identification response: VIN, logical address, EID, GID, further action
//! and, where the entity sends it, the VIN/GID synchronisation status.

use super::payload::{DoipPayload, PayloadError, PayloadType};
use crate::doip::definitions::{
    DOIP_COMMON_EID_LEN, DOIP_COMMON_VIN_LEN, DOIP_DIAG_COMMON_SOURCE_LEN,
    DOIP_VEHICLE_ANNOUNCEMENT_ACTION_LEN, DOIP_VEHICLE_ANNOUNCEMENT_GID_LEN,
    DOIP_VEHICLE_ANNOUNCEMENT_SYNC_LEN,
};
use crate::doip::message::action_code::ActionCode;
use crate::doip::message::sync_status::SyncStatus;
use crate::doip::wire::{field, lemma_field, lemma_field_is, take};
use vstd::prelude::*;

verus! {

/// What a vehicle says of itself, unasked or in answer to a vehicle
/// identification request.
#[derive(Copy, Clone, Debug, PartialEq, Eq)]
pub struct VehicleAnnouncementMessage {
    /// The vehicle identification number.
    pub vin: [u8; 17],
    /// The logical address of the announcing entity.
    pub logical_address: [u8; 2],
    /// The entity identifier.
    pub eid: [u8; 6],
    /// The group identifier.
    pub gid: [u8; 6],
    /// What the tester has to do next.
    pub further_action: ActionCode,
    /// Whether VIN and GID are synchronised. An entity may leave it out.
    pub vin_gid_sync: Option<SyncStatus>,
}

/// Why a buffer holds no vehicle announcement message.
#[derive(Copy, Clone, Debug, PartialEq, Eq)]
pub enum VehicleAnnouncementMessageError {
    /// The buffer is shorter than the payload without its last, optional
    /// field.
    InvalidLength,
    /// A field reaches past the end of the buffer. The length check rules
    /// this out; no buffer is decoded to it.
    InvalidIndexRange,
    /// The action byte is no further-action code.
    InvalidActionCode,
    /// The status byte is there and is no synchronisation status.
    InvalidSyncStatus,
}

impl View for VehicleAnnouncementMessage {
    type V = VehicleAnnouncementMessage;

    open spec fn view(&self) -> VehicleAnnouncementMessage {
        *self
    }
}

impl VehicleAnnouncementMessage {
    /// The width of the payload without the synchronisation status: the
    /// fewest bytes that hold a vehicle announcement message.
    pub const MIN_LENGTH: usize = DOIP_COMMON_VIN_LEN + DOIP_DIAG_COMMON_SOURCE_LEN
        + DOIP_COMMON_EID_LEN + DOIP_VEHICLE_ANNOUNCEMENT_GID_LEN
        + DOIP_VEHICLE_ANNOUNCEMENT_ACTION_LEN;

    /// The synchronisation status that follows the fixed fields: none where
    /// the buffer ends after them, else what byte 32 decodes to.
    pub open spec fn parse_sync_status(bytes: Seq<u8>) -> Result<Option<SyncStatus>, PayloadError> {
        if bytes.len() <= Self::MIN_LENGTH {
            Ok(None)
        } else {
            match SyncStatus::from_byte(bytes[32]) {
                None => Err(
                    PayloadError::VehicleAnnouncementMessageError(
                        VehicleAnnouncementMessageError::InvalidSyncStatus,
                    ),
                ),
                Some(status) => Ok(Some(status)),
            }
        }
    }

    /// The bytes of the optional last field: its code where it is there,
    /// nothing where it is not.
    pub open spec fn sync_status_wire(status: Option<SyncStatus>) -> Seq<u8> {
        match status {
            Some(status) => seq![status.to_byte()],
            None => Seq::empty(),
        }
    }

    /// A message is encoded in 32 bytes, and in one more where it carries a
    /// synchronisation status.
    pub proof fn lemma_wire_len(value: VehicleAnnouncementMessage)
        ensures
            Self::wire(value).len() == if value.vin_gid_sync is Some {
                Self::MIN_LENGTH + DOIP_VEHICLE_ANNOUNCEMENT_SYNC_LEN
            } else {
                Self::MIN_LENGTH as int
            },
    {
    }

    /// A buffer shorter than the fixed fields is rejected as
    /// `InvalidLength`, whatever it holds.
    pub proof fn lemma_too_short(bytes: Seq<u8>)
        requires
            bytes.len() < Self::MIN_LENGTH,
        ensures
            Self::parse(bytes) == Err::<VehicleAnnouncementMessage, PayloadError>(
                PayloadError::VehicleAnnouncementMessageError(
                    VehicleAnnouncementMessageError::InvalidLength,
                ),
            ),
    {
    }

    /// A buffer is accepted exactly when it holds at least 32 bytes, byte 31
    /// is a defined further-action code and byte 32, where the buffer has
    /// one, is a defined synchronisation status. The status is absent from
    /// the result exactly when the buffer has 32 bytes. Bytes past the
    /// payload are not read.
    pub proof fn lemma_accepted(bytes: Seq<u8>)
        ensures
            Self::parse(bytes) is Ok <==> bytes.len() >= Self::MIN_LENGTH && ActionCode::is_defined(
                bytes[31],
            ) && (bytes.len() > Self::MIN_LENGTH ==> SyncStatus::is_defined(bytes[32])),
            Self::parse(bytes) matches Ok(value) ==> (value.vin_gid_sync is None <==> bytes.len()
                == Self::MIN_LENGTH),
    {
    }

    /// A buffer that is long enough and holds an undefined further-action
    /// code is rejected as `InvalidActionCode`, whatever follows it.
    pub proof fn lemma_invalid_action_code(bytes: Seq<u8>)
        requires
            bytes.len() >= Self::MIN_LENGTH,
            !ActionCode::is_defined(bytes[31]),
        ensures
            Self::parse(bytes) == Err::<VehicleAnnouncementMessage, PayloadError>(
                PayloadError::VehicleAnnouncementMessageError(
                    VehicleAnnouncementMessageError::InvalidActionCode,
                ),
            ),
    {
    }

    /// A buffer with a defined further-action code and a byte after it that
    /// is no synchronisation status is rejected as `InvalidSyncStatus`.
    pub proof fn lemma_invalid_sync_status(bytes: Seq<u8>)
        requires
            bytes.len() > Self::MIN_LENGTH,
            ActionCode::is_defined(bytes[31]),
            !SyncStatus::is_defined(bytes[32]),
        ensures
            Self::parse(bytes) == Err::<VehicleAnnouncementMessage, PayloadError>(
                PayloadError::VehicleAnnouncementMessageError(
                    VehicleAnnouncementMessageError::InvalidSyncStatus,
                ),
            ),
    {
    }
}

impl DoipPayload for VehicleAnnouncementMessage {
    open spec fn kind(value: VehicleAnnouncementMessage) -> PayloadType {
        PayloadType::VehicleAnnouncementMessage
    }

    open spec fn wire(value: VehicleAnnouncementMessage) -> Seq<u8> {
        value.vin@ + value.logical_address@ + value.eid@ + value.gid@
            + seq![value.further_action.to_byte()]
            + Self::sync_status_wire(value.vin_gid_sync)
    }

    open spec fn parse(bytes: Seq<u8>) -> Result<VehicleAnnouncementMessage, PayloadError> {
        if bytes.len() < Self::MIN_LENGTH {
            Err(
                PayloadError::VehicleAnnouncementMessageError(
                    VehicleAnnouncementMessageError::InvalidLength,
                ),
            )
        } else {
            match ActionCode::from_byte(bytes[31]) {
                None => Err(
                    PayloadError::VehicleAnnouncementMessageError(
                        VehicleAnnouncementMessageError::InvalidActionCode,
                    ),
                ),
                Some(further_action) => match Self::parse_sync_status(bytes) {
                    Err(error) => Err(error),
                    Ok(vin_gid_sync) => Ok(
                        VehicleAnnouncementMessage {
                            vin: field(bytes, 0),
                            logical_address: field(bytes, 17),
                            eid: field(bytes, 19),
                            gid: field(bytes, 25),
                            further_action,
                            vin_gid_sync,
                        },
                    ),
                },
            }
        }
    }

    proof fn lemma_round_trip(value: VehicleAnnouncementMessage) {
        let bytes = Self::wire(value);
        assert(bytes.subrange(0, 17) =~= value.vin@);
        lemma_field_is::<17>(bytes, 0, value.vin);
        assert(bytes.subrange(17, 19) =~= value.logical_address@);
        lemma_field_is::<2>(bytes, 17, value.logical_address);
        assert(bytes.subrange(19, 25) =~= value.eid@);
        lemma_field_is::<6>(bytes, 19, value.eid);
        assert(bytes.subrange(25, 31) =~= value.gid@);
        lemma_field_is::<6>(bytes, 25, value.gid);
        value.further_action.lemma_to_byte_round_trip();
        if let Some(status) = value.vin_gid_sync {
            status.lemma_to_byte_round_trip();
        }
    }

    proof fn lemma_parsed_prefix(bytes: Seq<u8>) {
        if let Ok(value) = Self::parse(bytes) {
            lemma_field::<17>(bytes, 0);
            lemma_field::<2>(bytes, 17);
            lemma_field::<6>(bytes, 19);
            lemma_field::<6>(bytes, 25);
            ActionCode::lemma_from_byte(bytes[31]);
            if bytes.len() > Self::MIN_LENGTH {
                SyncStatus::lemma_from_byte(bytes[32]);
                assert(Self::wire(value) =~= bytes.subrange(0, 33));
            } else {
                assert(Self::wire(value) =~= bytes.subrange(0, 32));
            }
        }
    }

    fn payload_type(&self) -> (payload_type: PayloadType) {
        PayloadType::VehicleAnnouncementMessage
    }

    fn to_bytes(&self) -> (bytes: Vec<u8>) {
        let mut bytes: Vec<u8> = Vec::new();

        bytes.extend_from_slice(&self.vin);
        bytes.extend_from_slice(&self.logical_address);
        bytes.extend_from_slice(&self.eid);
        bytes.extend_from_slice(&self.gid);
        bytes.push(self.further_action.to_byte());

        if let Some(sync_status) = self.vin_gid_sync {
            bytes.push(sync_status.to_byte());
        }

        assert(bytes@ =~= Self::wire(*self));
        bytes
    }

    fn from_bytes(bytes: &[u8]) -> (result: Result<VehicleAnnouncementMessage, PayloadError>) {
        // Check that bytes have sufficient length
        if bytes.len() < Self::MIN_LENGTH {
            return Err(
                PayloadError::VehicleAnnouncementMessageError(
                    VehicleAnnouncementMessageError::InvalidLength,
                ),
            );
        }

        let vin_offset: usize = 0;
        let vin: [u8; 17] = match take(bytes, vin_offset) {
            Some(array) => array,
            None => return Err(
                PayloadError::VehicleAnnouncementMessageError(
                    VehicleAnnouncementMessageError::InvalidIndexRange,
                ),
            ),
        };

        let logical_address_offset: usize = vin_offset + DOIP_COMMON_VIN_LEN;
        let logical_address: [u8; 2] = match take(bytes, logical_address_offset) {
            Some(array) => array,
            None => return Err(
                PayloadError::VehicleAnnouncementMessageError(
                    VehicleAnnouncementMessageError::InvalidIndexRange,
                ),
            ),
        };

        let eid_offset: usize = logical_address_offset + DOIP_DIAG_COMMON_SOURCE_LEN;
        let eid: [u8; 6] = match take(bytes, eid_offset) {
            Some(array) => array,
            None => return Err(
                PayloadError::VehicleAnnouncementMessageError(
                    VehicleAnnouncementMessageError::InvalidIndexRange,
                ),
            ),
        };

        let gid_offset: usize = eid_offset + DOIP_COMMON_EID_LEN;
        let gid: [u8; 6] = match take(bytes, gid_offset) {
            Some(array) => array,
            None => return Err(
                PayloadError::VehicleAnnouncementMessageError(
                    VehicleAnnouncementMessageError::InvalidIndexRange,
                ),
            ),
        };

        let further_action_offset: usize = gid_offset + DOIP_VEHICLE_ANNOUNCEMENT_GID_LEN;
        let further_action = match ActionCode::from_byte(bytes[further_action_offset]) {
            Some(code) => code,
            None => return Err(
                PayloadError::VehicleAnnouncementMessageError(
                    VehicleAnnouncementMessageError::InvalidActionCode,
                ),
            ),
        };

        let vin_gid_sync_offset: usize = further_action_offset
            + DOIP_VEHICLE_ANNOUNCEMENT_ACTION_LEN;
        let vin_gid_sync: Option<SyncStatus> = if vin_gid_sync_offset < bytes.len() {
            match SyncStatus::from_byte(bytes[vin_gid_sync_offset]) {
                Some(status) => Some(status),
                None => return Err(
                    PayloadError::VehicleAnnouncementMessageError(
                        VehicleAnnouncementMessageError::InvalidSyncStatus,
                    ),
                ),
            }
        } else {
            None
        };

        Ok(
            VehicleAnnouncementMessage {
                vin,
                logical_address,
                eid,
                gid,
                further_action,
                vin_gid_sync,
            },
        )
    }
}

} // verus!
