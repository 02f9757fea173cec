//! The relationship between an account and an MLS group, as the UI sees it.
//!
//! Groups are auto-joined at the MLS level when a welcome message arrives;
//! this record tracks the user's UI-level confirmation: pending (no
//! decision yet), accepted, or declined. Timestamps here are Unix
//! milliseconds, as the UI displays them.

use crate::utils::{GroupId, hex_of_bytes};
use vstd::prelude::*;

verus! {

/// An account-group record, as the collaborator stores it.
#[derive(Debug, Clone)]
pub struct SourceAccountGroup {
    /// The row identifier, when persisted.
    pub id: Option<i64>,
    /// The account's raw public key.
    pub account_pubkey: Vec<u8>,
    /// The group's identifier.
    pub mls_group_id: GroupId,
    /// The user's decision: accepted, declined, or none yet.
    pub user_confirmation: Option<bool>,
    /// The raw public key of the inviting user, when any.
    pub welcomer_pubkey: Option<Vec<u8>>,
    /// The raw identifier of the last message the user read, when any.
    pub last_read_message_id: Option<Vec<u8>>,
    /// When the record was created, Unix milliseconds.
    pub created_at: i64,
    /// When the record was last updated, Unix milliseconds.
    pub updated_at: i64,
}

/// An account-group record, as the UI represents it.
#[derive(Debug, Clone)]
pub struct AccountGroup {
    /// The row identifier, when persisted.
    pub id: Option<i64>,
    /// The account's public key as a hex string.
    pub account_pubkey: String,
    /// The group's identifier as a hex string.
    pub mls_group_id: String,
    /// The user's decision: accepted, declined, or none yet.
    pub user_confirmation: Option<bool>,
    /// The inviting user's public key as a hex string, when any.
    pub welcomer_pubkey: Option<String>,
    /// The last read message's identifier as a hex string, when any.
    pub last_read_message_id: Option<String>,
    /// When the record was created, Unix milliseconds.
    pub created_at: i64,
    /// When the record was last updated, Unix milliseconds.
    pub updated_at: i64,
}

/// The exact correspondence between the stored and UI account-group
/// records.
pub open spec fn account_group_converts(src: SourceAccountGroup, dst: AccountGroup) -> bool {
    &&& dst.id == src.id
    &&& dst.account_pubkey@ == hex_of_bytes(src.account_pubkey@)
    &&& dst.mls_group_id@ == hex_of_bytes(src.mls_group_id.bytes@)
    &&& dst.user_confirmation == src.user_confirmation
    &&& match (src.welcomer_pubkey, dst.welcomer_pubkey) {
        (Some(b), Some(h)) => h@ == hex_of_bytes(b@),
        (None, None) => true,
        _ => false,
    }
    &&& match (src.last_read_message_id, dst.last_read_message_id) {
        (Some(b), Some(h)) => h@ == hex_of_bytes(b@),
        (None, None) => true,
        _ => false,
    }
    &&& dst.created_at == src.created_at
    &&& dst.updated_at == src.updated_at
}

/// Converts one account-group record.
pub fn account_group_from_source(src: &SourceAccountGroup) -> (r: AccountGroup)
    ensures
        account_group_converts(*src, r),
{
    AccountGroup {
        id: src.id,
        account_pubkey: crate::utils::bytes_to_hex_string(&src.account_pubkey),
        mls_group_id: crate::utils::group_id_to_string(&src.mls_group_id),
        user_confirmation: src.user_confirmation,
        welcomer_pubkey: match &src.welcomer_pubkey {
            Some(b) => Some(crate::utils::bytes_to_hex_string(b)),
            None => None,
        },
        last_read_message_id: match &src.last_read_message_id {
            Some(b) => Some(crate::utils::bytes_to_hex_string(b)),
            None => None,
        },
        created_at: src.created_at,
        updated_at: src.updated_at,
    }
}

} // verus!
