//! Notification feed types and their UI projections.
//!
//! The notification feed has no snapshot phase: a subscription delivers
//! updates only, one per notification-worthy event.

use crate::utils::{GroupId, hex_of_bytes};
use vstd::prelude::*;

verus! {

/// What raised a notification, as the collaborator tags it.
#[derive(Debug, Clone, Copy, PartialEq, Eq, Structural)]
pub enum SourceNotificationTrigger {
    /// A new message arrived in one of the user's groups.
    NewMessage,
    /// The user was invited to a group.
    GroupInvite,
}

/// What raised a notification, as the UI sees it.
#[derive(Debug, Clone, Copy, PartialEq, Eq, Structural)]
pub enum NotificationTrigger {
    /// A new message arrived in one of the user's groups.
    NewMessage,
    /// The user was invited to a group.
    GroupInvite,
}

/// The UI trigger corresponding to a source trigger.
pub open spec fn converted_notification_trigger(t: SourceNotificationTrigger) -> NotificationTrigger {
    match t {
        SourceNotificationTrigger::NewMessage => NotificationTrigger::NewMessage,
        SourceNotificationTrigger::GroupInvite => NotificationTrigger::GroupInvite,
    }
}

impl From<SourceNotificationTrigger> for NotificationTrigger {
    fn from(t: SourceNotificationTrigger) -> (r: Self) {
        match t {
            SourceNotificationTrigger::NewMessage => NotificationTrigger::NewMessage,
            SourceNotificationTrigger::GroupInvite => NotificationTrigger::GroupInvite,
        }
    }
}

impl vstd::std_specs::convert::FromSpecImpl<SourceNotificationTrigger> for NotificationTrigger {
    open spec fn obeys_from_spec() -> bool {
        true
    }

    open spec fn from_spec(t: SourceNotificationTrigger) -> Self {
        converted_notification_trigger(t)
    }
}

/// A user appearing in a notification, as the collaborator holds them.
#[derive(Debug, Clone)]
pub struct SourceNotificationUser {
    /// The user's raw public key.
    pub pubkey: Vec<u8>,
    /// The user's display name, when known.
    pub display_name: Option<String>,
    /// The user's picture URL, when known.
    pub picture_url: Option<String>,
}

/// A user appearing in a notification, as the UI represents them.
#[derive(Debug, Clone)]
pub struct NotificationUser {
    /// The user's public key as a hex string.
    pub pubkey: String,
    /// The user's display name, when known.
    pub display_name: Option<String>,
    /// The user's picture URL, when known.
    pub picture_url: Option<String>,
}

/// The exact correspondence between source and UI notification users.
pub open spec fn notification_user_converts(
    src: SourceNotificationUser,
    dst: NotificationUser,
) -> bool {
    &&& dst.pubkey@ == hex_of_bytes(src.pubkey@)
    &&& dst.display_name == src.display_name
    &&& dst.picture_url == src.picture_url
}

/// Converts one notification user.
pub fn notification_user_from_source(src: &SourceNotificationUser) -> (r: NotificationUser)
    ensures
        notification_user_converts(*src, r),
{
    NotificationUser {
        pubkey: crate::utils::bytes_to_hex_string(&src.pubkey),
        display_name: crate::utils::clone_opt_string(&src.display_name),
        picture_url: crate::utils::clone_opt_string(&src.picture_url),
    }
}

/// One notification, as the collaborator emits it.
#[derive(Debug, Clone)]
pub struct SourceNotificationUpdate {
    /// What raised the notification.
    pub trigger: SourceNotificationTrigger,
    /// The group the event belongs to.
    pub mls_group_id: GroupId,
    /// The group's name, when any.
    pub group_name: Option<String>,
    /// Whether the group is a direct conversation.
    pub is_dm: bool,
    /// The notified account.
    pub receiver: SourceNotificationUser,
    /// The user who caused the event.
    pub sender: SourceNotificationUser,
    /// The notification text.
    pub content: String,
    /// When the event happened, Unix seconds.
    pub timestamp: i64,
}

/// One notification, as delivered to the UI.
#[derive(Debug, Clone)]
pub struct NotificationUpdate {
    /// What raised the notification.
    pub trigger: NotificationTrigger,
    /// The group's identifier as a hex string.
    pub mls_group_id: String,
    /// The group's name, when any.
    pub group_name: Option<String>,
    /// Whether the group is a direct conversation.
    pub is_dm: bool,
    /// The notified account.
    pub receiver: NotificationUser,
    /// The user who caused the event.
    pub sender: NotificationUser,
    /// The notification text.
    pub content: String,
    /// When the event happened, Unix seconds.
    pub timestamp: i64,
}

/// The exact correspondence between source and UI notifications.
pub open spec fn notification_update_converts(
    src: SourceNotificationUpdate,
    dst: NotificationUpdate,
) -> bool {
    &&& dst.trigger == converted_notification_trigger(src.trigger)
    &&& dst.mls_group_id@ == hex_of_bytes(src.mls_group_id.bytes@)
    &&& dst.group_name == src.group_name
    &&& dst.is_dm == src.is_dm
    &&& notification_user_converts(src.receiver, dst.receiver)
    &&& notification_user_converts(src.sender, dst.sender)
    &&& dst.content == src.content
    &&& dst.timestamp == src.timestamp
}

/// Converts one notification.
pub fn notification_update_from_source(src: &SourceNotificationUpdate) -> (r: NotificationUpdate)
    ensures
        notification_update_converts(*src, r),
{
    NotificationUpdate {
        trigger: NotificationTrigger::from(src.trigger),
        mls_group_id: crate::utils::group_id_to_string(&src.mls_group_id),
        group_name: crate::utils::clone_opt_string(&src.group_name),
        is_dm: src.is_dm,
        receiver: notification_user_from_source(&src.receiver),
        sender: notification_user_from_source(&src.sender),
        content: src.content.clone(),
        timestamp: src.timestamp,
    }
}

} // verus!
