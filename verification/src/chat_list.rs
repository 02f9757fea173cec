//! Chat-list feed types and their UI projections.

use crate::bridge::StreamEvent;
use crate::messages::{
    ChatMessageSummary, SourceChatMessageSummary, chat_message_summary_converts,
    chat_message_summary_from_source,
};
use crate::utils::{GroupId, hex_of_bytes};
use vstd::prelude::*;

verus! {

/// The kind of a chat, as the collaborator classifies it.
#[derive(Debug, Clone, Copy, PartialEq, Eq, Structural)]
pub enum SourceGroupType {
    /// A named group with any number of members.
    Group,
    /// A two-member direct conversation.
    DirectMessage,
}

/// The kind of a chat, as the UI sees it.
#[derive(Debug, Clone, Copy, PartialEq, Eq, Structural)]
pub enum GroupType {
    /// A named group with any number of members.
    Group,
    /// A two-member direct conversation.
    DirectMessage,
}

/// The UI group type corresponding to a source group type.
pub open spec fn converted_group_type(t: SourceGroupType) -> GroupType {
    match t {
        SourceGroupType::Group => GroupType::Group,
        SourceGroupType::DirectMessage => GroupType::DirectMessage,
    }
}

impl From<SourceGroupType> for GroupType {
    fn from(t: SourceGroupType) -> (r: Self) {
        match t {
            SourceGroupType::Group => GroupType::Group,
            SourceGroupType::DirectMessage => GroupType::DirectMessage,
        }
    }
}

impl vstd::std_specs::convert::FromSpecImpl<SourceGroupType> for GroupType {
    open spec fn obeys_from_spec() -> bool {
        true
    }

    open spec fn from_spec(t: SourceGroupType) -> Self {
        converted_group_type(t)
    }
}

/// One chat-list entry, as the collaborator holds it.
#[derive(Debug, Clone)]
pub struct SourceChatListItem {
    /// The group's identifier.
    pub mls_group_id: GroupId,
    /// The chat's display name, when any.
    pub name: Option<String>,
    /// The kind of chat.
    pub group_type: SourceGroupType,
    /// When the group was created, Unix seconds.
    pub created_at: i64,
    /// Path to the cached decrypted group image, groups only.
    pub group_image_path: Option<String>,
    /// The other user's picture URL, direct messages only.
    pub group_image_url: Option<String>,
    /// Preview of the last message, when any.
    pub last_message: Option<SourceChatMessageSummary>,
    /// Whether the group awaits the user's confirmation.
    pub pending_confirmation: bool,
    /// The raw public key of the user who sent the invite, when any.
    pub welcomer_pubkey: Option<Vec<u8>>,
}

/// One chat-list entry, as the UI represents it.
#[derive(Debug, Clone)]
pub struct ChatSummary {
    /// The group's identifier as a hex string.
    pub mls_group_id: String,
    /// The chat's display name, when any.
    pub name: Option<String>,
    /// The kind of chat.
    pub group_type: GroupType,
    /// When the group was created, Unix seconds.
    pub created_at: i64,
    /// Path to the cached decrypted group image, groups only.
    pub group_image_path: Option<String>,
    /// The other user's picture URL, direct messages only.
    pub group_image_url: Option<String>,
    /// Preview of the last message, when any.
    pub last_message: Option<ChatMessageSummary>,
    /// Whether the group awaits the user's confirmation.
    pub pending_confirmation: bool,
    /// The inviting user's public key as a hex string, when any.
    pub welcomer_pubkey: Option<String>,
}

/// The exact correspondence between a source chat-list entry and its UI
/// form.
pub open spec fn chat_summary_converts(src: SourceChatListItem, dst: ChatSummary) -> bool {
    &&& dst.mls_group_id@ == hex_of_bytes(src.mls_group_id.bytes@)
    &&& dst.name == src.name
    &&& dst.group_type == converted_group_type(src.group_type)
    &&& dst.created_at == src.created_at
    &&& dst.group_image_path == src.group_image_path
    &&& dst.group_image_url == src.group_image_url
    &&& match (src.last_message, dst.last_message) {
        (Some(s), Some(d)) => chat_message_summary_converts(s, d),
        (None, None) => true,
        _ => false,
    }
    &&& dst.pending_confirmation == src.pending_confirmation
    &&& match (src.welcomer_pubkey, dst.welcomer_pubkey) {
        (Some(b), Some(h)) => h@ == hex_of_bytes(b@),
        (None, None) => true,
        _ => false,
    }
}

/// Converts one chat-list entry.
pub fn chat_summary_from_source(src: &SourceChatListItem) -> (r: ChatSummary)
    ensures
        chat_summary_converts(*src, r),
{
    ChatSummary {
        mls_group_id: crate::utils::group_id_to_string(&src.mls_group_id),
        name: crate::utils::clone_opt_string(&src.name),
        group_type: GroupType::from(src.group_type),
        created_at: src.created_at,
        group_image_path: crate::utils::clone_opt_string(&src.group_image_path),
        group_image_url: crate::utils::clone_opt_string(&src.group_image_url),
        last_message: match &src.last_message {
            Some(s) => Some(chat_message_summary_from_source(s)),
            None => None,
        },
        pending_confirmation: src.pending_confirmation,
        welcomer_pubkey: match &src.welcomer_pubkey {
            Some(b) => Some(crate::utils::bytes_to_hex_string(b)),
            None => None,
        },
    }
}

/// Converts a chat list, keeping the collaborator's order (most recent
/// activity first).
pub fn chat_list_from_source(items: &Vec<SourceChatListItem>) -> (r: Vec<ChatSummary>)
    ensures
        r@.len() == items@.len(),
        forall|i: int| 0 <= i < items@.len() ==> chat_summary_converts(items@[i], #[trigger] r@[i]),
{
    let mut r: Vec<ChatSummary> = Vec::new();
    let mut i: usize = 0;
    while i < items.len()
        invariant
            i <= items@.len(),
            r@.len() == i,
            forall|j: int| 0 <= j < i ==> chat_summary_converts(items@[j], #[trigger] r@[j]),
        decreases items@.len() - i,
    {
        r.push(chat_summary_from_source(&items[i]));
        i = i + 1;
    }
    r
}

/// What triggered a chat-list update, as the collaborator tags it.
#[derive(Debug, Clone, Copy, PartialEq, Eq, Structural)]
pub enum SourceChatListUpdateTrigger {
    /// A new group was created or joined.
    NewGroup,
    /// A new message updated the chat's last message preview.
    NewLastMessage,
    /// The last message in a chat was deleted.
    LastMessageDeleted,
}

/// What triggered a chat-list update in the stream.
#[derive(Debug, Clone, Copy, PartialEq, Eq, Structural)]
pub enum ChatListUpdateTrigger {
    /// A new group was created or joined.
    NewGroup,
    /// A new message updated the chat's last message preview.
    NewLastMessage,
    /// The last message in a chat was deleted.
    LastMessageDeleted,
}

/// The UI trigger corresponding to a source trigger.
pub open spec fn converted_chat_list_trigger(t: SourceChatListUpdateTrigger) -> ChatListUpdateTrigger {
    match t {
        SourceChatListUpdateTrigger::NewGroup => ChatListUpdateTrigger::NewGroup,
        SourceChatListUpdateTrigger::NewLastMessage => ChatListUpdateTrigger::NewLastMessage,
        SourceChatListUpdateTrigger::LastMessageDeleted => ChatListUpdateTrigger::LastMessageDeleted,
    }
}

impl From<SourceChatListUpdateTrigger> for ChatListUpdateTrigger {
    fn from(t: SourceChatListUpdateTrigger) -> (r: Self) {
        match t {
            SourceChatListUpdateTrigger::NewGroup => ChatListUpdateTrigger::NewGroup,
            SourceChatListUpdateTrigger::NewLastMessage => ChatListUpdateTrigger::NewLastMessage,
            SourceChatListUpdateTrigger::LastMessageDeleted => ChatListUpdateTrigger::LastMessageDeleted,
        }
    }
}

impl vstd::std_specs::convert::FromSpecImpl<SourceChatListUpdateTrigger> for ChatListUpdateTrigger {
    open spec fn obeys_from_spec() -> bool {
        true
    }

    open spec fn from_spec(t: SourceChatListUpdateTrigger) -> Self {
        converted_chat_list_trigger(t)
    }
}

/// A chat-list update, as the collaborator emits it: the trigger and the
/// complete current state of the affected chat.
#[derive(Debug, Clone)]
pub struct SourceChatListUpdate {
    /// What changed.
    pub trigger: SourceChatListUpdateTrigger,
    /// The full current state of the affected chat.
    pub item: SourceChatListItem,
}

/// A chat-list update, as delivered to the UI.
#[derive(Debug, Clone)]
pub struct ChatListUpdate {
    /// What changed.
    pub trigger: ChatListUpdateTrigger,
    /// The full current state of the affected chat.
    pub item: ChatSummary,
}

/// The exact correspondence between source and UI chat-list updates.
pub open spec fn chat_list_update_converts(src: SourceChatListUpdate, dst: ChatListUpdate) -> bool {
    &&& dst.trigger == converted_chat_list_trigger(src.trigger)
    &&& chat_summary_converts(src.item, dst.item)
}

/// Converts one chat-list update.
pub fn chat_list_update_from_source(src: &SourceChatListUpdate) -> (r: ChatListUpdate)
    ensures
        chat_list_update_converts(*src, r),
{
    ChatListUpdate {
        trigger: ChatListUpdateTrigger::from(src.trigger),
        item: chat_summary_from_source(&src.item),
    }
}

/// Stream item of the chat-list subscription: first the snapshot of all
/// current chats, then one update at a time.
pub type ChatListStreamItem = StreamEvent<ChatSummary, ChatListUpdate>;

} // verus!
