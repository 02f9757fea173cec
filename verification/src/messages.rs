//! Group-message feed types and their UI projections.
//!
//! The collaborator emits messages with raw key material and integer
//! timestamps; the UI works with hex strings. The `Source*` types model the
//! collaborator's side; the conversion functions are exact about every
//! field. Timestamps are Unix seconds; a creation time past the last
//! calendar second the UI's date library can display collapses to 0, so
//! the UI shows the epoch for it.

use crate::bridge::StreamEvent;
use crate::utils::hex_of_bytes;
use vstd::prelude::*;
use vstd::string::StringExecFns;

verus! {

/// The last Unix second the UI's calendar can display: the end of year
/// 262142, the bound of the host's date library.
pub const MAX_CALENDAR_TIMESTAMP: u64 = 8210266876799;

/// A collaborator timestamp as the signed seconds the UI carries: the
/// value itself when the calendar can display it, otherwise the epoch.
pub open spec fn clamped_timestamp(v: u64) -> i64 {
    if v > MAX_CALENDAR_TIMESTAMP {
        0
    } else {
        v as i64
    }
}

/// Converts a collaborator timestamp to the signed seconds the UI carries.
pub fn clamp_timestamp(v: u64) -> (r: i64)
    ensures
        r == clamped_timestamp(v),
{
    if v > MAX_CALENDAR_TIMESTAMP {
        0
    } else {
        v as i64
    }
}

/// One token of a tokenized message, as the collaborator represents it.
#[derive(Debug, Clone)]
pub enum SourceSerializableToken {
    /// A nostr entity reference.
    Nostr(String),
    /// A URL.
    Url(String),
    /// A hashtag.
    Hashtag(String),
    /// Plain text.
    Text(String),
    /// A line break.
    LineBreak,
    /// A run of whitespace.
    Whitespace,
}

/// One token of a tokenized message, as the UI represents it.
#[derive(Debug, Clone)]
pub struct SerializableToken {
    /// One of "Nostr", "Url", "Hashtag", "Text", "LineBreak", "Whitespace".
    pub token_type: String,
    /// The token's text; absent for line breaks and whitespace.
    pub content: Option<String>,
}

/// The exact correspondence between a source token and its UI form.
pub open spec fn token_converts(src: SourceSerializableToken, dst: SerializableToken) -> bool {
    match src {
        SourceSerializableToken::Nostr(s) => dst.token_type@ == "Nostr"@ && dst.content
            == Some(s),
        SourceSerializableToken::Url(s) => dst.token_type@ == "Url"@ && dst.content == Some(s),
        SourceSerializableToken::Hashtag(s) => dst.token_type@ == "Hashtag"@ && dst.content
            == Some(s),
        SourceSerializableToken::Text(s) => dst.token_type@ == "Text"@ && dst.content == Some(s),
        SourceSerializableToken::LineBreak => dst.token_type@ == "LineBreak"@ && dst.content
            is None,
        SourceSerializableToken::Whitespace => dst.token_type@ == "Whitespace"@ && dst.content
            is None,
    }
}

/// Converts one token.
pub fn token_from_source(token: &SourceSerializableToken) -> (r: SerializableToken)
    ensures
        token_converts(*token, r),
{
    match token {
        SourceSerializableToken::Nostr(s) => SerializableToken {
            token_type: String::from_str("Nostr"),
            content: Some(s.clone()),
        },
        SourceSerializableToken::Url(s) => SerializableToken {
            token_type: String::from_str("Url"),
            content: Some(s.clone()),
        },
        SourceSerializableToken::Hashtag(s) => SerializableToken {
            token_type: String::from_str("Hashtag"),
            content: Some(s.clone()),
        },
        SourceSerializableToken::Text(s) => SerializableToken {
            token_type: String::from_str("Text"),
            content: Some(s.clone()),
        },
        SourceSerializableToken::LineBreak => SerializableToken {
            token_type: String::from_str("LineBreak"),
            content: None,
        },
        SourceSerializableToken::Whitespace => SerializableToken {
            token_type: String::from_str("Whitespace"),
            content: None,
        },
    }
}

/// Converts a token list, keeping order.
pub fn tokens_from_source(tokens: &Vec<SourceSerializableToken>) -> (r: Vec<SerializableToken>)
    ensures
        r@.len() == tokens@.len(),
        forall|i: int| 0 <= i < tokens@.len() ==> token_converts(tokens@[i], #[trigger] r@[i]),
{
    let mut r: Vec<SerializableToken> = Vec::new();
    let mut i: usize = 0;
    while i < tokens.len()
        invariant
            i <= tokens@.len(),
            r@.len() == i,
            forall|j: int| 0 <= j < i ==> token_converts(tokens@[j], #[trigger] r@[j]),
        decreases tokens@.len() - i,
    {
        r.push(token_from_source(&tokens[i]));
        i = i + 1;
    }
    r
}

/// A media attachment of a message.
#[derive(Debug, Clone)]
pub struct MediaFile {
    /// Path of the cached decrypted file.
    pub path: String,
    /// The attachment's MIME type.
    pub mime_type: String,
}

/// Details of one emoji's reactions, as the collaborator represents them.
#[derive(Debug, Clone)]
pub struct SourceEmojiReaction {
    /// The emoji.
    pub emoji: String,
    /// How many users reacted with it.
    pub count: usize,
    /// The reacting users' raw public keys.
    pub users: Vec<Vec<u8>>,
}

/// Details of one emoji's reactions, as the UI represents them.
#[derive(Debug, Clone)]
pub struct EmojiReaction {
    /// The emoji.
    pub emoji: String,
    /// How many users reacted with it.
    pub count: u64,
    /// The reacting users' public keys as hex strings.
    pub users: Vec<String>,
}

/// The exact correspondence between source and UI emoji reactions.
pub open spec fn emoji_reaction_converts(src: SourceEmojiReaction, dst: EmojiReaction) -> bool {
    &&& dst.emoji == src.emoji
    &&& dst.count == src.count as u64
    &&& dst.users@.len() == src.users@.len()
    &&& forall|i: int|
        0 <= i < src.users@.len() ==> (#[trigger] dst.users@[i])@ == hex_of_bytes(src.users@[i]@)
}

/// Converts one emoji reaction.
pub fn emoji_reaction_from_source(src: &SourceEmojiReaction) -> (r: EmojiReaction)
    ensures
        emoji_reaction_converts(*src, r),
{
    let mut users: Vec<String> = Vec::new();
    let mut i: usize = 0;
    while i < src.users.len()
        invariant
            i <= src.users@.len(),
            users@.len() == i,
            forall|j: int|
                0 <= j < i ==> (#[trigger] users@[j])@ == hex_of_bytes(src.users@[j]@),
        decreases src.users@.len() - i,
    {
        users.push(crate::utils::bytes_to_hex_string(&src.users[i]));
        i = i + 1;
    }
    EmojiReaction { emoji: src.emoji.clone(), count: src.count as u64, users }
}

/// One user's reaction, as the collaborator represents it.
#[derive(Debug, Clone)]
pub struct SourceUserReaction {
    /// The reaction event's raw identifier.
    pub reaction_id: Vec<u8>,
    /// The reacting user's raw public key.
    pub user: Vec<u8>,
    /// The emoji.
    pub emoji: String,
    /// When the reaction was made, Unix seconds.
    pub created_at: u64,
}

/// One user's reaction, as the UI represents it.
#[derive(Debug, Clone)]
pub struct UserReaction {
    /// The reaction event's identifier as a hex string.
    pub reaction_id: String,
    /// The reacting user's public key as a hex string.
    pub user: String,
    /// The emoji.
    pub emoji: String,
    /// When the reaction was made, Unix seconds.
    pub created_at: i64,
}

/// The exact correspondence between source and UI user reactions.
pub open spec fn user_reaction_converts(src: SourceUserReaction, dst: UserReaction) -> bool {
    &&& dst.reaction_id@ == hex_of_bytes(src.reaction_id@)
    &&& dst.user@ == hex_of_bytes(src.user@)
    &&& dst.emoji == src.emoji
    &&& dst.created_at == clamped_timestamp(src.created_at)
}

/// Converts one user reaction.
pub fn user_reaction_from_source(src: &SourceUserReaction) -> (r: UserReaction)
    ensures
        user_reaction_converts(*src, r),
{
    UserReaction {
        reaction_id: crate::utils::bytes_to_hex_string(&src.reaction_id),
        user: crate::utils::bytes_to_hex_string(&src.user),
        emoji: src.emoji.clone(),
        created_at: clamp_timestamp(src.created_at),
    }
}

/// All reactions on a message, as the collaborator represents them.
#[derive(Debug, Clone)]
pub struct SourceReactionSummary {
    /// Per-emoji details, in the collaborator's enumeration order.
    pub by_emoji: Vec<SourceEmojiReaction>,
    /// Every individual reaction.
    pub user_reactions: Vec<SourceUserReaction>,
}

/// All reactions on a message, as the UI represents them.
#[derive(Debug, Clone)]
pub struct ReactionSummary {
    /// Per-emoji details.
    pub by_emoji: Vec<EmojiReaction>,
    /// Every individual reaction.
    pub user_reactions: Vec<UserReaction>,
}

/// The exact correspondence between source and UI reaction summaries.
pub open spec fn reaction_summary_converts(src: SourceReactionSummary, dst: ReactionSummary) -> bool {
    &&& dst.by_emoji@.len() == src.by_emoji@.len()
    &&& forall|i: int|
        0 <= i < src.by_emoji@.len() ==> emoji_reaction_converts(
            src.by_emoji@[i],
            #[trigger] dst.by_emoji@[i],
        )
    &&& dst.user_reactions@.len() == src.user_reactions@.len()
    &&& forall|i: int|
        0 <= i < src.user_reactions@.len() ==> user_reaction_converts(
            src.user_reactions@[i],
            #[trigger] dst.user_reactions@[i],
        )
}

/// Converts a reaction summary.
pub fn reaction_summary_from_source(src: &SourceReactionSummary) -> (r: ReactionSummary)
    ensures
        reaction_summary_converts(*src, r),
{
    let mut by_emoji: Vec<EmojiReaction> = Vec::new();
    let mut i: usize = 0;
    while i < src.by_emoji.len()
        invariant
            i <= src.by_emoji@.len(),
            by_emoji@.len() == i,
            forall|j: int|
                0 <= j < i ==> emoji_reaction_converts(
                    src.by_emoji@[j],
                    #[trigger] by_emoji@[j],
                ),
        decreases src.by_emoji@.len() - i,
    {
        by_emoji.push(emoji_reaction_from_source(&src.by_emoji[i]));
        i = i + 1;
    }
    let mut user_reactions: Vec<UserReaction> = Vec::new();
    let mut i: usize = 0;
    while i < src.user_reactions.len()
        invariant
            i <= src.user_reactions@.len(),
            user_reactions@.len() == i,
            forall|j: int|
                0 <= j < i ==> user_reaction_converts(
                    src.user_reactions@[j],
                    #[trigger] user_reactions@[j],
                ),
        decreases src.user_reactions@.len() - i,
    {
        user_reactions.push(user_reaction_from_source(&src.user_reactions[i]));
        i = i + 1;
    }
    ReactionSummary { by_emoji, user_reactions }
}

/// A chat message, as the collaborator aggregates it.
#[derive(Debug, Clone)]
pub struct SourceChatMessage {
    /// The message identifier, already a hex string on the source side.
    pub id: String,
    /// The author's raw public key.
    pub author: Vec<u8>,
    /// The message text.
    pub content: String,
    /// When the message was created, Unix seconds.
    pub created_at: u64,
    /// The event's tags, each a list of entries.
    pub tags: Vec<Vec<String>>,
    /// Whether the message replies to another.
    pub is_reply: bool,
    /// The replied-to message's identifier.
    pub reply_to_id: Option<String>,
    /// Whether the message was deleted.
    pub is_deleted: bool,
    /// The tokenized content.
    pub content_tokens: Vec<SourceSerializableToken>,
    /// All reactions on the message.
    pub reactions: SourceReactionSummary,
    /// Media attached to the message.
    pub media_attachments: Vec<MediaFile>,
    /// The event kind.
    pub kind: u16,
}

/// A chat message, as the UI represents it.
#[derive(Debug, Clone)]
pub struct ChatMessage {
    /// The message identifier as a hex string.
    pub id: String,
    /// The author's public key as a hex string.
    pub pubkey: String,
    /// The message text.
    pub content: String,
    /// When the message was created, Unix seconds.
    pub created_at: i64,
    /// The event's tags.
    pub tags: Vec<Vec<String>>,
    /// Whether the message replies to another.
    pub is_reply: bool,
    /// The replied-to message's identifier.
    pub reply_to_id: Option<String>,
    /// Whether the message was deleted.
    pub is_deleted: bool,
    /// The tokenized content.
    pub content_tokens: Vec<SerializableToken>,
    /// All reactions on the message.
    pub reactions: ReactionSummary,
    /// Media attached to the message.
    pub media_attachments: Vec<MediaFile>,
    /// The event kind.
    pub kind: u16,
}

/// Two media attachments carrying the same data.
pub open spec fn media_file_matches(a: MediaFile, b: MediaFile) -> bool {
    a.path == b.path && a.mime_type == b.mime_type
}

/// The exact correspondence between a source message and its UI form.
pub open spec fn chat_message_converts(src: SourceChatMessage, dst: ChatMessage) -> bool {
    &&& dst.id == src.id
    &&& dst.pubkey@ == hex_of_bytes(src.author@)
    &&& dst.content == src.content
    &&& dst.created_at == clamped_timestamp(src.created_at)
    &&& dst.tags@.len() == src.tags@.len()
    &&& forall|i: int| 0 <= i < src.tags@.len() ==> (#[trigger] dst.tags@[i])@ == src.tags@[i]@
    &&& dst.is_reply == src.is_reply
    &&& dst.reply_to_id == src.reply_to_id
    &&& dst.is_deleted == src.is_deleted
    &&& dst.content_tokens@.len() == src.content_tokens@.len()
    &&& forall|i: int|
        0 <= i < src.content_tokens@.len() ==> token_converts(
            src.content_tokens@[i],
            #[trigger] dst.content_tokens@[i],
        )
    &&& reaction_summary_converts(src.reactions, dst.reactions)
    &&& dst.media_attachments@.len() == src.media_attachments@.len()
    &&& forall|i: int|
        0 <= i < src.media_attachments@.len() ==> media_file_matches(
            src.media_attachments@[i],
            #[trigger] dst.media_attachments@[i],
        )
    &&& dst.kind == src.kind
}

/// Converts one chat message.
pub fn chat_message_from_source(src: &SourceChatMessage) -> (r: ChatMessage)
    ensures
        chat_message_converts(*src, r),
{
    ChatMessage {
        id: src.id.clone(),
        pubkey: crate::utils::bytes_to_hex_string(&src.author),
        content: src.content.clone(),
        created_at: clamp_timestamp(src.created_at),
        tags: clone_tags(&src.tags),
        is_reply: src.is_reply,
        reply_to_id: crate::utils::clone_opt_string(&src.reply_to_id),
        is_deleted: src.is_deleted,
        content_tokens: tokens_from_source(&src.content_tokens),
        reactions: reaction_summary_from_source(&src.reactions),
        media_attachments: clone_media(&src.media_attachments),
        kind: src.kind,
    }
}

/// Clones a tag list, entry by entry.
fn clone_tags(tags: &Vec<Vec<String>>) -> (r: Vec<Vec<String>>)
    ensures
        r@.len() == tags@.len(),
        forall|i: int| 0 <= i < tags@.len() ==> (#[trigger] r@[i])@ == tags@[i]@,
{
    let mut r: Vec<Vec<String>> = Vec::new();
    let mut i: usize = 0;
    while i < tags.len()
        invariant
            i <= tags@.len(),
            r@.len() == i,
            forall|j: int| 0 <= j < i ==> (#[trigger] r@[j])@ == tags@[j]@,
        decreases tags@.len() - i,
    {
        let mut entry: Vec<String> = Vec::new();
        let mut j: usize = 0;
        while j < tags[i].len()
            invariant
                i < tags@.len(),
                j <= tags@[i as int]@.len(),
                entry@ == tags@[i as int]@.take(j as int),
            decreases tags@[i as int]@.len() - j,
        {
            entry.push(tags[i][j].clone());
            proof {
                assert(entry@ =~= tags@[i as int]@.take(j + 1));
            }
            j = j + 1;
        }
        proof {
            assert(entry@ =~= tags@[i as int]@);
        }
        r.push(entry);
        i = i + 1;
    }
    r
}

/// Clones a media attachment list.
fn clone_media(media: &Vec<MediaFile>) -> (r: Vec<MediaFile>)
    ensures
        r@.len() == media@.len(),
        forall|i: int|
            0 <= i < media@.len() ==> media_file_matches(media@[i], #[trigger] r@[i]),
{
    let mut r: Vec<MediaFile> = Vec::new();
    let mut i: usize = 0;
    while i < media.len()
        invariant
            i <= media@.len(),
            r@.len() == i,
            forall|j: int| 0 <= j < i ==> media_file_matches(media@[j], #[trigger] r@[j]),
        decreases media@.len() - i,
    {
        let m = MediaFile { path: media[i].path.clone(), mime_type: media[i].mime_type.clone() };
        r.push(m);
        i = i + 1;
    }
    r
}

/// Converts a message list, keeping order.
pub fn chat_messages_from_source(msgs: &Vec<SourceChatMessage>) -> (r: Vec<ChatMessage>)
    ensures
        r@.len() == msgs@.len(),
        forall|i: int| 0 <= i < msgs@.len() ==> chat_message_converts(msgs@[i], #[trigger] r@[i]),
{
    let mut r: Vec<ChatMessage> = Vec::new();
    let mut i: usize = 0;
    while i < msgs.len()
        invariant
            i <= msgs@.len(),
            r@.len() == i,
            forall|j: int| 0 <= j < i ==> chat_message_converts(msgs@[j], #[trigger] r@[j]),
        decreases msgs@.len() - i,
    {
        r.push(chat_message_from_source(&msgs[i]));
        i = i + 1;
    }
    r
}

/// A message with its tokenized content, as the collaborator returns it
/// after sending.
#[derive(Debug, Clone)]
pub struct SourceMessageWithTokens {
    /// The event identifier's raw bytes.
    pub id: Vec<u8>,
    /// The author's raw public key.
    pub pubkey: Vec<u8>,
    /// The event kind.
    pub kind: u16,
    /// When the message was created, Unix seconds.
    pub created_at: u64,
    /// The message text.
    pub content: String,
    /// The tokenized content.
    pub tokens: Vec<SourceSerializableToken>,
}

/// A message with its tokenized content, as the UI represents it.
#[derive(Debug, Clone)]
pub struct MessageWithTokens {
    /// The event identifier as a hex string.
    pub id: String,
    /// The author's public key as a hex string.
    pub pubkey: String,
    /// The event kind.
    pub kind: u16,
    /// When the message was created, Unix seconds.
    pub created_at: i64,
    /// The message text; always present.
    pub content: Option<String>,
    /// The tokenized content.
    pub tokens: Vec<SerializableToken>,
}

/// The exact correspondence between the source and UI message-with-tokens.
pub open spec fn message_with_tokens_converts(
    src: SourceMessageWithTokens,
    dst: MessageWithTokens,
) -> bool {
    &&& dst.id@ == hex_of_bytes(src.id@)
    &&& dst.pubkey@ == hex_of_bytes(src.pubkey@)
    &&& dst.kind == src.kind
    &&& dst.created_at == clamped_timestamp(src.created_at)
    &&& dst.content == Some(src.content)
    &&& dst.tokens@.len() == src.tokens@.len()
    &&& forall|i: int|
        0 <= i < src.tokens@.len() ==> token_converts(src.tokens@[i], #[trigger] dst.tokens@[i])
}

/// Converts a message with tokens.
pub fn message_with_tokens_from_source(src: &SourceMessageWithTokens) -> (r: MessageWithTokens)
    ensures
        message_with_tokens_converts(*src, r),
{
    MessageWithTokens {
        id: crate::utils::bytes_to_hex_string(&src.id),
        pubkey: crate::utils::bytes_to_hex_string(&src.pubkey),
        kind: src.kind,
        created_at: clamp_timestamp(src.created_at),
        content: Some(src.content.clone()),
        tokens: tokens_from_source(&src.tokens),
    }
}

/// A one-line message preview, as the collaborator aggregates it.
#[derive(Debug, Clone)]
pub struct SourceChatMessageSummary {
    /// The group the message belongs to.
    pub mls_group_id: crate::utils::GroupId,
    /// The author's raw public key.
    pub author: Vec<u8>,
    /// The author's display name, when known.
    pub author_display_name: Option<String>,
    /// The message text.
    pub content: String,
    /// When the message was created, Unix seconds.
    pub created_at: i64,
    /// How many media files the message attaches.
    pub media_attachment_count: usize,
}

/// A one-line message preview, as the UI represents it.
#[derive(Debug, Clone)]
pub struct ChatMessageSummary {
    /// The group's identifier as a hex string.
    pub mls_group_id: String,
    /// The author's public key as a hex string.
    pub author: String,
    /// The author's display name, when known.
    pub author_display_name: Option<String>,
    /// The message text.
    pub content: String,
    /// When the message was created, Unix seconds.
    pub created_at: i64,
    /// How many media files the message attaches.
    pub media_attachment_count: u64,
}

/// The exact correspondence between source and UI message previews.
pub open spec fn chat_message_summary_converts(
    src: SourceChatMessageSummary,
    dst: ChatMessageSummary,
) -> bool {
    &&& dst.mls_group_id@ == hex_of_bytes(src.mls_group_id.bytes@)
    &&& dst.author@ == hex_of_bytes(src.author@)
    &&& dst.author_display_name == src.author_display_name
    &&& dst.content == src.content
    &&& dst.created_at == src.created_at
    &&& dst.media_attachment_count == src.media_attachment_count as u64
}

/// Converts one message preview.
pub fn chat_message_summary_from_source(src: &SourceChatMessageSummary) -> (r: ChatMessageSummary)
    ensures
        chat_message_summary_converts(*src, r),
{
    ChatMessageSummary {
        mls_group_id: crate::utils::group_id_to_string(&src.mls_group_id),
        author: crate::utils::bytes_to_hex_string(&src.author),
        author_display_name: crate::utils::clone_opt_string(&src.author_display_name),
        content: src.content.clone(),
        created_at: src.created_at,
        media_attachment_count: src.media_attachment_count as u64,
    }
}

/// What triggered a message update, as the collaborator tags it.
#[derive(Debug, Clone, Copy, PartialEq, Eq, Structural)]
pub enum SourceUpdateTrigger {
    /// A new message was added to the group.
    NewMessage,
    /// A reaction was added to this message.
    ReactionAdded,
    /// A reaction was removed from this message.
    ReactionRemoved,
    /// The message itself was marked as deleted.
    MessageDeleted,
}

/// What triggered a message update in the stream.
#[derive(Debug, Clone, Copy, PartialEq, Eq, Structural)]
pub enum UpdateTrigger {
    /// A new message was added to the group.
    NewMessage,
    /// A reaction was added to this message.
    ReactionAdded,
    /// A reaction was removed from this message.
    ReactionRemoved,
    /// The message itself was marked as deleted.
    MessageDeleted,
}

/// The UI trigger corresponding to a source trigger.
pub open spec fn converted_update_trigger(trigger: SourceUpdateTrigger) -> UpdateTrigger {
    match trigger {
        SourceUpdateTrigger::NewMessage => UpdateTrigger::NewMessage,
        SourceUpdateTrigger::ReactionAdded => UpdateTrigger::ReactionAdded,
        SourceUpdateTrigger::ReactionRemoved => UpdateTrigger::ReactionRemoved,
        SourceUpdateTrigger::MessageDeleted => UpdateTrigger::MessageDeleted,
    }
}

impl From<SourceUpdateTrigger> for UpdateTrigger {
    fn from(trigger: SourceUpdateTrigger) -> (r: Self) {
        match trigger {
            SourceUpdateTrigger::NewMessage => UpdateTrigger::NewMessage,
            SourceUpdateTrigger::ReactionAdded => UpdateTrigger::ReactionAdded,
            SourceUpdateTrigger::ReactionRemoved => UpdateTrigger::ReactionRemoved,
            SourceUpdateTrigger::MessageDeleted => UpdateTrigger::MessageDeleted,
        }
    }
}

impl vstd::std_specs::convert::FromSpecImpl<SourceUpdateTrigger> for UpdateTrigger {
    open spec fn obeys_from_spec() -> bool {
        true
    }

    open spec fn from_spec(trigger: SourceUpdateTrigger) -> Self {
        converted_update_trigger(trigger)
    }
}

/// A real-time update for a group message, as the collaborator emits it:
/// the trigger and the complete current state of the affected message.
#[derive(Debug, Clone)]
pub struct SourceMessageUpdate {
    /// What changed.
    pub trigger: SourceUpdateTrigger,
    /// The full current state of the affected message.
    pub message: SourceChatMessage,
}

/// A real-time update for a group message, as delivered to the UI.
#[derive(Debug, Clone)]
pub struct MessageUpdate {
    /// What changed.
    pub trigger: UpdateTrigger,
    /// The full current state of the affected message.
    pub message: ChatMessage,
}

/// The exact correspondence between source and UI message updates.
pub open spec fn message_update_converts(src: SourceMessageUpdate, dst: MessageUpdate) -> bool {
    &&& dst.trigger == converted_update_trigger(src.trigger)
    &&& chat_message_converts(src.message, dst.message)
}

/// Converts one message update.
pub fn message_update_from_source(src: &SourceMessageUpdate) -> (r: MessageUpdate)
    ensures
        message_update_converts(*src, r),
{
    MessageUpdate {
        trigger: UpdateTrigger::from(src.trigger),
        message: chat_message_from_source(&src.message),
    }
}

/// Stream item of the group-message subscription: first the snapshot of
/// all current messages, then one update at a time.
pub type MessageStreamItem = StreamEvent<ChatMessage, MessageUpdate>;

} // verus!
