//! Key and identifier helpers, settings helpers, and feed conversions on
//! concrete values.

use feed_bridge::account_groups::{SourceAccountGroup, account_group_from_source};
use feed_bridge::chat_list::{
    GroupType, SourceChatListItem, SourceGroupType, chat_summary_from_source,
};
use feed_bridge::create_whitenoise_config;
use feed_bridge::error::ApiError;
use feed_bridge::messages::{
    SerializableToken, SourceChatMessage, SourceReactionSummary, SourceSerializableToken,
    chat_message_from_source, clamp_timestamp, token_from_source,
};
use feed_bridge::notifications::{SourceNotificationUser, notification_user_from_source};
use feed_bridge::settings::{
    AccountSettings, AppSettings, Language, SourceAccountSettings, ThemeMode,
    app_settings_language, app_settings_theme_mode, language_english, language_to_string,
    theme_mode_dark, theme_mode_light, theme_mode_system, theme_mode_to_string,
};
use feed_bridge::user_search::{
    SourceMatchQuality, SourceMatchedField, SourceUserSearchResult, UserMetadata,
    search_result_from_source,
};
use feed_bridge::utils::{
    GroupId, get_default_blossom_server_url, group_id_from_string, group_id_to_string,
    hex_pubkey_from_npub, npub_from_hex_pubkey, relay_url_from_string, string_from_relay_url,
    tag_from_vec,
};
use nostr_sdk::prelude::{PublicKey, ToBech32};

#[test]
fn group_id_hex_round_trip() {
    let id = GroupId { bytes: vec![0x00, 0x1f, 0xab, 0xff] };
    let s = group_id_to_string(&id);
    assert_eq!(s, "001fabff");
    let back = group_id_from_string(&s).expect("hex form must decode");
    assert_eq!(back.bytes, id.bytes);
}

#[test]
fn group_id_rejects_bad_hex() {
    assert!(matches!(group_id_from_string("abc"), Err(ApiError::InvalidGroupId)));
    assert!(matches!(group_id_from_string("zz"), Err(ApiError::InvalidGroupId)));
    assert!(group_id_from_string("").is_ok());
}

#[test]
fn npub_encoding_agrees_with_the_underlying_library() {
    let hex = "ab".repeat(32);
    let npub = npub_from_hex_pubkey(&hex).expect("64 hex digits must encode");
    let expected = PublicKey::from_hex(&hex).unwrap().to_bech32().unwrap();
    assert_eq!(npub, expected);
    assert_eq!(npub.len(), 63);
    assert!(npub.starts_with("npub1"));
}

#[test]
fn npub_encoding_rejects_non_hex() {
    assert!(matches!(npub_from_hex_pubkey("npub1xyz"), Err(ApiError::InvalidPublicKey)));
    assert!(matches!(npub_from_hex_pubkey("abcd"), Err(ApiError::InvalidPublicKey)));
}

#[test]
fn hex_from_npub_normalizes_both_forms() {
    let hex = "ab".repeat(32);
    let npub = PublicKey::from_hex(&hex).unwrap().to_bech32().unwrap();
    assert_eq!(hex_pubkey_from_npub(&npub).unwrap(), hex);
    assert_eq!(hex_pubkey_from_npub(&hex).unwrap(), hex);
    assert!(matches!(hex_pubkey_from_npub("not a key"), Err(ApiError::InvalidPublicKey)));
}

#[test]
fn relay_url_round_trip() {
    let url = relay_url_from_string("wss://relay.example.com".to_string()).expect("must parse");
    let s = string_from_relay_url(&url);
    assert!(s.starts_with("wss://relay.example.com"));
    assert!(matches!(
        relay_url_from_string("not a url".to_string()),
        Err(ApiError::InvalidRelayUrl)
    ));
}

#[test]
fn tag_rejects_only_the_empty_list() {
    assert!(tag_from_vec(vec!["p".to_string(), "ab".repeat(32)]).is_ok());
    assert!(matches!(tag_from_vec(vec![]), Err(ApiError::InvalidTag)));
}

#[test]
fn error_messages_describe_each_failure() {
    assert_eq!(ApiError::InvalidPublicKey.message(), "invalid public key");
    assert_eq!(ApiError::InvalidGroupId.message(), "invalid group id");
    assert_eq!(ApiError::InvalidRelayUrl.message(), "invalid relay url");
    assert_eq!(ApiError::InvalidTag.message(), "empty tag");
    assert_eq!(
        ApiError::SignerFailure.message(),
        "foreign signer returned no valid signed event"
    );
    let other = ApiError::Other { message: "boom".to_string() };
    assert_eq!(other.message(), "boom");
}

#[test]
fn default_blossom_server() {
    assert_eq!(get_default_blossom_server_url(), "https://blossom.primal.net");
}

#[test]
fn theme_mode_helpers() {
    assert_eq!(theme_mode_light(), ThemeMode::Light);
    assert_eq!(theme_mode_dark(), ThemeMode::Dark);
    assert_eq!(theme_mode_system(), ThemeMode::System);
    assert_eq!(theme_mode_to_string(&ThemeMode::Light), "light");
    assert_eq!(theme_mode_to_string(&ThemeMode::Dark), "dark");
    assert_eq!(theme_mode_to_string(&ThemeMode::System), "system");
}

#[test]
fn language_helpers() {
    assert_eq!(language_english(), Language::English);
    assert_eq!(language_to_string(&Language::English), "en");
    assert_eq!(language_to_string(&Language::Turkish), "tr");
    assert_eq!(language_to_string(&Language::Portuguese), "pt");
}

#[test]
fn app_settings_accessors() {
    let settings = AppSettings { theme_mode: ThemeMode::Dark, language: Language::French };
    assert_eq!(app_settings_theme_mode(&settings), ThemeMode::Dark);
    assert_eq!(app_settings_language(&settings), Language::French);
}

#[test]
fn account_settings_conversion_copies_fields() {
    let src = SourceAccountSettings {
        notifications_enabled: true,
        created_at: 100,
        updated_at: 200,
    };
    let dst: AccountSettings = src.into();
    assert!(dst.notifications_enabled);
    assert_eq!(dst.created_at, 100);
    assert_eq!(dst.updated_at, 200);
}

#[test]
fn whitenoise_config_holds_the_paths() {
    let c = create_whitenoise_config("/data".to_string(), "/logs".to_string());
    assert_eq!(c.data_dir, "/data");
    assert_eq!(c.logs_dir, "/logs");
}

#[test]
fn timestamp_clamping() {
    assert_eq!(clamp_timestamp(0), 0);
    assert_eq!(clamp_timestamp(1_700_000_000), 1_700_000_000);
    // The last displayable calendar second (end of year 262142) survives;
    // anything later collapses to the epoch.
    assert_eq!(clamp_timestamp(8_210_266_876_799), 8_210_266_876_799);
    assert_eq!(clamp_timestamp(8_210_266_876_800), 0);
    assert_eq!(clamp_timestamp(9_000_000_000_000_000), 0);
    assert_eq!(clamp_timestamp(i64::MAX as u64), 0);
    assert_eq!(clamp_timestamp(u64::MAX), 0);
}

#[test]
fn token_conversion_tags_each_variant() {
    let t: SerializableToken = token_from_source(&SourceSerializableToken::Nostr("x".into()));
    assert_eq!(t.token_type, "Nostr");
    assert_eq!(t.content.as_deref(), Some("x"));
    let t = token_from_source(&SourceSerializableToken::Url("u".into()));
    assert_eq!(t.token_type, "Url");
    let t = token_from_source(&SourceSerializableToken::Hashtag("h".into()));
    assert_eq!(t.token_type, "Hashtag");
    let t = token_from_source(&SourceSerializableToken::Text("w".into()));
    assert_eq!(t.token_type, "Text");
    let t = token_from_source(&SourceSerializableToken::LineBreak);
    assert_eq!(t.token_type, "LineBreak");
    assert!(t.content.is_none());
    let t = token_from_source(&SourceSerializableToken::Whitespace);
    assert_eq!(t.token_type, "Whitespace");
    assert!(t.content.is_none());
}

#[test]
fn chat_message_conversion_hex_encodes_the_author() {
    let src = SourceChatMessage {
        id: "deadbeef".to_string(),
        author: vec![0xde, 0xad],
        content: "hi".to_string(),
        created_at: 7,
        tags: vec![vec!["p".to_string()]],
        is_reply: false,
        reply_to_id: None,
        is_deleted: false,
        content_tokens: vec![SourceSerializableToken::Text("hi".into())],
        reactions: SourceReactionSummary { by_emoji: vec![], user_reactions: vec![] },
        media_attachments: vec![],
        kind: 9,
    };
    let dst = chat_message_from_source(&src);
    assert_eq!(dst.id, "deadbeef");
    assert_eq!(dst.pubkey, "dead");
    assert_eq!(dst.content, "hi");
    assert_eq!(dst.created_at, 7);
    assert_eq!(dst.tags, vec![vec!["p".to_string()]]);
    assert_eq!(dst.content_tokens.len(), 1);
    assert_eq!(dst.kind, 9);
}

#[test]
fn chat_summary_conversion_handles_optional_fields() {
    let src = SourceChatListItem {
        mls_group_id: GroupId { bytes: vec![0xaa] },
        name: Some("room".to_string()),
        group_type: SourceGroupType::Group,
        created_at: 5,
        group_image_path: None,
        group_image_url: None,
        last_message: None,
        pending_confirmation: true,
        welcomer_pubkey: Some(vec![0x01, 0x02]),
    };
    let dst = chat_summary_from_source(&src);
    assert_eq!(dst.mls_group_id, "aa");
    assert_eq!(dst.name.as_deref(), Some("room"));
    assert_eq!(dst.group_type, GroupType::Group);
    assert!(dst.last_message.is_none());
    assert!(dst.pending_confirmation);
    assert_eq!(dst.welcomer_pubkey.as_deref(), Some("0102"));
}

#[test]
fn notification_user_conversion() {
    let src = SourceNotificationUser {
        pubkey: vec![0x0f, 0xf0],
        display_name: Some("nina".to_string()),
        picture_url: None,
    };
    let dst = notification_user_from_source(&src);
    assert_eq!(dst.pubkey, "0ff0");
    assert_eq!(dst.display_name.as_deref(), Some("nina"));
    assert!(dst.picture_url.is_none());
}

#[test]
fn search_result_conversion() {
    let src = SourceUserSearchResult {
        pubkey: vec![0xab],
        metadata: UserMetadata {
            name: Some("n".to_string()),
            display_name: None,
            about: None,
            picture: None,
            nip05: None,
        },
        radius: 2,
        match_quality: SourceMatchQuality::Prefix,
        best_field: SourceMatchedField::Name,
        matched_fields: vec![SourceMatchedField::Name, SourceMatchedField::About],
    };
    let dst = search_result_from_source(&src);
    assert_eq!(dst.pubkey, "ab");
    assert_eq!(dst.radius, 2);
    assert_eq!(dst.matched_fields.len(), 2);
}

#[test]
fn account_group_conversion_hex_encodes_identifiers() {
    let src = SourceAccountGroup {
        id: Some(3),
        account_pubkey: vec![0x11],
        mls_group_id: GroupId { bytes: vec![0x22] },
        user_confirmation: Some(true),
        welcomer_pubkey: None,
        last_read_message_id: Some(vec![0x33]),
        created_at: 1000,
        updated_at: 2000,
    };
    let dst = account_group_from_source(&src);
    assert_eq!(dst.id, Some(3));
    assert_eq!(dst.account_pubkey, "11");
    assert_eq!(dst.mls_group_id, "22");
    assert_eq!(dst.user_confirmation, Some(true));
    assert!(dst.welcomer_pubkey.is_none());
    assert_eq!(dst.last_read_message_id.as_deref(), Some("33"));
    assert_eq!(dst.created_at, 1000);
    assert_eq!(dst.updated_at, 2000);
}
