//! Conversions from the collaborator's trigger taxonomies to the UI's.

use feed_bridge::chat_list::{ChatListUpdateTrigger, SourceChatListUpdateTrigger};
use feed_bridge::messages::{SourceUpdateTrigger, UpdateTrigger};
use feed_bridge::notifications::{NotificationTrigger, SourceNotificationTrigger};
use feed_bridge::user_search::{
    MatchQuality, MatchedField, SearchUpdateTrigger, SourceMatchQuality, SourceMatchedField,
    SourceSearchUpdateTrigger,
};

#[test]
fn test_chat_list_update_trigger_conversion_new_group() {
    let trigger: ChatListUpdateTrigger = SourceChatListUpdateTrigger::NewGroup.into();
    assert_eq!(trigger, ChatListUpdateTrigger::NewGroup);
}

#[test]
fn test_chat_list_update_trigger_conversion_new_last_message() {
    let trigger: ChatListUpdateTrigger = SourceChatListUpdateTrigger::NewLastMessage.into();
    assert_eq!(trigger, ChatListUpdateTrigger::NewLastMessage);
}

#[test]
fn test_chat_list_update_trigger_conversion_last_message_deleted() {
    let trigger: ChatListUpdateTrigger = SourceChatListUpdateTrigger::LastMessageDeleted.into();
    assert_eq!(trigger, ChatListUpdateTrigger::LastMessageDeleted);
}

#[test]
fn test_update_trigger_conversion_new_message() {
    let trigger: UpdateTrigger = SourceUpdateTrigger::NewMessage.into();
    assert_eq!(trigger, UpdateTrigger::NewMessage);
}

#[test]
fn test_update_trigger_conversion_reaction_added() {
    let trigger: UpdateTrigger = SourceUpdateTrigger::ReactionAdded.into();
    assert_eq!(trigger, UpdateTrigger::ReactionAdded);
}

#[test]
fn test_update_trigger_conversion_reaction_removed() {
    let trigger: UpdateTrigger = SourceUpdateTrigger::ReactionRemoved.into();
    assert_eq!(trigger, UpdateTrigger::ReactionRemoved);
}

#[test]
fn test_update_trigger_conversion_message_deleted() {
    let trigger: UpdateTrigger = SourceUpdateTrigger::MessageDeleted.into();
    assert_eq!(trigger, UpdateTrigger::MessageDeleted);
}

#[test]
fn test_notification_trigger_conversion_new_message() {
    let trigger: NotificationTrigger = SourceNotificationTrigger::NewMessage.into();
    assert_eq!(trigger, NotificationTrigger::NewMessage);
}

#[test]
fn test_notification_trigger_conversion_group_invite() {
    let trigger: NotificationTrigger = SourceNotificationTrigger::GroupInvite.into();
    assert_eq!(trigger, NotificationTrigger::GroupInvite);
}

#[test]
fn match_quality_conversion_exact() {
    let quality: MatchQuality = SourceMatchQuality::Exact.into();
    assert_eq!(quality, MatchQuality::Exact);
}

#[test]
fn match_quality_conversion_prefix() {
    let quality: MatchQuality = SourceMatchQuality::Prefix.into();
    assert_eq!(quality, MatchQuality::Prefix);
}

#[test]
fn match_quality_conversion_contains() {
    let quality: MatchQuality = SourceMatchQuality::Contains.into();
    assert_eq!(quality, MatchQuality::Contains);
}

#[test]
fn matched_field_conversion_name() {
    let field: MatchedField = SourceMatchedField::Name.into();
    assert_eq!(field, MatchedField::Name);
}

#[test]
fn matched_field_conversion_nip05() {
    let field: MatchedField = SourceMatchedField::Nip05.into();
    assert_eq!(field, MatchedField::Nip05);
}

#[test]
fn matched_field_conversion_display_name() {
    let field: MatchedField = SourceMatchedField::DisplayName.into();
    assert_eq!(field, MatchedField::DisplayName);
}

#[test]
fn matched_field_conversion_about() {
    let field: MatchedField = SourceMatchedField::About.into();
    assert_eq!(field, MatchedField::About);
}

#[test]
fn search_update_trigger_conversion_radius_started() {
    let trigger: SearchUpdateTrigger = SourceSearchUpdateTrigger::RadiusStarted { radius: 2 }.into();
    assert!(matches!(trigger, SearchUpdateTrigger::RadiusStarted { radius: 2 }));
}

#[test]
fn search_update_trigger_conversion_results_found() {
    let trigger: SearchUpdateTrigger = SourceSearchUpdateTrigger::ResultsFound.into();
    assert!(matches!(trigger, SearchUpdateTrigger::ResultsFound));
}

#[test]
fn search_update_trigger_conversion_radius_completed() {
    let trigger: SearchUpdateTrigger = SourceSearchUpdateTrigger::RadiusCompleted {
        radius: 1,
        total_pubkeys_searched: 500,
    }
    .into();
    assert!(matches!(
        trigger,
        SearchUpdateTrigger::RadiusCompleted {
            radius: 1,
            total_pubkeys_searched: 500,
        }
    ));
}

#[test]
fn search_update_trigger_conversion_radius_capped() {
    let trigger: SearchUpdateTrigger = SourceSearchUpdateTrigger::RadiusCapped {
        radius: 3,
        cap: 10_000,
        actual: 25_000,
    }
    .into();
    assert!(matches!(
        trigger,
        SearchUpdateTrigger::RadiusCapped {
            radius: 3,
            cap: 10_000,
            actual: 25_000,
        }
    ));
}

#[test]
fn search_update_trigger_conversion_radius_timeout() {
    let trigger: SearchUpdateTrigger = SourceSearchUpdateTrigger::RadiusTimeout { radius: 4 }.into();
    assert!(matches!(trigger, SearchUpdateTrigger::RadiusTimeout { radius: 4 }));
}

#[test]
fn search_update_trigger_conversion_search_completed() {
    let trigger: SearchUpdateTrigger = SourceSearchUpdateTrigger::SearchCompleted {
        final_radius: 2,
        total_results: 42,
    }
    .into();
    assert!(matches!(
        trigger,
        SearchUpdateTrigger::SearchCompleted {
            final_radius: 2,
            total_results: 42,
        }
    ));
}

#[test]
fn search_update_trigger_conversion_error() {
    let trigger: SearchUpdateTrigger = SourceSearchUpdateTrigger::Error {
        message: "something broke".to_string(),
    }
    .into();
    if let SearchUpdateTrigger::Error { message } = trigger {
        assert_eq!(message, "something broke");
    } else {
        panic!("Expected Error variant");
    }
}
