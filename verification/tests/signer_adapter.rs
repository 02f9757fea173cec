//! The external signer adapter with concrete foreign callbacks.

use feed_bridge::event_json::{EventData, UnsignedEventData, parse_event, serialize_event,
    serialize_unsigned_event};
use feed_bridge::signer::{ExternalSigner, FixedResponseCallbacks};

fn sample_unsigned() -> UnsignedEventData {
    UnsignedEventData {
        pubkey: b"ab".repeat(32),
        created_at: 1_700_000_000,
        kind: 1,
        tags: vec![vec![b"p".to_vec(), b"ab".repeat(32)], vec![b"t".to_vec(), b"greeting".to_vec()]],
        content: b"hello \"world\"\nline two".to_vec(),
    }
}

fn signed_from(u: &UnsignedEventData) -> EventData {
    EventData {
        id: b"cd".repeat(32),
        pubkey: u.pubkey.clone(),
        created_at: u.created_at,
        kind: u.kind,
        tags: u.tags.clone(),
        content: u.content.clone(),
        sig: b"ef".repeat(64),
    }
}

/// A foreign signer that echoes the expected signed event in the crate's
/// canonical form.
fn echo_callbacks(unsigned: &UnsignedEventData) -> FixedResponseCallbacks {
    FixedResponseCallbacks::new(serialize_event(&signed_from(unsigned)), "unused".to_string())
}

/// A foreign signer that answers with text that is not a signed event.
fn broken_callbacks() -> FixedResponseCallbacks {
    FixedResponseCallbacks::new(b"{\"not\":\"an event\"".to_vec(), "unused".to_string())
}

#[test]
fn echoed_signed_event_comes_back_unchanged() {
    let unsigned = sample_unsigned();
    let mut signer = ExternalSigner::new("ab".repeat(32), echo_callbacks(&unsigned));
    let event = signer.sign_event(&unsigned).expect("echo signer must succeed");
    assert_eq!(event.pubkey, unsigned.pubkey);
    assert_eq!(event.created_at, unsigned.created_at);
    assert_eq!(event.kind, unsigned.kind);
    assert_eq!(event.tags, unsigned.tags);
    assert_eq!(event.content, unsigned.content);
    assert_eq!(event.id, b"cd".repeat(32));
    assert_eq!(event.sig, b"ef".repeat(64));
    // The foreign side received exactly one request: the framed event.
    assert_eq!(signer.callbacks.sign_requests, vec![serialize_unsigned_event(&unsigned)]);
}

#[test]
fn non_canonical_signed_event_is_still_accepted() {
    // A real signer may serialize the event itself: different field order,
    // whitespace, its own escaping. The adapter must still accept it.
    let unsigned = sample_unsigned();
    let response = format!(
        "{{ \"content\": \"hi\", \"created_at\": 42, \"kind\": 1, \"tags\": [[\"t\", \"x\"]], \
         \"pubkey\": \"{}\", \"id\": \"{}\", \"sig\": \"{}\" }}",
        "ab".repeat(32),
        "cd".repeat(32),
        "ef".repeat(64),
    );
    let callbacks = FixedResponseCallbacks::new(response.into_bytes(), "unused".to_string());
    let mut signer = ExternalSigner::new("ab".repeat(32), callbacks);
    let event = signer.sign_event(&unsigned).expect("valid signed-event JSON must be accepted");
    assert_eq!(event.content, b"hi".to_vec());
    assert_eq!(event.created_at, 42);
    assert_eq!(event.kind, 1);
    assert_eq!(event.tags, vec![vec![b"t".to_vec(), b"x".to_vec()]]);
    assert_eq!(event.id, b"cd".repeat(32));
    assert_eq!(event.pubkey, b"ab".repeat(32));
    assert_eq!(event.sig, b"ef".repeat(64));
}

#[test]
fn malformed_response_is_a_signing_error() {
    let unsigned = sample_unsigned();
    let mut signer = ExternalSigner::new("ab".repeat(32), broken_callbacks());
    let result = signer.sign_event(&unsigned);
    assert!(matches!(result, Err(feed_bridge::error::ApiError::SignerFailure)));
}

#[test]
fn public_key_needs_no_foreign_call() {
    let signer = ExternalSigner::new("ab".repeat(32), broken_callbacks());
    assert_eq!(signer.get_public_key(), "ab".repeat(32));
    assert!(signer.callbacks.sign_requests.is_empty());
}

#[test]
fn encryption_operations_pass_through_verbatim() {
    let callbacks = FixedResponseCallbacks::new(vec![], "foreign-answer".to_string());
    let mut signer = ExternalSigner::new("ab".repeat(32), callbacks);
    assert_eq!(signer.nip04_encrypt("k".to_string(), "m".to_string()), "foreign-answer");
    assert_eq!(signer.nip04_decrypt("k".to_string(), "c".to_string()), "foreign-answer");
    assert_eq!(signer.nip44_encrypt("k".to_string(), "m".to_string()), "foreign-answer");
    assert_eq!(signer.nip44_decrypt("k".to_string(), "c".to_string()), "foreign-answer");
}

#[test]
fn adapter_is_clonable_and_clones_share_no_mutable_state() {
    let unsigned = sample_unsigned();
    let signer = ExternalSigner::new("ab".repeat(32), echo_callbacks(&unsigned));
    let mut clone = signer.clone();
    assert_eq!(clone.get_public_key(), "ab".repeat(32));
    assert!(clone.sign_event(&unsigned).is_ok());
}

#[test]
fn canonical_serialization_has_the_documented_shape() {
    let unsigned = UnsignedEventData {
        pubkey: b"ab".repeat(32),
        created_at: 42,
        kind: 1,
        tags: vec![],
        content: b"hi".to_vec(),
    };
    let out = serialize_unsigned_event(&unsigned);
    let expected = format!(
        "{{\"pubkey\":\"{}\",\"created_at\":42,\"kind\":1,\"tags\":[],\"content\":\"hi\"}}",
        "ab".repeat(32)
    );
    assert_eq!(out, expected.into_bytes());
}

#[test]
fn serialization_escapes_quotes_backslashes_and_newlines() {
    let unsigned = UnsignedEventData {
        pubkey: b"00".repeat(32),
        created_at: 0,
        kind: 0,
        tags: vec![],
        content: b"a\"b\\c\nd\re\tf".to_vec(),
    };
    let out = serialize_unsigned_event(&unsigned);
    let text = String::from_utf8(out).unwrap();
    assert!(text.contains("\"content\":\"a\\\"b\\\\c\\nd\\re\\tf\""));
}

#[test]
fn parse_round_trips_a_serialized_event() {
    let unsigned = sample_unsigned();
    let event = signed_from(&unsigned);
    let bytes = serialize_event(&event);
    let back = parse_event(&bytes).expect("canonical form must parse");
    assert_eq!(back.id, event.id);
    assert_eq!(back.pubkey, event.pubkey);
    assert_eq!(back.created_at, event.created_at);
    assert_eq!(back.kind, event.kind);
    assert_eq!(back.tags, event.tags);
    assert_eq!(back.content, event.content);
    assert_eq!(back.sig, event.sig);
}

#[test]
fn parse_round_trips_empty_content_and_empty_tag_entries() {
    // An empty inner tag serializes as `[]`; it must come back empty.
    let event = EventData {
        id: b"00".repeat(32),
        pubkey: b"11".repeat(32),
        created_at: 0,
        kind: 0,
        tags: vec![vec![b"".to_vec()], vec![]],
        content: b"".to_vec(),
        sig: b"22".repeat(64),
    };
    let bytes = serialize_event(&event);
    let back = parse_event(&bytes).expect("canonical form must parse");
    assert_eq!(back.tags, event.tags);
    assert_eq!(back.content, b"".to_vec());
}

#[test]
fn parse_rejects_wrong_field_shapes() {
    let unsigned = sample_unsigned();
    let mut event = signed_from(&unsigned);
    event.id = b"cd".repeat(31);
    let bytes = serialize_event(&event);
    assert!(parse_event(&bytes).is_none());

    let mut event = signed_from(&unsigned);
    event.sig = b"zz".repeat(64);
    let bytes = serialize_event(&event);
    assert!(parse_event(&bytes).is_none());
}

#[test]
fn parse_rejects_truncated_input() {
    let unsigned = sample_unsigned();
    let event = signed_from(&unsigned);
    let mut bytes = serialize_event(&event);
    bytes.pop();
    assert!(parse_event(&bytes).is_none());
}
