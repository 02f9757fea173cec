//! The subscription bridge's delivery behaviour, on concrete streams.

use feed_bridge::bridge::{
    EventSink, OpenVecSink, RelayStep, SourceEvent, StreamEvent, VecSink, relay_step,
    relay_two_phase, relay_updates,
};
use feed_bridge::messages::{
    ChatMessage, MessageUpdate, ReactionSummary, UpdateTrigger,
};

fn msg(id: &str, content: &str) -> ChatMessage {
    ChatMessage {
        id: id.to_string(),
        pubkey: "ab".repeat(32),
        content: content.to_string(),
        created_at: 0,
        tags: vec![],
        is_reply: false,
        reply_to_id: None,
        is_deleted: false,
        content_tokens: vec![],
        reactions: ReactionSummary { by_emoji: vec![], user_reactions: vec![] },
        media_attachments: vec![],
        kind: 9,
    }
}

fn update(id: &str, content: &str) -> MessageUpdate {
    MessageUpdate { trigger: UpdateTrigger::NewMessage, message: msg(id, content) }
}

#[test]
fn stream_delivers_snapshot_then_updates_in_order() {
    let snapshot = vec![msg("1", "a"), msg("2", "b")];
    let events = vec![
        SourceEvent::Update(update("1", "c")),
        SourceEvent::Update(update("2", "d")),
        SourceEvent::Update(update("1", "e")),
    ];
    let mut sink: VecSink<StreamEvent<ChatMessage, MessageUpdate>> = VecSink::new(100);
    relay_two_phase(snapshot, events, &mut sink);
    assert_eq!(sink.items.len(), 4);
    match &sink.items[0] {
        StreamEvent::Snapshot(items) => {
            assert_eq!(items.len(), 2);
            assert_eq!(items[0].id, "1");
            assert_eq!(items[1].id, "2");
        },
        _ => panic!("first event must be the snapshot"),
    }
    let expected = ["c", "d", "e"];
    for (i, want) in expected.iter().enumerate() {
        match &sink.items[i + 1] {
            StreamEvent::Update(u) => assert_eq!(u.message.content, *want),
            _ => panic!("updates must follow the snapshot in order"),
        }
    }
}

#[test]
fn closed_sink_receives_nothing() {
    let snapshot = vec![msg("1", "a")];
    let events = vec![SourceEvent::Update(update("1", "b"))];
    let mut sink: VecSink<StreamEvent<ChatMessage, MessageUpdate>> = VecSink::new(0);
    relay_two_phase(snapshot, events, &mut sink);
    assert_eq!(sink.items.len(), 0);
}

#[test]
fn source_closed_after_snapshot_delivers_only_snapshot() {
    let snapshot = vec![msg("1", "a")];
    let events: Vec<SourceEvent<MessageUpdate>> = vec![
        SourceEvent::Closed,
        SourceEvent::Update(update("1", "never")),
    ];
    let mut sink: VecSink<StreamEvent<ChatMessage, MessageUpdate>> = VecSink::new(100);
    relay_two_phase(snapshot, events, &mut sink);
    assert_eq!(sink.items.len(), 1);
    assert!(matches!(&sink.items[0], StreamEvent::Snapshot(items) if items.len() == 1));
}

#[test]
fn sink_disconnecting_mid_stream_gets_a_prefix() {
    let snapshot = vec![msg("1", "a")];
    let events = vec![
        SourceEvent::Update(update("1", "b")),
        SourceEvent::Update(update("1", "c")),
        SourceEvent::Update(update("1", "d")),
    ];
    let mut sink: VecSink<StreamEvent<ChatMessage, MessageUpdate>> = VecSink::new(2);
    relay_two_phase(snapshot, events, &mut sink);
    assert_eq!(sink.items.len(), 2);
    assert!(matches!(&sink.items[0], StreamEvent::Snapshot(_)));
    match &sink.items[1] {
        StreamEvent::Update(u) => assert_eq!(u.message.content, "b"),
        _ => panic!("second event must be the first update"),
    }
}

#[test]
fn lag_produces_no_event_and_latest_state_wins() {
    // One item, id 1, snapshot state "A"; the source then emits full-state
    // updates "B" and "C" with a lag notice in between. The lag produces
    // no event and nothing is lost: "C" itself carries the latest truth.
    let snapshot = vec![msg("1", "A")];
    let events = vec![
        SourceEvent::Update(update("1", "B")),
        SourceEvent::Lagged,
        SourceEvent::Update(update("1", "C")),
    ];
    let mut sink: VecSink<StreamEvent<ChatMessage, MessageUpdate>> = VecSink::new(100);
    relay_two_phase(snapshot, events, &mut sink);
    assert_eq!(sink.items.len(), 3);
    match &sink.items[0] {
        StreamEvent::Snapshot(items) => {
            assert_eq!(items.len(), 1);
            assert_eq!(items[0].id, "1");
            assert_eq!(items[0].content, "A");
        },
        _ => panic!("first event must be the snapshot"),
    }
    match &sink.items[1] {
        StreamEvent::Update(u) => {
            assert!(matches!(u.trigger, UpdateTrigger::NewMessage));
            assert_eq!(u.message.content, "B");
        },
        _ => panic!("expected the first update"),
    }
    match &sink.items[2] {
        StreamEvent::Update(u) => {
            assert!(matches!(u.trigger, UpdateTrigger::NewMessage));
            assert_eq!(u.message.content, "C");
        },
        _ => panic!("expected the second update"),
    }
}

#[test]
fn updates_only_feed_keeps_order_and_stops_at_close() {
    let events = vec![
        SourceEvent::Update(10u32),
        SourceEvent::Lagged,
        SourceEvent::Update(20u32),
        SourceEvent::Closed,
        SourceEvent::Update(30u32),
    ];
    let mut sink: VecSink<u32> = VecSink::new(100);
    relay_updates(events, &mut sink);
    assert_eq!(sink.items, vec![10, 20]);
}

#[test]
fn relay_step_decisions() {
    assert!(matches!(relay_step(SourceEvent::Update(7u8)), RelayStep::Deliver(7)));
    assert!(matches!(relay_step(SourceEvent::<u8>::Lagged), RelayStep::Skip));
    assert!(matches!(relay_step(SourceEvent::<u8>::Closed), RelayStep::Stop));
}

#[test]
fn never_disconnecting_sink_gets_every_event() {
    let events = vec![
        SourceEvent::Update(1u32),
        SourceEvent::Update(2u32),
        SourceEvent::Lagged,
        SourceEvent::Update(3u32),
    ];
    let mut sink: OpenVecSink<u32> = OpenVecSink::new();
    relay_updates(events, &mut sink);
    assert_eq!(sink.items, vec![1, 2, 3]);
}

#[test]
fn vec_sink_reports_disconnection() {
    let mut sink: VecSink<u8> = VecSink::new(1);
    assert!(sink.send(1));
    assert!(!sink.send(2));
    assert_eq!(sink.items, vec![1]);
}
