use signalui::messaging::naming::{contact_title, pick_sender_name, resolve_sender_name, SenderContact};
use signalui::messaging::parse::{derive_inbound_events, parse_thread, resolve_conversation_id};
use signalui::messaging::types::{InboundEvent, LinkPreview, MsgRange, ReceiptKind, TypingAction};
use signalui::messaging::wire::{
    BodyRange, Content, ContentBody, DataMessage, Delete, EditMessage, PollCreate, PollVote, Preview, RangeValue, Reaction, ReceiptMessage, Thread,
    TypingMessage,
};

fn uuid_text(v: u128) -> String {
    let h = format!("{v:032x}");
    format!("{}-{}-{}-{}-{}", &h[0..8], &h[8..12], &h[12..16], &h[16..20], &h[20..32])
}

fn content(sender: u128, ts: u64, body: ContentBody) -> Content {
    Content { sender_uuid: uuid_text(sender), timestamp: ts, body }
}

fn empty_dm(ts: u64) -> DataMessage {
    DataMessage {
        body: None,
        timestamp: Some(ts),
        attachments: vec![],
        quote: None,
        reaction: None,
        delete: None,
        poll_create: None,
        poll_vote: None,
        group_call_update: false,
        pin_message: None,
        unpin_message: None,
        preview: vec![],
        body_ranges: vec![],
    }
}

fn contact(name: &str, phone: Option<&str>) -> SenderContact {
    SenderContact { name: name.to_string(), phone: phone.map(|p| p.to_string()) }
}

#[test]
fn parse_thread_uuid() {
    let result = parse_thread("01234567-89ab-cdef-0123-456789abcdef", None);
    assert!(result.is_ok());
}

#[test]
fn parse_thread_group_hex() {
    let key_hex = "a".repeat(64);
    let result = parse_thread(&key_hex, None);
    assert!(result.is_ok());
}

#[test]
fn parse_thread_invalid() {
    let result = parse_thread("not-a-valid-id", None);
    assert!(result.is_err());
}

#[test]
fn parse_thread_error_texts() {
    assert_eq!(parse_thread("not-a-valid-id", None).unwrap_err(), "invalid conversation id: not-a-valid-id");
    assert_eq!(parse_thread("abcd", None).unwrap_err(), "invalid group key length: 2");
    match parse_thread(&"0f".repeat(32), None).unwrap() {
        Thread::Group(k) => assert_eq!(k, vec![0x0f; 32]),
        other => panic!("unexpected {other:?}"),
    }
}

#[test]
fn data_message_with_body_emits_message_event() {
    let sender = 0x1111_1111_1111_1111_1111_1111_1111_1111u128;
    let dm = DataMessage::text("hello world".to_string(), 1700000000000);
    let events = derive_inbound_events(&content(sender, 1700000000000, ContentBody::DataMessage(dm)), &None, &None);
    assert_eq!(events.len(), 1);
    match &events[0] {
        InboundEvent::Message { conversation_id, message } => {
            assert_eq!(conversation_id, &uuid_text(sender));
            assert_eq!(message.body.as_deref(), Some("hello world"));
            assert_eq!(message.timestamp, 1700000000000);
        }
        other => panic!("unexpected {other:?}"),
    }
}

#[test]
fn reaction_message_emits_reaction_event() {
    let sender = 0x2222_2222_2222_2222_2222_2222_2222_2222u128;
    let mut dm = empty_dm(1700000000000);
    dm.reaction = Some(Reaction {
        emoji: Some("🔥".to_string()),
        remove: Some(false),
        target_author_aci: None,
        target_sent_timestamp: Some(1699999999000),
    });
    let events = derive_inbound_events(&content(sender, 1700000000000, ContentBody::DataMessage(dm)), &None, &None);
    assert_eq!(events.len(), 1);
    match &events[0] {
        InboundEvent::Reaction(r) => {
            assert_eq!(r.emoji, "🔥");
            assert_eq!(r.target_message_id, "1699999999000");
            assert_eq!(r.sender_id, uuid_text(sender));
            assert_eq!(r.chat_id, uuid_text(sender));
            assert!(!r.remove);
        }
        other => panic!("expected Reaction, got {other:?}"),
    }
}

#[test]
fn sender_name_prefers_profile_name() {
    let c = contact("Alice", Some("+33600000000"));
    assert_eq!(pick_sender_name(Some(&c), "01234567-89ab-cdef-0123-456789abcdef"), "Alice");
}

#[test]
fn sender_name_falls_back_to_phone() {
    let c = contact("", Some("+33612345678"));
    let name = pick_sender_name(Some(&c), "01234567-89ab-cdef-0123-456789abcdef");
    assert!(name.contains("33"), "expected formatted phone, got {:?}", name);
    assert!(!name.starts_with('~'));
}

#[test]
fn sender_name_fallback_to_uuid_prefix_when_no_contact() {
    assert_eq!(pick_sender_name(None, "01234567-89ab-cdef-0123-456789abcdef"), "~01234567");
}

#[test]
fn sender_name_fallback_when_contact_is_blank() {
    let c = contact("", None);
    assert_eq!(pick_sender_name(Some(&c), "deadbeef-cafe-1234-5678-9abcdef01234"), "~deadbeef");
}

#[test]
fn sender_name_short_uuid_does_not_panic() {
    assert_eq!(pick_sender_name(None, "abc"), "~abc");
}

#[test]
fn resolved_sender_name_order() {
    let me = Some("me".to_string());
    assert_eq!(resolve_sender_name("me", &me, None, None), "You");
    let c = contact("Bob", None);
    assert_eq!(resolve_sender_name("01234567-89ab-cdef-0123-456789abcdef", &me, Some(&c), Some("Robert")), "Bob");
    let blank = contact("", Some("+4912"));
    assert_eq!(
        resolve_sender_name("01234567-89ab-cdef-0123-456789abcdef", &me, Some(&blank), Some("Robert")),
        "Robert"
    );
    assert_eq!(resolve_sender_name("01234567-89ab-cdef-0123-456789abcdef", &me, Some(&blank), Some("  ")), "+4912");
    assert_eq!(contact_title("me", &me, &contact("x", None)), "Note to Self");
}

#[test]
fn reaction_remove_flag_propagates() {
    let sender = 0x3333_3333_3333_3333_3333_3333_3333_3333u128;
    let mut dm = empty_dm(1700000000000);
    dm.reaction = Some(Reaction {
        emoji: Some("👍".to_string()),
        remove: Some(true),
        target_author_aci: None,
        target_sent_timestamp: Some(1699999999000),
    });
    let events = derive_inbound_events(&content(sender, 1700000000000, ContentBody::DataMessage(dm)), &None, &None);
    match &events[0] {
        InboundEvent::Reaction(r) => assert!(r.remove),
        _ => panic!("expected Reaction"),
    }
}

#[test]
fn delete_message_emits_delete_event() {
    let sender = 0x4444_4444_4444_4444_4444_4444_4444_4444u128;
    let mut dm = empty_dm(1700000000000);
    dm.delete = Some(Delete { target_sent_timestamp: Some(1699999999000) });
    let events = derive_inbound_events(&content(sender, 1700000000000, ContentBody::DataMessage(dm)), &None, &None);
    assert_eq!(events.len(), 1);
    match &events[0] {
        InboundEvent::Deleted(d) => {
            assert_eq!(d.message_id, "1699999999000");
            assert_eq!(d.chat_id, uuid_text(sender));
        }
        other => panic!("expected Deleted, got {other:?}"),
    }
}

#[test]
fn edit_message_emits_edited_event() {
    let sender = 0x5555_5555_5555_5555_5555_5555_5555_5555u128;
    let inner = DataMessage::text("edited text".to_string(), 1700000000500);
    let edit = EditMessage { target_sent_timestamp: Some(1700000000000), data_message: Some(inner) };
    let events = derive_inbound_events(&content(sender, 1700000000500, ContentBody::EditMessage(edit)), &None, &None);
    assert_eq!(events.len(), 1);
    match &events[0] {
        InboundEvent::Edited(e) => {
            assert_eq!(e.message_id, "1700000000000");
            assert_eq!(e.new_text, "edited text");
            assert_eq!(e.edited_at, 1700000000500);
        }
        other => panic!("expected Edited, got {other:?}"),
    }
}

#[test]
fn receipt_message_emits_receipt_event() {
    let sender = 0x6666_6666_6666_6666_6666_6666_6666_6666u128;
    let receipt = ReceiptMessage { kind: Some(1), timestamps: vec![1700000000000, 1700000000100] };
    let events =
        derive_inbound_events(&content(sender, 1700000000200, ContentBody::ReceiptMessage(receipt)), &None, &None);
    assert_eq!(events.len(), 1);
    match &events[0] {
        InboundEvent::Receipt(r) => {
            assert_eq!(r.kind, ReceiptKind::Read);
            assert_eq!(r.message_ids, vec!["1700000000000", "1700000000100"]);
            assert_eq!(r.chat_id, uuid_text(sender));
        }
        other => panic!("expected Receipt, got {other:?}"),
    }
}

#[test]
fn empty_receipt_is_dropped() {
    let sender = 0x7777_7777_7777_7777_7777_7777_7777_7777u128;
    let receipt = ReceiptMessage { kind: Some(0), timestamps: vec![] };
    let events =
        derive_inbound_events(&content(sender, 1700000000000, ContentBody::ReceiptMessage(receipt)), &None, &None);
    assert!(events.is_empty());
}

#[test]
fn typing_message_emits_typing_event() {
    let sender = 0x8888_8888_8888_8888_8888_8888_8888_8888u128;
    let typing = TypingMessage { timestamp: Some(1700000000000), action: Some(0), group_id: None };
    let events =
        derive_inbound_events(&content(sender, 1700000000000, ContentBody::TypingMessage(typing)), &None, &None);
    assert_eq!(events.len(), 1);
    match &events[0] {
        InboundEvent::Typing(t) => {
            assert_eq!(t.action, TypingAction::Started);
            assert_eq!(t.sender_id, uuid_text(sender));
            assert_eq!(t.chat_id, uuid_text(sender));
        }
        other => panic!("expected Typing, got {other:?}"),
    }
}

#[test]
fn typing_message_with_group_id_uses_hex_chat_id() {
    let sender = 0x9999_9999_9999_9999_9999_9999_9999_9999u128;
    let group_id = vec![0xAB; 16];
    let typing = TypingMessage { timestamp: Some(1700000000000), action: Some(1), group_id: Some(group_id.clone()) };
    let events =
        derive_inbound_events(&content(sender, 1700000000000, ContentBody::TypingMessage(typing)), &None, &None);
    match &events[0] {
        InboundEvent::Typing(t) => {
            assert_eq!(t.chat_id, hex::encode(&group_id));
            assert_eq!(t.action, TypingAction::Stopped);
        }
        _ => panic!("expected Typing"),
    }
}

#[test]
fn null_message_yields_no_events() {
    let sender = 0xAAAA_AAAA_AAAA_AAAA_AAAA_AAAA_AAAA_AAAAu128;
    let events = derive_inbound_events(&content(sender, 1700000000000, ContentBody::NullMessage), &None, &None);
    assert!(events.is_empty());
}

#[test]
fn data_message_with_only_reaction_does_not_emit_chat_message() {
    let sender = 0xBBBB_BBBB_BBBB_BBBB_BBBB_BBBB_BBBB_BBBBu128;
    let mut dm = empty_dm(1700000000000);
    dm.reaction = Some(Reaction {
        emoji: Some("❤️".to_string()),
        remove: Some(false),
        target_author_aci: None,
        target_sent_timestamp: Some(1699999999000),
    });
    let events = derive_inbound_events(&content(sender, 1700000000000, ContentBody::DataMessage(dm)), &None, &None);
    assert_eq!(events.len(), 1);
    assert!(matches!(events[0], InboundEvent::Reaction(_)));
}

#[test]
fn group_thread_names_the_conversation() {
    let t = Some(Thread::Group(vec![0x01; 32]));
    assert_eq!(resolve_conversation_id(&t, "sender"), "01".repeat(32));
    assert_eq!(resolve_conversation_id(&None, "sender"), "sender");
}

#[test]
fn poll_only_message_is_a_chat_message() {
    let sender = 0x11u128;
    let mut dm = empty_dm(1700000000000);
    dm.poll_create = Some(PollCreate {
        question: Some("Lunch?".to_string()),
        options: vec!["yes".to_string(), "no".to_string()],
        allow_multiple: None,
    });
    let events = derive_inbound_events(&content(sender, 1700000000000, ContentBody::DataMessage(dm)), &None, &None);
    assert_eq!(events.len(), 1);
    match &events[0] {
        InboundEvent::Message { message, .. } => {
            assert!(message.body.is_none());
            let poll = message.poll.as_ref().expect("poll");
            assert_eq!(poll.question, "Lunch?");
            assert_eq!(poll.options, vec!["yes".to_string(), "no".to_string()]);
            assert!(!poll.allow_multiple);
            assert!(message.system_event.is_none());
        }
        other => panic!("unexpected {other:?}"),
    }
}

#[test]
fn group_call_update_is_a_system_event() {
    let mut dm = empty_dm(5);
    dm.group_call_update = true;
    let events = derive_inbound_events(&content(0x12, 5, ContentBody::DataMessage(dm)), &None, &None);
    assert_eq!(events.len(), 1);
    match &events[0] {
        InboundEvent::Message { message, .. } => assert_eq!(message.system_event.as_deref(), Some("group-call")),
        other => panic!("unexpected {other:?}"),
    }
}

#[test]
fn poll_vote_emits_poll_vote_event() {
    let sender = 0x13u128;
    let mut dm = empty_dm(9);
    dm.poll_vote = Some(PollVote {
        target_author_aci_binary: None,
        target_sent_timestamp: Some(1700000000000),
        option_indexes: vec![0, 2],
        vote_count: Some(2),
    });
    let events = derive_inbound_events(&content(sender, 9, ContentBody::DataMessage(dm)), &None, &None);
    assert_eq!(events.len(), 1);
    match &events[0] {
        InboundEvent::PollVote(v) => {
            assert_eq!(v.chat_id, uuid_text(sender));
            assert_eq!(v.poll_id, "1700000000000");
            assert_eq!(v.voter_id, uuid_text(sender));
            assert_eq!(v.option_indexes, vec![0, 2]);
        }
        other => panic!("unexpected {other:?}"),
    }
}

#[test]
fn previews_and_body_ranges_reach_the_chat_message() {
    let mut dm = empty_dm(1700000000000);
    dm.body = Some("hi @bob look".to_string());
    dm.preview = vec![
        Preview { url: Some("https://a.example".to_string()), title: Some("A".to_string()), description: None },
        Preview { url: None, title: Some("no url".to_string()), description: None },
    ];
    dm.body_ranges = vec![
        BodyRange { start: Some(0), length: Some(2), value: Some(RangeValue::Style(1)) },
        BodyRange { start: Some(3), length: Some(4), value: Some(RangeValue::MentionAci("aci-bob".to_string())) },
        BodyRange { start: Some(8), length: Some(4), value: Some(RangeValue::Style(0)) },
        BodyRange { start: None, length: Some(4), value: Some(RangeValue::Style(2)) },
        BodyRange { start: Some(8), length: Some(4), value: Some(RangeValue::Style(5)) },
        BodyRange { start: Some(8), length: Some(4), value: Some(RangeValue::Other) },
    ];
    let events = derive_inbound_events(&content(0x21, 1700000000000, ContentBody::DataMessage(dm)), &None, &None);
    assert_eq!(events.len(), 1);
    match &events[0] {
        InboundEvent::Message { message, .. } => {
            assert_eq!(
                message.previews,
                vec![LinkPreview { url: "https://a.example".to_string(), title: "A".to_string(), description: String::new() }]
            );
            assert_eq!(
                message.body_ranges,
                vec![
                    MsgRange { start: 0, length: 2, style: Some("bold".to_string()), mention_uuid: None },
                    MsgRange { start: 3, length: 4, style: None, mention_uuid: Some("aci-bob".to_string()) },
                    MsgRange { start: 8, length: 4, style: Some("monospace".to_string()), mention_uuid: None },
                ]
            );
        }
        other => panic!("unexpected {other:?}"),
    }
}
