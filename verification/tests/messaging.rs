use signalui::messaging::files::{
    discard_unregistered_database, attachment_file_name, attachment_stem_of, avatar_extension, avatar_file_name, needs_download,
    pasted_file_name, pasted_image_extension, upload_spec,
};
use signalui::messaging::listing::{
    collect_hits, conversation_rows, event_channels, get_conversations, get_last_message_info, get_messages,
    group_conversation_id, media_items, search_messages, search_query, sort_by_time, ContactEntry, GroupEntry,
    SearchThread,
};
use signalui::messaging::outgoing::{
    auto_delivery_receipt, collect_uploads, delete_message, fetched_profile_name, group_digits,
    mark_conversation_read, parse_u64, pin_message, poll_vote_message, profile_update, reaction_message, receipt_message, send_failure,
    text_message, typing_message, SendKind,
};
use signalui::messaging::types::{
    device_dto, DeviceDto, AttachmentInfo, ChatMessage, Conversation, DeleteEvent, InboundEvent, QuoteInput, ReceiptKind,
};
use signalui::messaging::wire::{
    AttachmentPointer, Content, ContentBody, DataMessage, EditMessage, ServiceId, ServiceKind, Thread,
};

fn attachment(id: &str) -> AttachmentInfo {
    AttachmentInfo {
        id: id.to_string(),
        file_name: "f".to_string(),
        mime_type: "image/png".to_string(),
        size: 1,
        local_path: None,
        pointer_data: Some(vec![1]),
    }
}

fn message(ts: u64, body: Option<&str>, atts: Vec<AttachmentInfo>) -> ChatMessage {
    ChatMessage {
        timestamp: ts,
        sender_id: "s".to_string(),
        sender_name: "Sam".to_string(),
        body: body.map(|b| b.to_string()),
        attachments: atts,
        is_outgoing: false,
        quote: None,
        previews: vec![],
        body_ranges: vec![],
        poll: None,
        system_event: None,
    }
}

fn convo(id: &str, ts: u64) -> Conversation {
    Conversation {
        id: id.to_string(),
        name: id.to_string(),
        last_message: None,
        last_timestamp: ts,
        is_group: false,
        avatar_path: None,
    }
}

#[test]
fn text_message_drops_an_empty_body_and_carries_the_quote() {
    let m = text_message("", 10, vec![], None);
    assert!(m.body.is_none());
    assert_eq!(m.timestamp, Some(10));
    let q = QuoteInput { id: 5, author_uuid: "a".to_string(), text: "t".to_string() };
    let m = text_message("hi", 11, vec![], Some(q));
    assert_eq!(m.body.as_deref(), Some("hi"));
    let quote = m.quote.unwrap();
    assert_eq!(quote.id, Some(5));
    assert_eq!(quote.author_aci.as_deref(), Some("a"));
    assert_eq!(quote.text.as_deref(), Some("t"));
}

#[test]
fn reaction_delete_typing_and_receipt_messages() {
    let m = reaction_message(1, "👍", true, "author", 99);
    let r = m.reaction.unwrap();
    assert_eq!(r.emoji.as_deref(), Some("👍"));
    assert_eq!(r.remove, Some(true));
    assert_eq!(r.target_author_aci.as_deref(), Some("author"));
    assert_eq!(r.target_sent_timestamp, Some(99));
    let d = delete_message(2, 98);
    assert_eq!(d.delete.unwrap().target_sent_timestamp, Some(98));
    let contact = Thread::Contact(ServiceId { kind: ServiceKind::Aci, uuid: 1 });
    let t = typing_message(&contact, false, 3).unwrap();
    assert_eq!(t.action, Some(1));
    assert!(typing_message(&Thread::Group(vec![0; 32]), true, 3).is_none());
    let rm = receipt_message(ReceiptKind::Viewed, vec![1, 2]);
    assert_eq!(rm.kind, Some(2));
    assert_eq!(rm.timestamps, vec![1, 2]);
}

#[test]
fn send_failures_are_labelled() {
    assert_eq!(send_failure(SendKind::Text, false, "e"), "failed to send: e");
    assert_eq!(send_failure(SendKind::Text, true, "e"), "failed to send to group: e");
    assert_eq!(send_failure(SendKind::Reaction, true, "e"), "failed to send group reaction: e");
    assert_eq!(send_failure(SendKind::Delete, false, "e"), "failed to send delete: e");
    assert_eq!(send_failure(SendKind::Receipt, false, "e"), "send_receipt: e");
}

#[test]
fn first_upload_error_wins() {
    let ptr = AttachmentPointer { identifier: None, file_name: None, content_type: None, size: None, encoded: vec![] };
    assert_eq!(collect_uploads(vec![Ok(ptr.clone()), Ok(ptr.clone())]).unwrap().len(), 2);
    let r = collect_uploads(vec![Ok(ptr.clone()), Err("a".to_string()), Err("b".to_string())]);
    assert_eq!(r.unwrap_err(), "attachment upload failed: a");
}

#[test]
fn delivery_receipts() {
    let dm = DataMessage::text("x".to_string(), 5);
    let c = Content { sender_uuid: "peer".to_string(), timestamp: 9, body: ContentBody::DataMessage(dm) };
    assert_eq!(auto_delivery_receipt(&c, &Some("me".to_string()), true), Some(5));
    assert_eq!(auto_delivery_receipt(&c, &Some("peer".to_string()), true), None);
    assert_eq!(auto_delivery_receipt(&c, &None, false), None);
    let e = Content {
        sender_uuid: "peer".to_string(),
        timestamp: 9,
        body: ContentBody::EditMessage(EditMessage { target_sent_timestamp: None, data_message: None }),
    };
    assert_eq!(auto_delivery_receipt(&e, &None, true), Some(9));
    let n = Content { sender_uuid: "peer".to_string(), timestamp: 9, body: ContentBody::NullMessage };
    assert_eq!(auto_delivery_receipt(&n, &None, true), None);
}

#[test]
fn parse_u64_matches_std() {
    for s in ["0", "42", "+7", "18446744073709551615", "", "+", "-1", "18446744073709551616", "1a", " 1", "007"] {
        assert_eq!(parse_u64(s), s.parse::<u64>().ok(), "input {s:?}");
    }
}

#[test]
fn marking_read() {
    let stamps = vec!["100".to_string(), "x".to_string(), "200".to_string()];
    let r = mark_conversation_read(true, "01234567-89ab-cdef-0123-456789abcdef", &stamps).unwrap().unwrap();
    assert_eq!(r.0, 0x0123_4567_89ab_cdef_0123_4567_89ab_cdef);
    assert_eq!(r.1, vec![100, 200]);
    assert_eq!(mark_conversation_read(false, "junk", &stamps), Ok(None));
    assert_eq!(
        mark_conversation_read(true, "junk", &stamps),
        Err("mark_conversation_read: not a 1:1 conversation".to_string())
    );
    let none = vec!["x".to_string()];
    assert_eq!(mark_conversation_read(true, "01234567-89ab-cdef-0123-456789abcdef", &none), Ok(None));
}

#[test]
fn profile_checks() {
    assert_eq!(profile_update("  ".to_string(), None, None).unwrap_err(), "le prénom ne peut pas être vide");
    let p = profile_update("Ann".to_string(), Some(" ".to_string()), Some("hi".to_string())).unwrap();
    assert_eq!(p.given_name, "Ann");
    assert!(p.family_name.is_none());
    assert_eq!(p.about.as_deref(), Some("hi"));
    assert_eq!(fetched_profile_name(Some("\t".to_string())), None);
    assert_eq!(fetched_profile_name(Some("Zed".to_string())), Some("Zed".to_string()));
}

#[test]
fn safety_numbers_are_grouped_by_five() {
    assert_eq!(group_digits("123451234512"), "12345 12345 12");
    assert_eq!(group_digits("12345"), "12345");
    assert_eq!(group_digits(""), "");
    let digits = "0".repeat(60);
    let grouped = group_digits(&digits);
    assert_eq!(grouped.len(), 71);
    assert_eq!(grouped.replace(' ', ""), digits);
}

#[test]
fn attachment_names_stay_inside_the_directory() {
    assert_eq!(attachment_stem_of("../../etc/passwd"), "etcpasswd");
    assert_eq!(attachment_stem_of("///"), "attachment");
    assert_eq!(attachment_stem_of(&"a".repeat(200)).len(), 128);
    assert_eq!(attachment_file_name("cdn-1_x", "image/png"), "cdn-1_x.png");
    assert_eq!(attachment_file_name("id", "application/x-unknown-thing"), "id.bin");
    assert!(needs_download(&attachment("a")));
    let mut done = attachment("a");
    done.local_path = Some("/p".to_string());
    assert!(!needs_download(&done));
}

#[test]
fn avatar_and_paste_names() {
    assert_eq!(avatar_extension("image/png"), "png");
    assert_eq!(avatar_extension("image/webp"), "webp");
    assert_eq!(avatar_extension("image/gif"), "gif");
    assert_eq!(avatar_extension("image/jpeg"), "jpg");
    assert_eq!(avatar_file_name("c-1", "image/png", 3), Some("c-1.png".to_string()));
    assert_eq!(avatar_file_name("c-1", "image/png", 0), None);
    assert_eq!(pasted_image_extension("../JPEG!x"), "jpegx");
    assert_eq!(pasted_image_extension("..."), "png");
    assert_eq!(pasted_file_name(12, "PNG"), "paste-12.png");
}

#[test]
fn upload_description() {
    let s = upload_spec("/tmp/photo.jpg", 10);
    assert_eq!(s.content_type, "image/jpeg");
    assert_eq!(s.length, 10);
    assert_eq!(s.file_name.as_deref(), Some("photo.jpg"));
    let s = upload_spec("/tmp/noext", 1);
    assert_eq!(s.content_type, "application/octet-stream");
}

#[test]
fn latest_message_of_a_conversation() {
    let c = |ts: Option<u64>, body: Option<&str>| Content {
        sender_uuid: "s".to_string(),
        timestamp: 0,
        body: ContentBody::DataMessage(DataMessage {
            body: body.map(|b| b.to_string()),
            timestamp: ts,
            attachments: vec![],
            quote: None,
            reaction: None,
            delete: None,
            poll_create: None,
            poll_vote: None,
            group_call_update: false,
            pin_message: None,
            unpin_message: None,
            preview: vec![],
            body_ranges: vec![],
        }),
    };
    let contents = vec![c(Some(5), Some("a")), c(Some(9), Some("b")), c(Some(9), Some("c")), c(Some(20), None)];
    assert_eq!(get_last_message_info(&contents), (Some("b".to_string()), 9));
    assert_eq!(get_last_message_info(&vec![]), (None, 0));
}

#[test]
fn listings_are_ordered() {
    let cs = get_conversations(vec![convo("a", 1), convo("b", 3), convo("c", 2), convo("d", 3)]);
    let ids: Vec<&str> = cs.iter().map(|c| c.id.as_str()).collect();
    assert_eq!(ids, vec!["b", "d", "c", "a"]);
    let ms = get_messages(vec![message(3, None, vec![]), message(1, None, vec![]), message(2, None, vec![])]);
    let ts: Vec<u64> = ms.iter().map(|m| m.timestamp).collect();
    assert_eq!(ts, vec![1, 2, 3]);
    let sorted = sort_by_time(Vec::<ChatMessage>::new(), true);
    assert!(sorted.is_empty());
}

#[test]
fn equal_times_keep_their_order() {
    let oldest_first = sort_by_time(vec![convo("x", 2), convo("y", 1), convo("z", 2), convo("w", 1)], false);
    let ids: Vec<&str> = oldest_first.iter().map(|c| c.id.as_str()).collect();
    assert_eq!(ids, vec!["y", "w", "x", "z"]);
    let newest_first = sort_by_time(vec![convo("x", 2), convo("y", 1), convo("z", 2), convo("w", 1)], true);
    let ids: Vec<&str> = newest_first.iter().map(|c| c.id.as_str()).collect();
    assert_eq!(ids, vec!["x", "z", "y", "w"]);
}

#[test]
fn media_items_flatten_attachments() {
    let items = media_items(vec![
        message(1, None, vec![attachment("a"), attachment("b")]),
        message(2, None, vec![]),
        message(3, None, vec![attachment("c")]),
    ]);
    let ids: Vec<&str> = items.iter().map(|m| m.attachment.id.as_str()).collect();
    assert_eq!(ids, vec!["a", "b", "c"]);
    assert_eq!(items[2].timestamp, 3);
}

#[test]
fn search_is_case_insensitive_and_limited() {
    assert_eq!(search_query("  HeLLo "), Some("hello".to_string()));
    assert_eq!(search_query("   "), None);
    let threads = vec![
        SearchThread {
            conversation_id: "c1".to_string(),
            conversation_name: "One".to_string(),
            is_group: false,
            messages: vec![message(1, Some("Hello there"), vec![]), message(2, Some("bye"), vec![])],
        },
        SearchThread {
            conversation_id: "c2".to_string(),
            conversation_name: "Two".to_string(),
            is_group: true,
            messages: vec![message(5, Some("HELLO again"), vec![]), message(6, None, vec![])],
        },
    ];
    let hits = search_messages(&threads, "hello", 10);
    assert_eq!(hits.len(), 2);
    assert_eq!(hits[0].conversation_id, "c2");
    assert_eq!(hits[0].snippet, "HELLO again");
    assert_eq!(hits[1].timestamp, 1);
    assert_eq!(collect_hits(&threads, "hello", 1).len(), 1);
    assert!(collect_hits(&threads, "hello", 0).is_empty());
    assert!(search_messages(&threads, "hello", 0).is_empty());
    assert!(search_messages(&threads, " ", 10).is_empty());
}

#[test]
fn events_are_announced_on_their_channels() {
    let d = InboundEvent::Deleted(DeleteEvent { chat_id: "c".to_string(), message_id: "m".to_string() });
    assert_eq!(event_channels(&d), vec!["message-deleted", "conversations-updated"]);
    let m = InboundEvent::Message { conversation_id: "c".to_string(), message: message(1, None, vec![]) };
    assert_eq!(event_channels(&m), vec!["new-message", "conversations-updated"]);
    assert_eq!(group_conversation_id(&[0xab, 0x01]), "ab01");
}

#[test]
fn one_sidebar_row_per_contact_and_group() {
    let me = 0x0123456789abcdef0123456789abcdefu128;
    let self_aci = Some("01234567-89ab-cdef-0123-456789abcdef".to_string());
    let said = Content {
        sender_uuid: "s".to_string(),
        timestamp: 0,
        body: ContentBody::DataMessage(DataMessage::text("hi".to_string(), 42)),
    };
    let contacts = vec![
        ContactEntry { uuid: me, name: "Me".to_string(), phone: None, contents: vec![], avatar_path: None },
        ContactEntry { uuid: 2, name: "".to_string(), phone: Some("+33 6".to_string()), contents: vec![said], avatar_path: Some("/a.png".to_string()) },
        ContactEntry { uuid: 3, name: "Bob".to_string(), phone: None, contents: vec![], avatar_path: None },
    ];
    let groups = vec![GroupEntry { master_key: vec![0xab, 0x01], title: "Club".to_string(), contents: vec![], avatar_path: None }];
    let rows = conversation_rows(&contacts, &groups, &self_aci);
    assert_eq!(rows.len(), 4);
    assert_eq!(rows[0].id, "01234567-89ab-cdef-0123-456789abcdef");
    assert_eq!(rows[0].name, "Note to Self");
    assert_eq!(rows[1].id, "00000000-0000-0000-0000-000000000002");
    assert_eq!(rows[1].name, "+33 6");
    assert_eq!(rows[1].last_message.as_deref(), Some("hi"));
    assert_eq!(rows[1].last_timestamp, 42);
    assert_eq!(rows[1].avatar_path.as_deref(), Some("/a.png"));
    assert_eq!(rows[2].name, "Bob");
    assert!(!rows[2].is_group);
    assert_eq!(rows[3].id, "ab01");
    assert_eq!(rows[3].name, "Club");
    assert!(rows[3].is_group);
}

#[test]
fn poll_vote_names_the_poll_and_counts_the_choices() {
    let m = poll_vote_message(7, "00000000-0000-0000-0000-0000000000ff", 1700000000000, vec![1, 3]);
    assert_eq!(m.timestamp, Some(7));
    assert!(m.body.is_none());
    let v = m.poll_vote.expect("vote");
    let mut author = vec![0u8; 15];
    author.push(0xff);
    assert_eq!(v.target_author_aci_binary, Some(author));
    assert_eq!(v.target_sent_timestamp, Some(1700000000000));
    assert_eq!(v.option_indexes, vec![1, 3]);
    assert_eq!(v.vote_count, Some(2));
    let m = poll_vote_message(7, "not-a-uuid", 1, vec![]);
    assert_eq!(m.poll_vote.unwrap().target_author_aci_binary, Some(vec![]));
    assert_eq!(send_failure(SendKind::PollVote, true, "x"), "failed to send group vote: x");
}

#[test]
fn only_a_small_unregistered_database_is_discarded() {
    assert!(discard_unregistered_database(0));
    assert!(discard_unregistered_database(4095));
    assert!(!discard_unregistered_database(4096));
}

#[test]
fn pin_and_unpin_name_the_message() {
    let m = pin_message(3, "00000000-0000-0000-0000-000000000001", 99, true);
    let p = m.pin_message.expect("pin");
    assert!(m.unpin_message.is_none());
    assert_eq!(p.target_sent_timestamp, Some(99));
    assert_eq!(p.target_author_aci_binary.map(|b| b.len()), Some(16));
    let m = pin_message(3, "x", 99, false);
    assert!(m.pin_message.is_none());
    assert_eq!(m.unpin_message.expect("unpin").target_author_aci_binary, Some(vec![]));
    assert_eq!(send_failure(SendKind::Pin, false, "e"), "failed to send pin: e");
}

#[test]
fn this_device_is_marked_current() {
    let d = device_dto(2, Some("laptop".to_string()), 10, 20, Some(2));
    assert_eq!(d, DeviceDto { id: 2, name: Some("laptop".to_string()), created_at: 10, last_seen: 20, is_current: true });
    assert!(!device_dto(3, None, 0, 0, Some(2)).is_current);
    assert!(!device_dto(3, None, 0, 0, None).is_current);
}
