use signalui::backups::{
    backup_contact_to_presage, extract_frames, summarize_frames, BackupContact, BackupDestination, BackupFrame,
};
use signalui::messaging::wire::Thread;

fn contact(aci: Option<Vec<u8>>) -> BackupContact {
    BackupContact {
        aci,
        system_given_name: String::new(),
        system_family_name: String::new(),
        profile_given_name: None,
        profile_family_name: None,
        profile_key: None,
    }
}

#[test]
fn contact_proto_maps_to_presage_contact() {
    let mut c = contact(Some(vec![7u8; 16]));
    c.profile_given_name = Some("Alice".to_string());
    c.profile_family_name = Some("A".to_string());
    let mapped = backup_contact_to_presage(&c).expect("maps");
    assert_eq!(mapped.uuid, u128::from_be_bytes([7u8; 16]));
    assert_eq!(mapped.name, "Alice A");
}

#[test]
fn contact_without_aci_is_skipped() {
    assert!(backup_contact_to_presage(&contact(None)).is_none());
    assert!(backup_contact_to_presage(&contact(Some(vec![1u8; 15]))).is_none());
}

#[test]
fn system_name_wins_over_profile_name() {
    let mut c = contact(Some(vec![1u8; 16]));
    c.system_given_name = "Bob".to_string();
    c.profile_given_name = Some("Robert".to_string());
    assert_eq!(backup_contact_to_presage(&c).unwrap().name, "Bob");
    let c = contact(Some(vec![1u8; 16]));
    assert_eq!(backup_contact_to_presage(&c).unwrap().name, "");
}

#[test]
fn reconstructs_a_1to1_text_message() {
    let me = u128::from_be_bytes([1u8; 16]);
    let peer = [2u8; 16];
    let mut c = contact(Some(peer.to_vec()));
    c.profile_given_name = Some("Bob".to_string());
    let frames = vec![
        BackupFrame::Recipient { id: 5, destination: Some(BackupDestination::Contact(c)) },
        BackupFrame::Chat { id: 9, recipient_id: 5 },
        BackupFrame::ChatItem { chat_id: 9, author_id: 5, date_sent: 1_700_000_000_000, text: Some("hello from backup".to_string()) },
    ];
    let data = extract_frames(&frames, me);
    assert_eq!(data.contacts.len(), 1, "one contact");
    assert_eq!(data.contacts[0].name, "Bob");
    assert_eq!(data.messages.len(), 1, "one message");
    let m = &data.messages[0];
    assert!(matches!(m.thread, Thread::Contact(_)));
    assert_eq!(m.body, "hello from backup");
    assert_eq!(m.timestamp, 1_700_000_000_000);
    assert_eq!(m.author, u128::from_be_bytes(peer));
    assert_eq!(m.destination, u128::from_be_bytes(peer));
}

#[test]
fn group_messages_and_unknown_chats() {
    let me = 42u128;
    let frames = vec![
        BackupFrame::Recipient { id: 1, destination: Some(BackupDestination::SelfRecipient) },
        BackupFrame::Recipient { id: 2, destination: Some(BackupDestination::Group { master_key: vec![3u8; 32] }) },
        BackupFrame::Recipient { id: 3, destination: Some(BackupDestination::Group { master_key: vec![3u8; 31] }) },
        BackupFrame::Chat { id: 10, recipient_id: 2 },
        BackupFrame::Chat { id: 11, recipient_id: 3 },
        BackupFrame::ChatItem { chat_id: 10, author_id: 1, date_sent: 5, text: Some("g".to_string()) },
        BackupFrame::ChatItem { chat_id: 10, author_id: 77, date_sent: 6, text: None },
        BackupFrame::ChatItem { chat_id: 11, author_id: 1, date_sent: 7, text: Some("lost".to_string()) },
        BackupFrame::ChatItem { chat_id: 99, author_id: 1, date_sent: 8, text: Some("lost".to_string()) },
        BackupFrame::StickerPack,
        BackupFrame::Other,
    ];
    let data = extract_frames(&frames, me);
    assert_eq!(data.messages.len(), 1);
    assert!(matches!(&data.messages[0].thread, Thread::Group(k) if k == &vec![3u8; 32]));
    assert_eq!(data.messages[0].author, me);
    assert_eq!(data.messages[0].destination, me);

    let sum = summarize_frames(&frames);
    assert_eq!(sum.recipients, 3);
    assert_eq!(sum.selfs, 1);
    assert_eq!(sum.groups, 2);
    assert_eq!(sum.contacts, 0);
    assert_eq!(sum.chats, 2);
    assert_eq!(sum.chat_items, 4);
    assert_eq!(sum.sticker_packs, 1);
    assert_eq!(sum.other, 1);
}
