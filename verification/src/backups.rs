//! Link-and-Sync transfer archives: what the decoded frames of an archive
//! amount to. The archive is decrypted and its frames decoded by the
//! message-backup codec; this module tallies the frames for a preview and
//! rebuilds the contacts and text messages to import.
//!
//! Archives are ordered (account, recipients, chats, chat items), so the
//! recipient and chat tables are complete by the time chat items arrive.
use vstd::prelude::*;

use std::collections::HashMap;

use crate::codec::{lemma_uuid_of_bytes, uuid_bytes, uuid_from_slice, uuid_of_bytes};
use crate::messaging::wire::{ServiceId, ServiceKind, Thread, ThreadView};
use crate::text::{owned, push_str, trim, trimmed};

verus! {

broadcast use vstd::std_specs::hash::group_hash_axioms;

/// A contact as a backup records it.
#[derive(Debug, Clone)]
pub struct BackupContact {
    pub aci: Option<Vec<u8>>,
    pub system_given_name: String,
    pub system_family_name: String,
    pub profile_given_name: Option<String>,
    pub profile_family_name: Option<String>,
    pub profile_key: Option<Vec<u8>>,
}

/// Who a backup recipient is.
#[derive(Debug, Clone)]
pub enum BackupDestination {
    Contact(BackupContact),
    Group { master_key: Vec<u8> },
    SelfRecipient,
    /// Distribution lists, call links, release notes, ...
    Other,
}

/// A decoded backup frame.
#[derive(Debug, Clone)]
pub enum BackupFrame {
    Recipient { id: u64, destination: Option<BackupDestination> },
    Chat { id: u64, recipient_id: u64 },
    /// A chat item; `text` is the body of a standard message, none for any
    /// other kind of item.
    ChatItem { chat_id: u64, author_id: u64, date_sent: u64, text: Option<String> },
    StickerPack,
    /// Account data and every other frame.
    Other,
}

/// Per-kind frame counts of an archive.
#[derive(Debug, Clone, Copy, PartialEq, Eq, Structural, Default)]
pub struct BackupSummary {
    pub recipients: usize,
    pub contacts: usize,
    pub groups: usize,
    pub selfs: usize,
    pub chats: usize,
    pub chat_items: usize,
    pub sticker_packs: usize,
    pub other: usize,
}

/// Frame counts as integers: recipients, contacts, groups, selves, chats,
/// chat items, sticker packs, other.
pub type Tally = (nat, nat, nat, nat, nat, nat, nat, nat);

/// What one frame adds to the tally.
pub open spec fn tally_frame(t: Tally, f: BackupFrame) -> Tally {
    match f {
        BackupFrame::Recipient { destination, .. } => match destination {
            Some(BackupDestination::Contact(_)) => (t.0 + 1, t.1 + 1, t.2, t.3, t.4, t.5, t.6, t.7),
            Some(BackupDestination::Group { .. }) => (t.0 + 1, t.1, t.2 + 1, t.3, t.4, t.5, t.6, t.7),
            Some(BackupDestination::SelfRecipient) => (t.0 + 1, t.1, t.2, t.3 + 1, t.4, t.5, t.6, t.7),
            _ => (t.0 + 1, t.1, t.2, t.3, t.4, t.5, t.6, t.7),
        },
        BackupFrame::Chat { .. } => (t.0, t.1, t.2, t.3, t.4 + 1, t.5, t.6, t.7),
        BackupFrame::ChatItem { .. } => (t.0, t.1, t.2, t.3, t.4, t.5 + 1, t.6, t.7),
        BackupFrame::StickerPack => (t.0, t.1, t.2, t.3, t.4, t.5, t.6 + 1, t.7),
        BackupFrame::Other => (t.0, t.1, t.2, t.3, t.4, t.5, t.6, t.7 + 1),
    }
}

/// The tally of a sequence of frames.
pub open spec fn tally(frames: Seq<BackupFrame>) -> Tally
    decreases frames.len(),
{
    if frames.len() == 0 {
        (0, 0, 0, 0, 0, 0, 0, 0)
    } else {
        tally_frame(tally(frames.drop_last()), frames.last())
    }
}

/// A summary as a tally.
pub open spec fn summary_tally(s: BackupSummary) -> Tally {
    (
        s.recipients as nat,
        s.contacts as nat,
        s.groups as nat,
        s.selfs as nat,
        s.chats as nat,
        s.chat_items as nat,
        s.sticker_packs as nat,
        s.other as nat,
    )
}

/// Every count of a tally is at most the number of frames tallied.
pub open spec fn tally_bounded(t: Tally, n: nat) -> bool {
    t.0 <= n && t.1 <= n && t.2 <= n && t.3 <= n && t.4 <= n && t.5 <= n && t.6 <= n && t.7 <= n
}

proof fn lemma_tally_bounded(frames: Seq<BackupFrame>)
    ensures
        tally_bounded(tally(frames), frames.len()),
    decreases frames.len(),
{
    if frames.len() > 0 {
        lemma_tally_bounded(frames.drop_last());
    }
}

/// Count the frames of an archive by kind (recipients also by whom they
/// are).
pub fn summarize_frames(frames: &Vec<BackupFrame>) -> (r: BackupSummary)
    ensures
        summary_tally(r) == tally(frames@),
{
    let mut sum = BackupSummary {
        recipients: 0,
        contacts: 0,
        groups: 0,
        selfs: 0,
        chats: 0,
        chat_items: 0,
        sticker_packs: 0,
        other: 0,
    };
    let mut i: usize = 0;
    proof {
        assert(frames@.take(0) =~= Seq::<BackupFrame>::empty());
    }
    while i < frames.len()
        invariant
            i <= frames@.len(),
            summary_tally(sum) == tally(frames@.take(i as int)),
        decreases frames@.len() - i,
    {
        proof {
            assert(frames@.take(i + 1).drop_last() =~= frames@.take(i as int));
            assert(frames@.take(i + 1).last() == frames@[i as int]);
            lemma_tally_bounded(frames@.take(i as int));
        }
        match &frames[i] {
            BackupFrame::Recipient { destination, .. } => {
                sum.recipients = sum.recipients + 1;
                match destination {
                    Some(BackupDestination::Contact(_)) => sum.contacts = sum.contacts + 1,
                    Some(BackupDestination::Group { .. }) => sum.groups = sum.groups + 1,
                    Some(BackupDestination::SelfRecipient) => sum.selfs = sum.selfs + 1,
                    _ => {},
                }
            },
            BackupFrame::Chat { .. } => sum.chats = sum.chats + 1,
            BackupFrame::ChatItem { .. } => sum.chat_items = sum.chat_items + 1,
            BackupFrame::StickerPack => sum.sticker_packs = sum.sticker_packs + 1,
            BackupFrame::Other => sum.other = sum.other + 1,
        }
        i = i + 1;
    }
    proof {
        assert(frames@.take(i as int) =~= frames@);
    }
    sum
}

/// A contact to import.
#[derive(Debug, Clone)]
pub struct ImportedContact {
    pub uuid: u128,
    pub name: String,
    pub profile_key: Vec<u8>,
}

/// Two name parts joined by a space and trimmed; none when nothing is left.
pub open spec fn joined_name(given: Seq<char>, family: Seq<char>) -> Option<Seq<char>> {
    let t = trimmed(given + seq![' '] + family);
    if t.len() == 0 {
        None
    } else {
        Some(t)
    }
}

fn join_name(given: &str, family: &str) -> (r: Option<String>)
    ensures
        r.deep_view() == joined_name(given@, family@),
{
    let mut n = owned(given);
    push_str(&mut n, " ");
    push_str(&mut n, family);
    proof {
        reveal_strlit(" ");
        assert(" "@ =~= seq![' ']);
    }
    let t = trim(n.as_str());
    if t.unicode_len() == 0 {
        None
    } else {
        Some(t)
    }
}

/// The text of an optional name part (empty when missing).
pub open spec fn part_or_empty(p: Option<String>) -> Seq<char> {
    match p {
        Some(s) => s@,
        None => Seq::empty(),
    }
}

/// The name a backup contact is imported under: its address-book name,
/// else its profile name, else empty.
pub open spec fn backup_contact_name(c: BackupContact) -> Seq<char> {
    match joined_name(c.system_given_name@, c.system_family_name@) {
        Some(n) => n,
        None => match joined_name(part_or_empty(c.profile_given_name), part_or_empty(c.profile_family_name)) {
            Some(n) => n,
            None => Seq::empty(),
        },
    }
}

/// The contact a backup contact becomes: keyed by its 16-byte ACI (none
/// without one), named as [`backup_contact_name`] says, with its profile key
/// (empty when missing).
pub fn backup_contact_to_presage(c: &BackupContact) -> (r: Option<ImportedContact>)
    ensures
        match c.aci {
            Some(a) => if a@.len() == 16 {
                r matches Some(ic) && uuid_bytes(ic.uuid) == a@ && ic.name@ == backup_contact_name(*c)
                    && ic.profile_key@ == match c.profile_key {
                    Some(k) => k@,
                    None => Seq::<u8>::empty(),
                }
            } else {
                r is None
            },
            None => r is None,
        },
{
    let aci = match &c.aci {
        Some(a) => a,
        None => return None,
    };
    let uuid = match uuid_from_slice(aci.as_slice()) {
        Some(u) => u,
        None => return None,
    };
    let name = match join_name(c.system_given_name.as_str(), c.system_family_name.as_str()) {
        Some(n) => n,
        None => {
            let g = match &c.profile_given_name {
                Some(s) => s.as_str(),
                None => "",
            };
            let f = match &c.profile_family_name {
                Some(s) => s.as_str(),
                None => "",
            };
            proof {
                reveal_strlit("");
            }
            match join_name(g, f) {
                Some(n) => n,
                None => String::new(),
            }
        },
    };
    let profile_key = match &c.profile_key {
        Some(k) => vstd::slice::slice_to_vec(k.as_slice()),
        None => Vec::new(),
    };
    Some(ImportedContact { uuid, name, profile_key })
}

/// A text message to import.
#[derive(Debug, Clone)]
pub struct ImportedMessage {
    pub thread: Thread,
    pub author: u128,
    pub destination: u128,
    pub timestamp: u64,
    pub body: String,
}

/// Everything imported from an archive.
#[derive(Debug, Clone)]
pub struct ImportedData {
    pub contacts: Vec<ImportedContact>,
    pub messages: Vec<ImportedMessage>,
}

/// Mathematical form of an [`ImportedContact`].
pub open spec fn contact_view(c: ImportedContact) -> (u128, Seq<char>, Seq<u8>) {
    (c.uuid, c.name@, c.profile_key@)
}

/// Mathematical form of an [`ImportedMessage`]: thread, author, destination,
/// time, body.
pub open spec fn message_view(m: ImportedMessage) -> (ThreadView, u128, u128, u64, Seq<char>) {
    (m.thread.deep_view(), m.author, m.destination, m.timestamp, m.body@)
}

/// What has been learnt from the frames read so far: recipient id to ACI,
/// recipient id to conversation, chat id to recipient id, and what is to be
/// imported.
pub struct ExtractState {
    pub id_aci: Map<u64, u128>,
    pub id_thread: Map<u64, ThreadView>,
    pub chat_recipient: Map<u64, u64>,
    pub contacts: Seq<(u128, Seq<char>, Seq<u8>)>,
    pub messages: Seq<(ThreadView, u128, u128, u64, Seq<char>)>,
}

/// The contact a backup contact imports as, if it has a 16-byte ACI.
pub open spec fn imported_contact(c: BackupContact) -> Option<(u128, Seq<char>, Seq<u8>)> {
    match c.aci {
        Some(a) => if a@.len() == 16 {
            Some(
                (
                    uuid_of_bytes(a@),
                    backup_contact_name(c),
                    match c.profile_key {
                        Some(k) => k@,
                        None => Seq::<u8>::empty(),
                    },
                ),
            )
        } else {
            None
        },
        None => None,
    }
}

/// What one frame teaches:
/// - a contact with a 16-byte ACI keys its recipient id to that ACI and to
///   its 1:1 conversation, and is imported;
/// - a group with a 32-byte master key keys its recipient id to the group;
/// - our own recipient keys its id to our ACI;
/// - a chat keys its id to its recipient;
/// - a chat item with text, in a chat whose recipient has a conversation,
///   is imported as a message in that conversation, by the author its id
///   names (ourselves when unknown), sent to the contact (or, in a group, to
///   ourselves), at its send time.
pub open spec fn extract_step(s: ExtractState, f: BackupFrame, self_uuid: u128) -> ExtractState {
    match f {
        BackupFrame::Recipient { id, destination } => match destination {
            Some(BackupDestination::Contact(c)) => match imported_contact(c) {
                Some(ic) => ExtractState {
                    id_aci: s.id_aci.insert(id, ic.0),
                    id_thread: s.id_thread.insert(
                        id,
                        ThreadView::Contact(ServiceId { kind: ServiceKind::Aci, uuid: ic.0 }),
                    ),
                    contacts: s.contacts.push(ic),
                    ..s
                },
                None => s,
            },
            Some(BackupDestination::Group { master_key }) => if master_key@.len() == 32 {
                ExtractState { id_thread: s.id_thread.insert(id, ThreadView::Group(master_key@)), ..s }
            } else {
                s
            },
            Some(BackupDestination::SelfRecipient) => ExtractState { id_aci: s.id_aci.insert(id, self_uuid), ..s },
            _ => s,
        },
        BackupFrame::Chat { id, recipient_id } => ExtractState {
            chat_recipient: s.chat_recipient.insert(id, recipient_id),
            ..s
        },
        BackupFrame::ChatItem { chat_id, author_id, date_sent, text } => {
            if s.chat_recipient.contains_key(chat_id) && s.id_thread.contains_key(s.chat_recipient[chat_id])
                && text is Some {
                let thread = s.id_thread[s.chat_recipient[chat_id]];
                let author = if s.id_aci.contains_key(author_id) {
                    s.id_aci[author_id]
                } else {
                    self_uuid
                };
                let destination = match thread {
                    ThreadView::Contact(sid) => sid.uuid,
                    ThreadView::Group(_) => self_uuid,
                };
                ExtractState {
                    messages: s.messages.push((thread, author, destination, date_sent, text->0@)),
                    ..s
                }
            } else {
                s
            }
        },
        _ => s,
    }
}

/// What a sequence of frames teaches, read in order.
pub open spec fn extract_all(frames: Seq<BackupFrame>, self_uuid: u128) -> ExtractState
    decreases frames.len(),
{
    if frames.len() == 0 {
        ExtractState {
            id_aci: Map::empty(),
            id_thread: Map::empty(),
            chat_recipient: Map::empty(),
            contacts: Seq::empty(),
            messages: Seq::empty(),
        }
    } else {
        extract_step(extract_all(frames.drop_last(), self_uuid), frames.last(), self_uuid)
    }
}

fn clone_thread(t: &Thread) -> (r: Thread)
    ensures
        r.deep_view() == t.deep_view(),
{
    match t {
        Thread::Contact(s) => Thread::Contact(*s),
        Thread::Group(k) => Thread::Group(vstd::slice::slice_to_vec(k.as_slice())),
    }
}

/// The exec tables agree with the learnt state.
pub open spec fn tables_agree(
    id_aci: Map<u64, u128>,
    id_thread: Map<u64, Thread>,
    chat_recipient: Map<u64, u64>,
    contacts: Seq<ImportedContact>,
    messages: Seq<ImportedMessage>,
    s: ExtractState,
) -> bool {
    &&& id_aci == s.id_aci
    &&& id_thread.dom() == s.id_thread.dom()
    &&& forall|k: u64| #[trigger] id_thread.contains_key(k) ==> id_thread[k].deep_view() == s.id_thread[k]
    &&& chat_recipient == s.chat_recipient
    &&& contacts.map_values(|c: ImportedContact| contact_view(c)) == s.contacts
    &&& messages.map_values(|m: ImportedMessage| message_view(m)) == s.messages
}

/// The contacts and text messages to import from an archive's frames (in
/// order, after the header), with `self_uuid` our own ACI.
pub fn extract_frames(frames: &Vec<BackupFrame>, self_uuid: u128) -> (r: ImportedData)
    ensures
        r.contacts@.map_values(|c: ImportedContact| contact_view(c)) == extract_all(frames@, self_uuid).contacts,
        r.messages@.map_values(|m: ImportedMessage| message_view(m)) == extract_all(frames@, self_uuid).messages,
{
    let mut id_aci: HashMap<u64, u128> = HashMap::new();
    let mut id_thread: HashMap<u64, Thread> = HashMap::new();
    let mut chat_recipient: HashMap<u64, u64> = HashMap::new();
    let mut contacts: Vec<ImportedContact> = Vec::new();
    let mut messages: Vec<ImportedMessage> = Vec::new();
    let mut i: usize = 0;
    proof {
        assert(frames@.take(0) =~= Seq::<BackupFrame>::empty());
        assert(id_thread@.dom() =~= Set::<u64>::empty());
        assert(contacts@.map_values(|c: ImportedContact| contact_view(c)) =~= Seq::<(u128, Seq<char>, Seq<u8>)>::empty());
        assert(messages@.map_values(|m: ImportedMessage| message_view(m)) =~= Seq::<(ThreadView, u128, u128, u64, Seq<char>)>::empty());
    }
    while i < frames.len()
        invariant
            i <= frames@.len(),
            tables_agree(
                id_aci@,
                id_thread@,
                chat_recipient@,
                contacts@,
                messages@,
                extract_all(frames@.take(i as int), self_uuid),
            ),
        decreases frames@.len() - i,
    {
        let ghost s = extract_all(frames@.take(i as int), self_uuid);
        proof {
            assert(frames@.take(i + 1).drop_last() =~= frames@.take(i as int));
            assert(frames@.take(i + 1).last() == frames@[i as int]);
        }
        let ghost next = extract_step(s, frames@[i as int], self_uuid);
        match &frames[i] {
            BackupFrame::Recipient { id, destination } => match destination {
                Some(BackupDestination::Contact(c)) => {
                    match backup_contact_to_presage(c) {
                        Some(ic) => {
                            proof {
                                lemma_uuid_of_bytes(ic.uuid);
                            }
                            let u = ic.uuid;
                            id_aci.insert(*id, u);
                            id_thread.insert(*id, Thread::Contact(ServiceId { kind: ServiceKind::Aci, uuid: u }));
                            let ghost prev = contacts@;
                            contacts.push(ic);
                            proof {
                                assert(contacts@.map_values(|c: ImportedContact| contact_view(c)) =~= prev.map_values(
                                    |c: ImportedContact| contact_view(c),
                                ).push(contact_view(ic)));
                                assert(id_thread@.dom() =~= next.id_thread.dom());
                            }
                        },
                        None => {},
                    }
                },
                Some(BackupDestination::Group { master_key }) => {
                    if master_key.len() == 32 {
                        id_thread.insert(*id, Thread::Group(vstd::slice::slice_to_vec(master_key.as_slice())));
                        proof {
                            assert(id_thread@.dom() =~= next.id_thread.dom());
                        }
                    }
                },
                Some(BackupDestination::SelfRecipient) => {
                    id_aci.insert(*id, self_uuid);
                },
                _ => {},
            },
            BackupFrame::Chat { id, recipient_id } => {
                chat_recipient.insert(*id, *recipient_id);
            },
            BackupFrame::ChatItem { chat_id, author_id, date_sent, text } => {
                match chat_recipient.get(chat_id) {
                    Some(rid) => {
                        match id_thread.get(rid) {
                            Some(t) => {
                                match text {
                                    Some(body) => {
                                        let thread = clone_thread(t);
                                        let author = match id_aci.get(author_id) {
                                            Some(a) => *a,
                                            None => self_uuid,
                                        };
                                        let destination = match &thread {
                                            Thread::Contact(sid) => sid.uuid,
                                            Thread::Group(_) => self_uuid,
                                        };
                                        let m = ImportedMessage {
                                            thread,
                                            author,
                                            destination,
                                            timestamp: *date_sent,
                                            body: owned(body.as_str()),
                                        };
                                        let ghost prev = messages@;
                                        messages.push(m);
                                        proof {
                                            assert(messages@.map_values(|x: ImportedMessage| message_view(x)) =~= prev.map_values(
                                                |x: ImportedMessage| message_view(x),
                                            ).push(message_view(m)));
                                        }
                                    },
                                    None => {},
                                }
                            },
                            None => {},
                        }
                    },
                    None => {},
                }
            },
            _ => {},
        }
        i = i + 1;
    }
    proof {
        assert(frames@.take(i as int) =~= frames@);
    }
    ImportedData { contacts, messages }
}

/// Counting one more frame: it adds one to the count of its kind and
/// leaves every other count as it was. A recipient counts as a recipient
/// and, by whom it is, as a contact, a group or ourselves (other recipients
/// only as recipients).
pub proof fn lemma_tally_one_more(frames: Seq<BackupFrame>, f: BackupFrame)
    ensures
        ({
            let (r0, c0, g0, s0, h0, i0, p0, o0) = tally(frames);
            let (r1, c1, g1, s1, h1, i1, p1, o1) = tally(frames.push(f));
            &&& r1 == r0 + (if f is Recipient { 1int } else { 0 })
            &&& c1 == c0 + (if f matches BackupFrame::Recipient { destination: Some(BackupDestination::Contact(_)), .. } {
                1int
            } else {
                0
            })
            &&& g1 == g0 + (if f matches BackupFrame::Recipient { destination: Some(BackupDestination::Group { .. }), .. } {
                1int
            } else {
                0
            })
            &&& s1 == s0 + (if f matches BackupFrame::Recipient { destination: Some(BackupDestination::SelfRecipient), .. } {
                1int
            } else {
                0
            })
            &&& h1 == h0 + (if f is Chat { 1int } else { 0 })
            &&& i1 == i0 + (if f is ChatItem { 1int } else { 0 })
            &&& p1 == p0 + (if f is StickerPack { 1int } else { 0 })
            &&& o1 == o0 + (if f is Other { 1int } else { 0 })
        }),
{
    assert(frames.push(f).drop_last() =~= frames);
}

/// Every frame is counted once by kind: recipients, chats, chat items,
/// sticker packs and other frames add up to the number of frames, and the
/// contacts, groups and selves are among the recipients.
pub proof fn lemma_tally_adds_up(frames: Seq<BackupFrame>)
    ensures
        ({
            let t = tally(frames);
            &&& t.0 + t.4 + t.5 + t.6 + t.7 == frames.len()
            &&& t.1 + t.2 + t.3 <= t.0
        }),
    decreases frames.len(),
{
    if frames.len() > 0 {
        lemma_tally_adds_up(frames.drop_last());
    }
}

/// A message we sent in a contact's chat is imported as ours: with our own
/// recipient, a contact with a 16-byte ACI, the chat with that contact and
/// an item of that chat authored by our recipient, the one message
/// imported is in the contact's conversation, by us, to the contact, at
/// the item's time, with its text.
pub proof fn lemma_own_message_to_contact(
    self_id: u64,
    contact_id: u64,
    chat_id: u64,
    c: BackupContact,
    date_sent: u64,
    text: String,
    self_uuid: u128,
)
    requires
        self_id != contact_id,
        c.aci matches Some(a) && a@.len() == 16,
    ensures
        ({
            let bob = uuid_of_bytes(c.aci->0@);
            let frames = seq![
                BackupFrame::Recipient { id: self_id, destination: Some(BackupDestination::SelfRecipient) },
                BackupFrame::Recipient { id: contact_id, destination: Some(BackupDestination::Contact(c)) },
                BackupFrame::Chat { id: chat_id, recipient_id: contact_id },
                BackupFrame::ChatItem { chat_id, author_id: self_id, date_sent, text: Some(text) },
            ];
            extract_all(frames, self_uuid).messages == seq![
                (ThreadView::Contact(ServiceId { kind: ServiceKind::Aci, uuid: bob }), self_uuid, bob, date_sent, text@),
            ]
        }),
{
    let frames = seq![
        BackupFrame::Recipient { id: self_id, destination: Some(BackupDestination::SelfRecipient) },
        BackupFrame::Recipient { id: contact_id, destination: Some(BackupDestination::Contact(c)) },
        BackupFrame::Chat { id: chat_id, recipient_id: contact_id },
        BackupFrame::ChatItem { chat_id, author_id: self_id, date_sent, text: Some(text) },
    ];
    assert(frames.drop_last() =~= frames.take(3));
    assert(frames.take(3).drop_last() =~= frames.take(2));
    assert(frames.take(2).drop_last() =~= frames.take(1));
    assert(frames.take(1).drop_last() =~= Seq::<BackupFrame>::empty());
    reveal_with_fuel(extract_all, 5);
    let s3 = extract_all(frames.take(3), self_uuid);
    assert(s3.id_aci.contains_key(self_id) && s3.id_aci[self_id] == self_uuid);
}

/// An item's author is the account its author id names, whatever the
/// conversation: in a contact's chat as in a group, an item by a known
/// recipient is by that recipient's ACI, and one by an unknown recipient is
/// by us.
pub proof fn lemma_item_author(s: ExtractState, chat_id: u64, author_id: u64, date_sent: u64, text: String, self_uuid: u128)
    requires
        s.chat_recipient.contains_key(chat_id),
        s.id_thread.contains_key(s.chat_recipient[chat_id]),
    ensures
        extract_step(s, BackupFrame::ChatItem { chat_id, author_id, date_sent, text: Some(text) }, self_uuid).messages
            == s.messages.push(
            (
                s.id_thread[s.chat_recipient[chat_id]],
                if s.id_aci.contains_key(author_id) {
                    s.id_aci[author_id]
                } else {
                    self_uuid
                },
                match s.id_thread[s.chat_recipient[chat_id]] {
                    ThreadView::Contact(sid) => sid.uuid,
                    ThreadView::Group(_) => self_uuid,
                },
                date_sent,
                text@,
            ),
        ),
{
}

} // verus!
