//! What goes out: the wire messages built for each kind of send, the
//! receipts this client emits, and the checks made before a send.
use vstd::prelude::*;

use crate::codec::{parse_uuid, uuid_parse};
use crate::messaging::types::{ReceiptKind, QuoteInput, receipt_kind_wire};
use crate::messaging::wire::{
    AttachmentPointer, Content, ContentBody, DataMessage, Delete, PinMessage, PollVote, Quote, Reaction, ReceiptMessage,
    Thread, ThreadView, TypingMessage,
};
use crate::text::{char_range, concat, is_blank, owned, push_char, push_str, text_is_blank};

verus! {

/// The body a message is sent with: none for an empty text.
pub open spec fn body_of(body: Seq<char>) -> Option<Seq<char>> {
    if body.len() == 0 {
        None
    } else {
        Some(body)
    }
}

/// The text message sent to a conversation: the body (none when empty), the
/// send time, the uploaded attachments and, for a reply, the quote of the
/// message replied to.
pub fn text_message(body: &str, timestamp: u64, attachments: Vec<AttachmentPointer>, quote: Option<QuoteInput>) -> (m: DataMessage)
    ensures
        m.body.deep_view() == body_of(body@),
        m.timestamp == Some(timestamp),
        m.attachments@ == attachments@,
        match quote {
            Some(q) => m.quote matches Some(mq) && mq.id == Some(q.id) && mq.author_aci.deep_view() == Some(
                q.author_uuid@,
            ) && mq.text.deep_view() == Some(q.text@),
            None => m.quote is None,
        },
        m.reaction is None,
        m.delete is None,
        m.poll_create is None,
        m.poll_vote is None,
        !m.group_call_update,
        m.pin_message is None,
        m.unpin_message is None,
        m.preview@.len() == 0,
        m.body_ranges@.len() == 0,
{
    let body_opt = if body.unicode_len() == 0 {
        None
    } else {
        Some(owned(body))
    };
    let quote_proto = match quote {
        Some(q) => Some(Quote { id: Some(q.id), author_aci: Some(q.author_uuid), text: Some(q.text) }),
        None => None,
    };
    DataMessage {
        body: body_opt,
        timestamp: Some(timestamp),
        attachments,
        quote: quote_proto,
        reaction: None,
        delete: None,
        poll_create: None,
        poll_vote: None,
        group_call_update: false,
        pin_message: None,
        unpin_message: None,
        preview: Vec::new(),
        body_ranges: Vec::new(),
    }
}

/// The message that adds (or, with `remove`, takes back) an emoji reaction
/// to the message sent at `target_timestamp` by `target_author_uuid`.
pub fn reaction_message(
    timestamp: u64,
    emoji: &str,
    remove: bool,
    target_author_uuid: &str,
    target_timestamp: u64,
) -> (m: DataMessage)
    ensures
        m.body is None,
        m.timestamp == Some(timestamp),
        m.attachments@.len() == 0,
        m.quote is None,
        m.reaction matches Some(r) && r.emoji.deep_view() == Some(emoji@) && r.remove == Some(remove)
            && r.target_author_aci.deep_view() == Some(target_author_uuid@) && r.target_sent_timestamp
            == Some(target_timestamp),
        m.delete is None,
        m.poll_create is None,
        m.poll_vote is None,
        !m.group_call_update,
        m.pin_message is None,
        m.unpin_message is None,
        m.preview@.len() == 0,
        m.body_ranges@.len() == 0,
{
    DataMessage {
        body: None,
        timestamp: Some(timestamp),
        attachments: Vec::new(),
        quote: None,
        reaction: Some(
            Reaction {
                emoji: Some(owned(emoji)),
                remove: Some(remove),
                target_author_aci: Some(owned(target_author_uuid)),
                target_sent_timestamp: Some(target_timestamp),
            },
        ),
        delete: None,
        poll_create: None,
        poll_vote: None,
        group_call_update: false,
        pin_message: None,
        unpin_message: None,
        preview: Vec::new(),
        body_ranges: Vec::new(),
    }
}

/// The delete-for-everyone message for our message sent at
/// `target_timestamp`.
pub fn delete_message(timestamp: u64, target_timestamp: u64) -> (m: DataMessage)
    ensures
        m.body is None,
        m.timestamp == Some(timestamp),
        m.attachments@.len() == 0,
        m.quote is None,
        m.reaction is None,
        m.delete == Some(Delete { target_sent_timestamp: Some(target_timestamp) }),
        m.poll_create is None,
        m.poll_vote is None,
        !m.group_call_update,
        m.pin_message is None,
        m.unpin_message is None,
        m.preview@.len() == 0,
        m.body_ranges@.len() == 0,
{
    DataMessage {
        body: None,
        timestamp: Some(timestamp),
        attachments: Vec::new(),
        quote: None,
        reaction: None,
        delete: Some(Delete { target_sent_timestamp: Some(target_timestamp) }),
        poll_create: None,
        poll_vote: None,
        group_call_update: false,
        pin_message: None,
        unpin_message: None,
        preview: Vec::new(),
        body_ranges: Vec::new(),
    }
}

/// The message that pins (or, with `pinned` false, unpins) the message
/// sent at `target_timestamp` by `target_author_uuid` (without a pin
/// duration).
pub fn pin_message(timestamp: u64, target_author_uuid: &str, target_timestamp: u64, pinned: bool) -> (m: DataMessage)
    ensures
        m.body is None,
        m.timestamp == Some(timestamp),
        m.attachments@.len() == 0,
        m.quote is None,
        m.reaction is None,
        m.delete is None,
        m.poll_create is None,
        m.poll_vote is None,
        !m.group_call_update,
        pinned ==> m.unpin_message is None,
        !pinned ==> m.pin_message is None,
        pinned ==> (m.pin_message matches Some(p)
            && p.target_author_aci_binary.deep_view() == Some(author_binary(target_author_uuid@))
            && p.target_sent_timestamp == Some(target_timestamp)),
        !pinned ==> (m.unpin_message matches Some(p)
            && p.target_author_aci_binary.deep_view() == Some(author_binary(target_author_uuid@))
            && p.target_sent_timestamp == Some(target_timestamp)),
        m.preview@.len() == 0,
        m.body_ranges@.len() == 0,
{
    let author = match parse_uuid(target_author_uuid) {
        Some(u) => crate::codec::uuid_bytes_vec(u),
        None => Vec::new(),
    };
    let pin = PinMessage { target_author_aci_binary: Some(author), target_sent_timestamp: Some(target_timestamp) };
    let (pin_message, unpin_message) = if pinned {
        (Some(pin), None)
    } else {
        (None, Some(pin))
    };
    DataMessage {
        body: None,
        timestamp: Some(timestamp),
        attachments: Vec::new(),
        quote: None,
        reaction: None,
        delete: None,
        poll_create: None,
        poll_vote: None,
        group_call_update: false,
        pin_message,
        unpin_message,
        preview: Vec::new(),
        body_ranges: Vec::new(),
    }
}

/// The bytes of the poll author's ACI: its 16 bytes when `author` is a
/// UUID, else none.
pub open spec fn author_binary(author: Seq<char>) -> Seq<u8> {
    match uuid_parse(author) {
        Some(u) => crate::codec::uuid_bytes(u),
        None => Seq::empty(),
    }
}

/// The message that votes for the options `option_indexes` of the poll
/// sent at `target_timestamp` by `target_author_uuid`, with the number of
/// options chosen as its vote count.
pub fn poll_vote_message(
    timestamp: u64,
    target_author_uuid: &str,
    target_timestamp: u64,
    option_indexes: Vec<u32>,
) -> (m: DataMessage)
    ensures
        m.body is None,
        m.timestamp == Some(timestamp),
        m.attachments@.len() == 0,
        m.quote is None,
        m.reaction is None,
        m.delete is None,
        m.poll_create is None,
        m.poll_vote matches Some(v) && v.target_author_aci_binary.deep_view() == Some(
            author_binary(target_author_uuid@),
        ) && v.target_sent_timestamp == Some(target_timestamp) && v.option_indexes@ == option_indexes@
            && v.vote_count == Some(option_indexes@.len() as u32),
        !m.group_call_update,
        m.pin_message is None,
        m.unpin_message is None,
        m.preview@.len() == 0,
        m.body_ranges@.len() == 0,
{
    let author = match parse_uuid(target_author_uuid) {
        Some(u) => crate::codec::uuid_bytes_vec(u),
        None => Vec::new(),
    };
    let count = option_indexes.len() as u32;
    DataMessage {
        body: None,
        timestamp: Some(timestamp),
        attachments: Vec::new(),
        quote: None,
        reaction: None,
        delete: None,
        poll_create: None,
        poll_vote: Some(
            PollVote {
                target_author_aci_binary: Some(author),
                target_sent_timestamp: Some(target_timestamp),
                option_indexes,
                vote_count: Some(count),
            },
        ),
        group_call_update: false,
        pin_message: None,
        unpin_message: None,
        preview: Vec::new(),
        body_ranges: Vec::new(),
    }
}

/// The typing indicator for a conversation: 1:1 conversations only (a
/// group gets none), STARTED = 0 / STOPPED = 1.
pub fn typing_message(thread: &Thread, started: bool, timestamp: u64) -> (r: Option<TypingMessage>)
    ensures
        match thread.deep_view() {
            ThreadView::Contact(_) => r matches Some(t) && t.timestamp == Some(timestamp) && t.action
                == Some(if started { 0i32 } else { 1i32 }) && t.group_id is None,
            ThreadView::Group(_) => r is None,
        },
{
    match thread {
        Thread::Contact(_) => Some(
            TypingMessage {
                timestamp: Some(timestamp),
                action: Some(if started { 0 } else { 1 }),
                group_id: None,
            },
        ),
        Thread::Group(_) => None,
    }
}

/// The receipt acknowledging the messages sent at `timestamps`.
pub fn receipt_message(kind: ReceiptKind, timestamps: Vec<u64>) -> (r: ReceiptMessage)
    ensures
        r.kind == Some(receipt_kind_wire(kind)),
        r.timestamps@ == timestamps@,
{
    ReceiptMessage { kind: Some(kind.to_proto()), timestamps }
}

/// Which send failed, for its error text.
#[derive(Debug, Clone, Copy, PartialEq, Eq, Structural)]
pub enum SendKind {
    Text,
    Reaction,
    Delete,
    Typing,
    Receipt,
    CallMessage,
    PollVote,
    Pin,
}

/// The error text of a failed send (to a group or to a contact).
pub open spec fn send_failure_text(kind: SendKind, to_group: bool, e: Seq<char>) -> Seq<char> {
    let prefix = match kind {
        SendKind::Text => if to_group { "failed to send to group: "@ } else { "failed to send: "@ },
        SendKind::Reaction => if to_group {
            "failed to send group reaction: "@
        } else {
            "failed to send reaction: "@
        },
        SendKind::Delete => if to_group { "failed to send group delete: "@ } else { "failed to send delete: "@ },
        SendKind::Typing => "failed to send typing: "@,
        SendKind::Receipt => "send_receipt: "@,
        SendKind::CallMessage => "send_call_message: "@,
        SendKind::PollVote => if to_group { "failed to send group vote: "@ } else { "failed to send vote: "@ },
        SendKind::Pin => if to_group { "failed to send group pin: "@ } else { "failed to send pin: "@ },
    };
    prefix + e
}

/// The error text of a failed send.
pub fn send_failure(kind: SendKind, to_group: bool, e: &str) -> (r: String)
    ensures
        r@ == send_failure_text(kind, to_group, e@),
{
    let prefix = match kind {
        SendKind::Text => if to_group { "failed to send to group: " } else { "failed to send: " },
        SendKind::Reaction => if to_group {
            "failed to send group reaction: "
        } else {
            "failed to send reaction: "
        },
        SendKind::Delete => if to_group { "failed to send group delete: " } else { "failed to send delete: " },
        SendKind::Typing => "failed to send typing: ",
        SendKind::Receipt => "send_receipt: ",
        SendKind::CallMessage => "send_call_message: ",
        SendKind::PollVote => if to_group { "failed to send group vote: " } else { "failed to send vote: " },
        SendKind::Pin => if to_group { "failed to send group pin: " } else { "failed to send pin: " },
    };
    concat(prefix, e)
}

/// Upload `i` is the first that failed, and `e` is its error text.
pub open spec fn first_upload_error(results: Seq<Result<AttachmentPointer, String>>, i: int, e: Seq<char>) -> bool {
    &&& results[i] matches Err(m) && e == "attachment upload failed: "@ + m@
    &&& forall|j: int| 0 <= j < i ==> (#[trigger] results[j]) is Ok
}

/// What collecting upload results gives: every pointer, in order, when all
/// uploads succeeded; else the first failure's error text.
pub open spec fn uploads_collected(
    results: Seq<Result<AttachmentPointer, String>>,
    r: Result<Vec<AttachmentPointer>, String>,
) -> bool {
    match r {
        Ok(ps) => ps@.len() == results.len() && forall|i: int|
            0 <= i < results.len() ==> (#[trigger] results[i]) == Ok::<AttachmentPointer, String>(ps@[i]),
        Err(e) => exists|i: int| 0 <= i < results.len() && #[trigger] first_upload_error(results, i, e@),
    }
}

/// The uploaded attachments, or the first upload error.
pub fn collect_uploads(results: Vec<Result<AttachmentPointer, String>>) -> (r: Result<Vec<AttachmentPointer>, String>)
    ensures
        uploads_collected(results@, r),
{
    let mut out: Vec<AttachmentPointer> = Vec::new();
    let mut i: usize = 0;
    let n = results.len();
    let mut rest = results;
    let ghost all = rest@;
    while i < n
        invariant
            n == all.len(),
            all == results@,
            i <= n,
            rest@ =~= all.subrange(i as int, n as int),
            out@.len() == i,
            forall|j: int| 0 <= j < i ==> (#[trigger] all[j]) == Ok::<AttachmentPointer, String>(out@[j]),
        decreases n - i,
    {
        proof {
            assert(rest@.len() == n - i);
            assert(rest@[0] == all[i as int]);
        }
        let item = rest.remove(0);
        proof {
            assert(rest@ =~= all.subrange(i + 1, n as int));
        }
        match item {
            Ok(p) => {
                out.push(p);
            },
            Err(m) => {
                let e = concat("attachment upload failed: ", m.as_str());
                proof {
                    assert(first_upload_error(all, i as int, e@));
                }
                let r: Result<Vec<AttachmentPointer>, String> = Err(e);
                proof {
                    let ee = r->Err_0;
                    assert(ee@ == "attachment upload failed: "@ + m@);
                    assert(first_upload_error(all, i as int, ee@));
                    assert(exists|k: int| 0 <= k < all.len() && #[trigger] first_upload_error(all, k, ee@));
                }
                assert(uploads_collected(all, r));
                return r;
            },
        }
        i = i + 1;
    }
    Ok(out)
}

/// Whether a delivery receipt goes back for `content`, and for which sent
/// time: only when receipts are enabled, only for data messages (their own
/// timestamp, else the envelope's) and edits (the edited message's, else the
/// envelope's), and never to ourselves.
pub open spec fn delivery_receipt_of(content: Content, self_aci: Option<Seq<char>>, enabled: bool) -> Option<u64> {
    if !enabled {
        None
    } else {
        let ts = match content.body {
            ContentBody::DataMessage(dm) => Some(
                match dm.timestamp {
                    Some(t) => t,
                    None => content.timestamp,
                },
            ),
            ContentBody::EditMessage(em) => Some(
                match em.target_sent_timestamp {
                    Some(t) => t,
                    None => content.timestamp,
                },
            ),
            _ => None,
        };
        match ts {
            None => None,
            Some(t) => if self_aci == Some(content.sender_uuid@) {
                None
            } else {
                Some(t)
            },
        }
    }
}

/// The delivery receipt owed for a received envelope: the sent time to
/// acknowledge (to the envelope's sender), if any.
pub fn auto_delivery_receipt(content: &Content, self_aci: &Option<String>, enabled: bool) -> (r: Option<u64>)
    ensures
        r == delivery_receipt_of(*content, self_aci.deep_view(), enabled),
{
    if !enabled {
        return None;
    }
    let timestamp = match &content.body {
        ContentBody::DataMessage(dm) => match dm.timestamp {
            Some(t) => t,
            None => content.timestamp,
        },
        ContentBody::EditMessage(em) => match em.target_sent_timestamp {
            Some(t) => t,
            None => content.timestamp,
        },
        _ => return None,
    };
    if let Some(me) = self_aci {
        if crate::text::same_text(me.as_str(), content.sender_uuid.as_str()) {
            return None;
        }
    }
    Some(timestamp)
}

/// A decimal digit character.
pub open spec fn is_digit(c: char) -> bool {
    '0' <= c && c <= '9'
}

/// The value of a string of decimal digits.
pub open spec fn digits_value(s: Seq<char>) -> nat
    decreases s.len(),
{
    if s.len() == 0 {
        0
    } else {
        digits_value(s.drop_last()) * 10 + ((s.last() as u32) - ('0' as u32)) as nat
    }
}

/// What `u64::from_str` accepts: an optional `+`, then at least one decimal
/// digit, with a value that fits in 64 bits.
pub open spec fn u64_of_text(s: Seq<char>) -> Option<u64> {
    let d = unsigned_part(s);
    if d.len() > 0 && all_digits_text(d) && digits_value(d) <= u64::MAX {
        Some(digits_value(d) as u64)
    } else {
        None
    }
}

/// `s` without a leading `+`.
pub open spec fn unsigned_part(s: Seq<char>) -> Seq<char> {
    if s.len() > 0 && s[0] == '+' {
        s.drop_first()
    } else {
        s
    }
}

/// Every character of `d` is a decimal digit.
pub open spec fn all_digits_text(d: Seq<char>) -> bool {
    forall|i: int| 0 <= i < d.len() ==> is_digit(#[trigger] d[i])
}

fn all_digits(t: &str) -> (r: bool)
    ensures
        r == all_digits_text(t@),
{
    let n = t.unicode_len();
    let mut i: usize = 0;
    while i < n
        invariant
            n == t@.len(),
            i <= n,
            forall|k: int| 0 <= k < i ==> is_digit(#[trigger] t@[k]),
        decreases n - i,
    {
        let c = t.get_char(i);
        if !('0' <= c && c <= '9') {
            assert(!is_digit(t@[i as int]));
            return false;
        }
        i = i + 1;
    }
    true
}

fn digits_to_u64(t: &str) -> (r: Option<u64>)
    requires
        all_digits_text(t@),
    ensures
        r == (if digits_value(t@) <= u64::MAX { Some(digits_value(t@) as u64) } else { None::<u64> }),
{
    let n = t.unicode_len();
    let mut value: u64 = 0;
    let mut overflow = false;
    let mut i: usize = 0;
    proof {
        assert(t@.take(0) =~= Seq::<char>::empty());
    }
    while i < n
        invariant
            n == t@.len(),
            i <= n,
            forall|k: int| 0 <= k < t@.len() ==> is_digit(#[trigger] t@[k]),
            !overflow ==> value == digits_value(t@.take(i as int)),
            overflow ==> digits_value(t@.take(i as int)) > u64::MAX,
        decreases n - i,
    {
        let c = t.get_char(i);
        assert(is_digit(t@[i as int]));
        let digit: u32 = (c as u32) - ('0' as u32);
        proof {
            let p = t@.take(i + 1);
            assert(p.drop_last() =~= t@.take(i as int));
            assert(p.last() == c);
            assert(digits_value(p) == digits_value(t@.take(i as int)) * 10 + digit);
        }
        if !overflow {
            if value > (u64::MAX - digit as u64) / 10 {
                overflow = true;
            } else {
                value = value * 10 + digit as u64;
            }
        }
        i = i + 1;
    }
    proof {
        assert(t@.take(n as int) =~= t@);
    }
    if overflow {
        None
    } else {
        Some(value)
    }
}

/// Parse a `u64` the way `str::parse::<u64>` does.
pub fn parse_u64(s: &str) -> (r: Option<u64>)
    ensures
        r == u64_of_text(s@),
{
    let n = s.unicode_len();
    let start: usize = if n > 0 && s.get_char(0) == '+' { 1 } else { 0 };
    let d = char_range(s, start, n);
    proof {
        assert(d@ =~= unsigned_part(s@));
    }
    if d.unicode_len() == 0 {
        return None;
    }
    if !all_digits(d.as_str()) {
        return None;
    }
    digits_to_u64(d.as_str())
}

/// What marking a conversation read sends: nothing when receipts are
/// disabled; an error for a conversation id that is not a UUID (only 1:1
/// conversations get read receipts); otherwise a READ receipt to that
/// contact for every timestamp that parses, unless none does.
pub open spec fn read_receipt_of(
    enabled: bool,
    conversation_id: Seq<char>,
    stamps: Seq<Seq<char>>,
) -> Result<Option<(u128, Seq<u64>)>, Seq<char>> {
    if !enabled {
        Ok(None)
    } else {
        match uuid_parse(conversation_id) {
            None => Err("mark_conversation_read: not a 1:1 conversation"@),
            Some(u) => {
                let ts = parsed_stamps(stamps);
                if ts.len() == 0 {
                    Ok(None)
                } else {
                    Ok(Some((u, ts)))
                }
            },
        }
    }
}

/// The timestamps of `stamps` that parse, in order.
pub open spec fn parsed_stamps(stamps: Seq<Seq<char>>) -> Seq<u64>
    decreases stamps.len(),
{
    if stamps.len() == 0 {
        Seq::empty()
    } else {
        let rest = parsed_stamps(stamps.drop_last());
        match u64_of_text(stamps.last()) {
            Some(t) => rest.push(t),
            None => rest,
        }
    }
}

/// The READ receipt a "mark conversation read" asks for (recipient and
/// timestamps), if any.
pub fn mark_conversation_read(
    enabled: bool,
    conversation_id: &str,
    message_timestamps: &Vec<String>,
) -> (r: Result<Option<(u128, Vec<u64>)>, String>)
    ensures
        match read_receipt_of(enabled, conversation_id@, message_timestamps@.map_values(|s: String| s@)) {
            Ok(None) => r matches Ok(None),
            Ok(Some((u, ts))) => r matches Ok(Some((v, w))) && v == u && w@ == ts,
            Err(e) => r matches Err(m) && m@ == e,
        },
{
    if !enabled {
        return Ok(None);
    }
    let recipient = match parse_uuid(conversation_id) {
        Some(u) => u,
        None => return Err(owned("mark_conversation_read: not a 1:1 conversation")),
    };
    let ghost stamps = message_timestamps@.map_values(|s: String| s@);
    let mut timestamps: Vec<u64> = Vec::new();
    let mut i: usize = 0;
    while i < message_timestamps.len()
        invariant
            i <= message_timestamps@.len(),
            stamps == message_timestamps@.map_values(|s: String| s@),
            timestamps@ == parsed_stamps(stamps.take(i as int)),
        decreases message_timestamps@.len() - i,
    {
        proof {
            assert(stamps.take(i + 1).drop_last() =~= stamps.take(i as int));
            assert(stamps.take(i + 1).last() == message_timestamps@[i as int]@);
        }
        match parse_u64(message_timestamps[i].as_str()) {
            Some(t) => timestamps.push(t),
            None => {},
        }
        i = i + 1;
    }
    proof {
        assert(stamps.take(i as int) =~= stamps);
    }
    if timestamps.len() == 0 {
        Ok(None)
    } else {
        Ok(Some((recipient, timestamps)))
    }
}

/// A profile update: the display name and an optional about line.
#[derive(Debug, Clone)]
pub struct ProfileUpdate {
    pub given_name: String,
    pub family_name: Option<String>,
    pub about: Option<String>,
}

/// An optional text, dropped when blank.
pub open spec fn unless_blank(t: Option<Seq<char>>) -> Option<Seq<char>> {
    match t {
        Some(s) => if is_blank(s) {
            None
        } else {
            Some(s)
        },
        None => None,
    }
}

fn keep_unless_blank(t: Option<String>) -> (r: Option<String>)
    ensures
        r.deep_view() == unless_blank(t.deep_view()),
{
    match t {
        Some(s) => if text_is_blank(s.as_str()) {
            None
        } else {
            Some(s)
        },
        None => None,
    }
}

/// Our own profile update: refused when the given name is blank; a blank
/// family name or about line is left out.
pub fn profile_update(given_name: String, family_name: Option<String>, about: Option<String>) -> (r: Result<ProfileUpdate, String>)
    ensures
        is_blank(given_name@) ==> (r matches Err(e) && e@ == "le prénom ne peut pas être vide"@),
        !is_blank(given_name@) ==> (r matches Ok(p) && p.given_name@ == given_name@ && p.family_name.deep_view()
            == unless_blank(family_name.deep_view()) && p.about.deep_view() == unless_blank(about.deep_view())),
{
    if text_is_blank(given_name.as_str()) {
        return Err(owned("le prénom ne peut pas être vide"));
    }
    Ok(ProfileUpdate { given_name, family_name: keep_unless_blank(family_name), about: keep_unless_blank(about) })
}

/// The display name shown for a fetched profile: none when it is blank.
pub fn fetched_profile_name(name: Option<String>) -> (r: Option<String>)
    ensures
        r.deep_view() == unless_blank(name.deep_view()),
{
    keep_unless_blank(name)
}

/// The safety number's digits in space-separated blocks of five (the last
/// block may be shorter).
pub open spec fn grouped_digits(d: Seq<char>) -> Seq<char>
    decreases d.len(),
{
    if d.len() <= 5 {
        d
    } else {
        d.take(5) + seq![' '] + grouped_digits(d.skip(5))
    }
}

/// Group a safety number's digits into blocks of five, as the official
/// client shows them.
pub fn group_digits(digits: &str) -> (r: String)
    ensures
        r@ == grouped_digits(digits@),
{
    let n = digits.unicode_len();
    let mut out = String::new();
    let mut i: usize = 0;
    proof {
        assert(digits@.skip(0) =~= digits@);
        assert(out@ + grouped_digits(digits@.skip(0)) =~= grouped_digits(digits@));
    }
    while i < n
        invariant
            n == digits@.len(),
            i <= n,
            out@ + grouped_digits(digits@.skip(i as int)) == grouped_digits(digits@),
        decreases n - i,
    {
        let ghost rest = digits@.skip(i as int);
        let ghost before = out@;
        if n - i <= 5 {
            let block = char_range(digits, i, n);
            push_str(&mut out, block.as_str());
            proof {
                assert(block@ =~= rest);
                assert(digits@.skip(n as int) =~= Seq::<char>::empty());
                assert(out@ + grouped_digits(digits@.skip(n as int)) =~= before + grouped_digits(rest));
            }
            i = n;
        } else {
            let block = char_range(digits, i, i + 5);
            push_str(&mut out, block.as_str());
            push_char(&mut out, ' ');
            proof {
                assert(block@ =~= rest.take(5));
                assert(rest.skip(5) =~= digits@.skip(i + 5));
                assert(out@ + grouped_digits(digits@.skip(i + 5)) =~= before + grouped_digits(rest));
            }
            i = i + 5;
        }
    }
    proof {
        assert(digits@.skip(i as int) =~= Seq::<char>::empty());
        assert(out@ + grouped_digits(digits@.skip(i as int)) =~= out@);
    }
    out
}

/// Not a space.
pub open spec fn not_space(c: char) -> bool {
    c != ' '
}

proof fn lemma_filter_keeps_all(s: Seq<char>)
    requires
        forall|i: int| 0 <= i < s.len() ==> not_space(#[trigger] s[i]),
    ensures
        s.filter(|c: char| not_space(c)) == s,
    decreases s.len(),
{
    reveal(Seq::filter);
    if s.len() > 0 {
        lemma_filter_keeps_all(s.drop_last());
        assert(s.drop_last().push(s.last()) =~= s);
    }
}

/// Taking the spaces out of a grouped safety number gives back its digits
/// (for digits without spaces).
pub proof fn lemma_grouping_only_adds_spaces(d: Seq<char>)
    requires
        forall|i: int| 0 <= i < d.len() ==> not_space(#[trigger] d[i]),
    ensures
        grouped_digits(d).filter(|c: char| not_space(c)) == d,
    decreases d.len(),
{
    if d.len() <= 5 {
        lemma_filter_keeps_all(d);
    } else {
        let p = |c: char| not_space(c);
        assert forall|i: int| 0 <= i < d.skip(5).len() implies not_space(#[trigger] d.skip(5)[i]) by {
            assert(d.skip(5)[i] == d[i + 5]);
        }
        lemma_grouping_only_adds_spaces(d.skip(5));
        assert forall|i: int| 0 <= i < d.take(5).len() implies not_space(#[trigger] d.take(5)[i]) by {
            assert(d.take(5)[i] == d[i]);
        }
        lemma_filter_keeps_all(d.take(5));
        Seq::filter_distributes_over_add(d.take(5) + seq![' '], grouped_digits(d.skip(5)), p);
        Seq::filter_distributes_over_add(d.take(5), seq![' '], p);
        reveal_with_fuel(Seq::filter, 2);
        assert(seq![' '].drop_last() =~= Seq::<char>::empty());
        assert(seq![' '].filter(p) =~= Seq::<char>::empty());
        assert(d.take(5) + d.skip(5) =~= d);
    }
}

/// Every block of a grouped safety number has at most five characters:
/// a block ends at most five characters after the previous space.
pub proof fn lemma_grouped_length(d: Seq<char>)
    ensures
        d.len() > 0 ==> grouped_digits(d).len() == d.len() + (d.len() - 1) / 5,
    decreases d.len(),
{
    if d.len() > 5 {
        lemma_grouped_length(d.skip(5));
    }
}

} // verus!
