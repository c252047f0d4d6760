//! Pure parsing of decrypted envelopes into the UI-bound events and view
//! models.
use vstd::prelude::*;
use crate::codec::{hex_decode, hex_encode, hex_text, parse_uuid, unhex, uuid_parse, uuid_text, uuid_to_string};
use crate::messaging::types::{
    AttachmentInfo, AttachmentInfoView, ChatMessage, ChatMessageView, DeleteEvent, DeleteEventView,
    EditEvent, EditEventView, InboundEvent, InboundEventView, LinkPreview, LinkPreviewView, MsgRange,
    MsgRangeView, PollInfo, PollInfoView, PollVoteEvent,
    PollVoteEventView, QuotedMessage, QuotedMessageView,
    ReactionEvent, ReactionEventView, ReceiptEvent, ReceiptEventView, ReceiptKind, TypingAction,
    TypingEvent, TypingEventView, receipt_kind_of, typing_action_of,
};
use crate::messaging::wire::{
    AttachmentIdentifier, AttachmentIdentifierView, AttachmentPointer, AttachmentPointerView, BodyRange,
    BodyRangeView, PreviewView, RangeValue, RangeValueView,
    Content, ContentBody, ContentBodyView, ContentView, DataMessage, DataMessageView, Delete,
    EditMessage, EditMessageView, ServiceId, ServiceKind, Thread, ThreadView,
};
use crate::text::{decimal, decimal_string, owned, same_text, with_decimal, concat};

verus! {

/// `o`, or `d` where it is absent.
pub open spec fn text_or(o: Option<Seq<char>>, d: Seq<char>) -> Seq<char> {
    match o {
        Some(t) => t,
        None => d,
    }
}

/// The conversation an envelope belongs to: the contact's UUID, the group's
/// hex master key, or (where no thread could be resolved) the sender.
pub open spec fn conversation_id_of(thread: Option<ThreadView>, sender: Seq<char>) -> Seq<char> {
    match thread {
        Some(ThreadView::Contact(s)) => uuid_text(s.uuid),
        Some(ThreadView::Group(k)) => hex_text(k),
        None => sender,
    }
}

/// Conversation id of an envelope, from the thread the store resolved for it
/// (`None` when it could not resolve one) and the sender's UUID.
pub fn resolve_conversation_id(thread: &Option<Thread>, sender_uuid: &str) -> (r: String)
    ensures
        r@ == conversation_id_of(thread.deep_view(), sender_uuid@),
{
    match thread {
        Some(Thread::Contact(s)) => uuid_to_string(s.uuid),
        Some(Thread::Group(k)) => hex_encode(k.as_slice()),
        None => owned(sender_uuid),
    }
}

/// What a conversation id names: a service id the caller already recognised
/// wins; then a UUID (an ACI contact); then 64 hex digits (a group master
/// key); anything else is refused with a message.
pub open spec fn thread_of(id: Seq<char>, service_id: Option<ServiceId>) -> Result<ThreadView, Seq<char>> {
    match service_id {
        Some(s) => Ok(ThreadView::Contact(s)),
        None => match uuid_parse(id) {
            Some(u) => Ok(ThreadView::Contact(ServiceId { kind: ServiceKind::Aci, uuid: u })),
            None => match unhex(vstd::utf8::encode_utf8(id)) {
                Some(b) => if b.len() == 32 {
                    Ok(ThreadView::Group(b))
                } else {
                    Err("invalid group key length: "@ + decimal(b.len()))
                },
                None => Err("invalid conversation id: "@ + id),
            },
        },
    }
}

/// Resolve a conversation id to a thread. `service_id` is what the protocol
/// library's service-id parser made of the id (`None` if it is not one).
pub fn parse_thread(conversation_id: &str, service_id: Option<ServiceId>) -> (r: Result<Thread, String>)
    ensures
        match r {
            Ok(t) => thread_of(conversation_id@, service_id) == Ok::<ThreadView, Seq<char>>(t.deep_view()),
            Err(e) => thread_of(conversation_id@, service_id) == Err::<ThreadView, Seq<char>>(e@),
        },
{
    if let Some(s) = service_id {
        return Ok(Thread::Contact(s));
    }
    if let Some(u) = parse_uuid(conversation_id) {
        return Ok(Thread::Contact(ServiceId { kind: ServiceKind::Aci, uuid: u }));
    }
    match hex_decode(conversation_id) {
        Some(bytes) => {
            if bytes.len() == 32 {
                Ok(Thread::Group(bytes))
            } else {
                Err(with_decimal("invalid group key length: ", bytes.len() as u64))
            }
        },
        None => Err(concat("invalid conversation id: ", conversation_id)),
    }
}

/// The UI form of the `i`-th attachment pointer of a message.
pub open spec fn attachment_info_of(p: AttachmentPointerView, i: int) -> AttachmentInfoView {
    AttachmentInfoView {
        id: match p.identifier {
            Some(AttachmentIdentifierView::CdnId(n)) => decimal(n as nat),
            Some(AttachmentIdentifierView::CdnKey(k)) => k,
            None => "unknown-"@ + decimal(i as nat),
        },
        file_name: text_or(p.file_name, "file-"@ + decimal(i as nat)),
        mime_type: text_or(p.content_type, "application/octet-stream"@),
        size: match p.size {
            Some(s) => s as u64,
            None => 0,
        },
        local_path: None,
        pointer_data: Some(p.encoded),
    }
}

/// The UI forms of all attachments of a message, in order.
pub open spec fn attachments_of(dm: DataMessageView) -> Seq<AttachmentInfoView> {
    Seq::new(dm.attachments.len(), |i: int| attachment_info_of(dm.attachments[i], i))
}

fn attachment_info(p: &AttachmentPointer, i: usize) -> (r: AttachmentInfo)
    ensures
        r.deep_view() == attachment_info_of(p.deep_view(), i as int),
{
    let id = match &p.identifier {
        Some(AttachmentIdentifier::CdnId(n)) => decimal_string(*n),
        Some(AttachmentIdentifier::CdnKey(k)) => k.clone(),
        None => with_decimal("unknown-", i as u64),
    };
    let file_name = match &p.file_name {
        Some(n) => n.clone(),
        None => with_decimal("file-", i as u64),
    };
    let mime_type = match &p.content_type {
        Some(t) => t.clone(),
        None => owned("application/octet-stream"),
    };
    let size: u64 = match p.size {
        Some(s) => s as u64,
        None => 0,
    };
    let encoded = p.encoded.clone();
    proof {
        assert(encoded@ =~= p.encoded@);
        assert(encoded.deep_view() =~= p.encoded@);
        let v = attachment_info_of(p.deep_view(), i as int);
        assert(id@ == v.id);
        assert(file_name@ == v.file_name);
        assert(mime_type@ == v.mime_type);
        assert(size == v.size);
    }
    AttachmentInfo { id, file_name, mime_type, size, local_path: None, pointer_data: Some(encoded) }
}

/// UI forms of the attachments of a data message.
pub fn extract_attachments(dm: &DataMessage) -> (r: Vec<AttachmentInfo>)
    ensures
        r.deep_view() == attachments_of(dm.deep_view()),
{
    let mut out: Vec<AttachmentInfo> = Vec::new();
    let n = dm.attachments.len();
    let mut i: usize = 0;
    while i < n
        invariant
            n == dm.attachments@.len(),
            i <= n,
            out@.len() == i,
            forall|j: int| 0 <= j < i ==> #[trigger] out@[j].deep_view() == attachment_info_of(
                dm.attachments@[j].deep_view(),
                j,
            ),
        decreases n - i,
    {
        let a = attachment_info(&dm.attachments[i], i);
        out.push(a);
        i = i + 1;
    }
    proof {
        assert(out.deep_view() =~= attachments_of(dm.deep_view()));
    }
    out
}

/// The UI form of a message's reply target. The author name starts out as
/// the raw author id; name resolution may replace it later.
pub open spec fn quote_of(dm: DataMessageView) -> Option<QuotedMessageView> {
    match dm.quote {
        None => None,
        Some(q) => Some(
            QuotedMessageView {
                id: match q.id {
                    Some(v) => v,
                    None => 0,
                },
                author_id: text_or(q.author_aci, seq![]),
                author_name: text_or(q.author_aci, seq![]),
                text: text_or(q.text, seq![]),
            },
        ),
    }
}

fn text_or_empty(o: &Option<String>) -> (r: String)
    ensures
        r@ == text_or(o.deep_view(), seq![]),
{
    match o {
        Some(t) => t.clone(),
        None => String::new(),
    }
}

/// The UI form of `dm.quote`, if any.
pub fn extract_quote(dm: &DataMessage) -> (r: Option<QuotedMessage>)
    ensures
        r.deep_view() == quote_of(dm.deep_view()),
{
    match &dm.quote {
        None => None,
        Some(q) => {
            let author_id = text_or_empty(&q.author_aci);
            let author_name = author_id.clone();
            let text = text_or_empty(&q.text);
            let id: u64 = match q.id {
                Some(v) => v,
                None => 0,
            };
            Some(QuotedMessage { id, author_id, author_name, text })
        },
    }
}

/// The card of a link preview: none without a URL; a missing title or
/// description is empty.
pub open spec fn preview_card(p: PreviewView) -> Option<LinkPreviewView> {
    match p.url {
        Some(url) => Some(
            LinkPreviewView { url, title: text_or(p.title, seq![]), description: text_or(p.description, seq![]) },
        ),
        None => None,
    }
}

/// The cards of the previews `ps`, in order.
pub open spec fn preview_cards(ps: Seq<PreviewView>) -> Seq<LinkPreviewView>
    decreases ps.len(),
{
    if ps.len() == 0 {
        Seq::empty()
    } else {
        let prev = preview_cards(ps.drop_last());
        match preview_card(ps.last()) {
            Some(c) => prev.push(c),
            None => prev,
        }
    }
}

/// The link preview cards of a data message.
pub open spec fn previews_of(dm: DataMessageView) -> Seq<LinkPreviewView> {
    preview_cards(dm.preview)
}

/// The link preview cards of `dm`.
pub fn extract_previews(dm: &DataMessage) -> (r: Vec<LinkPreview>)
    ensures
        r.deep_view() == previews_of(dm.deep_view()),
{
    let ghost ps = dm.preview.deep_view();
    let mut r: Vec<LinkPreview> = Vec::new();
    let mut i: usize = 0;
    proof {
        assert(ps.take(0) =~= Seq::<PreviewView>::empty());
    }
    while i < dm.preview.len()
        invariant
            i <= dm.preview@.len(),
            ps == dm.preview.deep_view(),
            r.deep_view() == preview_cards(ps.take(i as int)),
        decreases dm.preview@.len() - i,
    {
        let p = &dm.preview[i];
        proof {
            assert(ps.take(i + 1).drop_last() =~= ps.take(i as int));
            assert(ps.take(i + 1).last() == p.deep_view());
        }
        let ghost before = r.deep_view();
        if let Some(url) = &p.url {
            let card = LinkPreview { url: owned(url.as_str()), title: text_or_empty(&p.title), description: text_or_empty(&p.description) };
            r.push(card);
            proof {
                assert(r.deep_view() =~= before.push(card.deep_view()));
            }
        }
        i = i + 1;
    }
    proof {
        assert(ps.take(i as int) =~= ps);
    }
    r
}

/// The name of a text style by its wire number: 1 bold, 2 italic,
/// 3 spoiler, 4 strikethrough, 5 monospace; none for "no style" (0) or a
/// number this client does not know.
pub open spec fn style_name(s: i32) -> Option<Seq<char>> {
    if s == 1 {
        Some("bold"@)
    } else if s == 2 {
        Some("italic"@)
    } else if s == 3 {
        Some("spoiler"@)
    } else if s == 4 {
        Some("strikethrough"@)
    } else if s == 5 {
        Some("monospace"@)
    } else {
        None
    }
}

fn style_text(s: i32) -> (r: Option<String>)
    ensures
        r.deep_view() == style_name(s),
{
    if s == 1 {
        Some(owned("bold"))
    } else if s == 2 {
        Some(owned("italic"))
    } else if s == 3 {
        Some(owned("spoiler"))
    } else if s == 4 {
        Some(owned("strikethrough"))
    } else if s == 5 {
        Some(owned("monospace"))
    } else {
        None
    }
}

/// The UI span of a body range: kept when it has a start and a length and
/// carries a known style (by name) or a mention (by ACI); dropped otherwise.
pub open spec fn msg_range_of(r: BodyRangeView) -> Option<MsgRangeView> {
    match (r.start, r.length) {
        (Some(start), Some(length)) => match r.value {
            Some(RangeValueView::Style(s)) => match style_name(s) {
                Some(name) => Some(MsgRangeView { start, length, style: Some(name), mention_uuid: None }),
                None => None,
            },
            Some(RangeValueView::MentionAci(aci)) => Some(
                MsgRangeView { start, length, style: None, mention_uuid: Some(aci) },
            ),
            _ => None,
        },
        _ => None,
    }
}

/// The UI spans of the body ranges `rs`, in order.
pub open spec fn msg_ranges(rs: Seq<BodyRangeView>) -> Seq<MsgRangeView>
    decreases rs.len(),
{
    if rs.len() == 0 {
        Seq::empty()
    } else {
        let prev = msg_ranges(rs.drop_last());
        match msg_range_of(rs.last()) {
            Some(m) => prev.push(m),
            None => prev,
        }
    }
}

/// The styled and mentioning spans of a data message's body.
pub open spec fn body_ranges_of(dm: DataMessageView) -> Seq<MsgRangeView> {
    msg_ranges(dm.body_ranges)
}

fn msg_range(r: &BodyRange) -> (m: Option<MsgRange>)
    ensures
        m.deep_view() == msg_range_of(r.deep_view()),
{
    let (start, length) = match (r.start, r.length) {
        (Some(s), Some(l)) => (s, l),
        _ => return None,
    };
    match &r.value {
        Some(RangeValue::Style(s)) => match style_text(*s) {
            Some(name) => Some(MsgRange { start, length, style: Some(name), mention_uuid: None }),
            None => None,
        },
        Some(RangeValue::MentionAci(aci)) => Some(
            MsgRange { start, length, style: None, mention_uuid: Some(owned(aci.as_str())) },
        ),
        _ => None,
    }
}

/// The styled and mentioning spans of `dm`'s body.
pub fn extract_body_ranges(dm: &DataMessage) -> (r: Vec<MsgRange>)
    ensures
        r.deep_view() == body_ranges_of(dm.deep_view()),
{
    let ghost rs = dm.body_ranges.deep_view();
    let mut r: Vec<MsgRange> = Vec::new();
    let mut i: usize = 0;
    proof {
        assert(rs.take(0) =~= Seq::<BodyRangeView>::empty());
    }
    while i < dm.body_ranges.len()
        invariant
            i <= dm.body_ranges@.len(),
            rs == dm.body_ranges.deep_view(),
            r.deep_view() == msg_ranges(rs.take(i as int)),
        decreases dm.body_ranges@.len() - i,
    {
        proof {
            assert(rs.take(i + 1).drop_last() =~= rs.take(i as int));
            assert(rs.take(i + 1).last() == dm.body_ranges@[i as int].deep_view());
        }
        let ghost before = r.deep_view();
        match msg_range(&dm.body_ranges[i]) {
            Some(m) => {
                r.push(m);
                proof {
                    assert(r.deep_view() =~= before.push(m.deep_view()));
                }
            },
            None => {},
        }
        i = i + 1;
    }
    proof {
        assert(rs.take(i as int) =~= rs);
    }
    r
}

/// The poll a data message carries, as the UI shows it: its question
/// (empty when missing), its options, and whether several may be chosen
/// (not when unsaid).
pub open spec fn poll_of(dm: DataMessageView) -> Option<PollInfoView> {
    match dm.poll_create {
        None => None,
        Some(pc) => Some(
            PollInfoView {
                question: text_or(pc.question, seq![]),
                options: pc.options,
                allow_multiple: match pc.allow_multiple {
                    Some(b) => b,
                    None => false,
                },
            },
        ),
    }
}

fn copy_texts(v: &Vec<String>) -> (r: Vec<String>)
    ensures
        r.deep_view() == v.deep_view(),
{
    let mut r: Vec<String> = Vec::new();
    let mut i: usize = 0;
    while i < v.len()
        invariant
            i <= v@.len(),
            r.deep_view() == v.deep_view().take(i as int),
        decreases v@.len() - i,
    {
        let ghost prev = r.deep_view();
        let t = owned(v[i].as_str());
        r.push(t);
        proof {
            assert(r.deep_view() =~= prev.push(t@));
            assert(v.deep_view()[i as int] == v@[i as int]@);
            assert(r.deep_view() =~= v.deep_view().take(i + 1));
        }
        i = i + 1;
    }
    proof {
        assert(v.deep_view().take(i as int) =~= v.deep_view());
    }
    r
}

/// The poll of `dm`, if any.
pub fn extract_poll(dm: &DataMessage) -> (r: Option<PollInfo>)
    ensures
        r.deep_view() == poll_of(dm.deep_view()),
{
    match &dm.poll_create {
        None => None,
        Some(pc) => {
            let allow_multiple = match pc.allow_multiple {
                Some(b) => b,
                None => false,
            };
            Some(PollInfo { question: text_or_empty(&pc.question), options: copy_texts(&pc.options), allow_multiple })
        },
    }
}

/// The non-text event a data message carries: a group-call update.
pub open spec fn system_event_of(dm: DataMessageView) -> Option<Seq<char>> {
    if dm.group_call_update {
        Some("group-call"@)
    } else {
        None
    }
}

/// The non-text event of `dm`, if any.
pub fn system_event(dm: &DataMessage) -> (r: Option<String>)
    ensures
        r.deep_view() == system_event_of(dm.deep_view()),
{
    if dm.group_call_update {
        Some(owned("group-call"))
    } else {
        None
    }
}

/// Whether a data message shows up as a chat bubble: not a reaction or a
/// delete, and carrying text, an attachment, a poll or a group-call update.
pub open spec fn is_chat_payload(dm: DataMessageView) -> bool {
    &&& dm.reaction is None
    &&& dm.delete is None
    &&& (dm.body is Some || dm.attachments.len() > 0 || dm.poll_create is Some || dm.group_call_update)
}

/// The chat bubble for a data message with the given sender facts.
pub open spec fn chat_of(
    dm: DataMessageView,
    sender_id: Seq<char>,
    sender_name: Seq<char>,
    is_outgoing: bool,
) -> ChatMessageView {
    ChatMessageView {
        timestamp: match dm.timestamp {
            Some(t) => t,
            None => 0,
        },
        sender_id,
        sender_name,
        body: dm.body,
        attachments: attachments_of(dm),
        is_outgoing,
        quote: quote_of(dm),
        previews: previews_of(dm),
        body_ranges: body_ranges_of(dm),
        poll: poll_of(dm),
        system_event: system_event_of(dm),
    }
}

/// The chat message an envelope shows as, if any. Incoming data messages
/// are sent by their sender (outgoing when that is us); sync copies of what
/// we sent from another device are ours, named "You".
pub open spec fn chat_message_of(c: ContentView, self_aci: Option<Seq<char>>) -> Option<ChatMessageView> {
    match c.body {
        ContentBodyView::DataMessage(dm) => if is_chat_payload(dm) {
            Some(chat_of(dm, c.sender_uuid, c.sender_uuid, self_aci == Some(c.sender_uuid)))
        } else {
            None
        },
        ContentBodyView::SynchronizeMessage(Some(sent)) => match sent.message {
            Some(dm) => if is_chat_payload(dm) {
                Some(chat_of(dm, text_or(self_aci, seq![]), "You"@, true))
            } else {
                None
            },
            None => None,
        },
        _ => None,
    }
}

fn is_self(sender: &str, self_aci: &Option<String>) -> (r: bool)
    ensures
        r == (self_aci.deep_view() == Some(sender@)),
{
    match self_aci {
        Some(s) => same_text(s.as_str(), sender),
        None => false,
    }
}

fn chat_from(dm: &DataMessage, sender_id: String, sender_name: String, is_outgoing: bool) -> (r: ChatMessage)
    ensures
        r.deep_view() == chat_of(dm.deep_view(), sender_id@, sender_name@, is_outgoing),
{
    let timestamp: u64 = match dm.timestamp {
        Some(t) => t,
        None => 0,
    };
    let body = match &dm.body {
        Some(b) => Some(b.clone()),
        None => None,
    };
    ChatMessage {
        timestamp,
        sender_id,
        sender_name,
        body,
        attachments: extract_attachments(dm),
        is_outgoing,
        quote: extract_quote(dm),
        previews: extract_previews(dm),
        body_ranges: extract_body_ranges(dm),
        poll: extract_poll(dm),
        system_event: system_event(dm),
    }
}

fn chat_payload(dm: &DataMessage) -> (r: bool)
    ensures
        r == is_chat_payload(dm.deep_view()),
{
    dm.reaction.is_none() && dm.delete.is_none() && (dm.body.is_some() || dm.attachments.len() > 0
        || dm.poll_create.is_some() || dm.group_call_update)
}

/// The chat message an envelope shows as, if any.
pub fn content_to_chat_message(content: &Content, self_aci: &Option<String>) -> (r: Option<ChatMessage>)
    ensures
        r.deep_view() == chat_message_of(content.deep_view(), self_aci.deep_view()),
{
    match &content.body {
        ContentBody::DataMessage(dm) => {
            if !chat_payload(dm) {
                return None;
            }
            let outgoing = is_self(content.sender_uuid.as_str(), self_aci);
            let id = content.sender_uuid.clone();
            let name = content.sender_uuid.clone();
            Some(chat_from(dm, id, name, outgoing))
        },
        ContentBody::SynchronizeMessage(Some(sent)) => match &sent.message {
            Some(dm) => {
                if !chat_payload(dm) {
                    return None;
                }
                let id = text_or_empty(self_aci);
                Some(chat_from(dm, id, owned("You"), true))
            },
            None => None,
        },
        _ => None,
    }
}


/// Events carried by a data message besides its chat bubble: a reaction
/// (when it names both an emoji and a target), a delete (when it names a
/// target) and a poll vote (when it names the poll), in that order.
pub open spec fn modifiers_of(chat_id: Seq<char>, sender_id: Seq<char>, dm: DataMessageView) -> Seq<InboundEventView> {
    let reaction = match dm.reaction {
        Some(r) => match (r.emoji, r.target_sent_timestamp) {
            (Some(emoji), Some(ts)) => seq![
                InboundEventView::Reaction(
                    ReactionEventView {
                        chat_id,
                        target_message_id: decimal(ts as nat),
                        emoji,
                        sender_id,
                        remove: match r.remove {
                            Some(b) => b,
                            None => false,
                        },
                    },
                ),
            ],
            _ => Seq::<InboundEventView>::empty(),
        },
        None => Seq::<InboundEventView>::empty(),
    };
    let delete = match dm.delete {
        Some(Delete { target_sent_timestamp: Some(ts) }) => seq![
            InboundEventView::Deleted(DeleteEventView { chat_id, message_id: decimal(ts as nat) }),
        ],
        _ => Seq::<InboundEventView>::empty(),
    };
    let vote = match dm.poll_vote {
        Some(pv) => match pv.target_sent_timestamp {
            Some(ts) => seq![
                InboundEventView::PollVote(
                    PollVoteEventView {
                        chat_id,
                        poll_id: decimal(ts as nat),
                        voter_id: sender_id,
                        option_indexes: pv.option_indexes,
                    },
                ),
            ],
            None => Seq::<InboundEventView>::empty(),
        },
        None => Seq::<InboundEventView>::empty(),
    };
    reaction + delete + vote
}

/// Appends the reaction / delete / poll-vote events of `dm` to `out`.
pub fn push_data_message_modifiers(out: &mut Vec<InboundEvent>, chat_id: &str, sender_id: &str, dm: &DataMessage)
    ensures
        final(out).deep_view() == old(out).deep_view() + modifiers_of(chat_id@, sender_id@, dm.deep_view()),
{
    let ghost start = out.deep_view();
    if let Some(r) = &dm.reaction {
        if let (Some(emoji), Some(ts)) = (&r.emoji, r.target_sent_timestamp) {
            let remove = match r.remove {
                Some(b) => b,
                None => false,
            };
            out.push(
                InboundEvent::Reaction(
                    ReactionEvent {
                        chat_id: owned(chat_id),
                        target_message_id: decimal_string(ts),
                        emoji: emoji.clone(),
                        sender_id: owned(sender_id),
                        remove,
                    },
                ),
            );
        }
    }
    let ghost mid = out.deep_view();
    if let Some(Delete { target_sent_timestamp: Some(ts) }) = &dm.delete {
        out.push(
            InboundEvent::Deleted(DeleteEvent { chat_id: owned(chat_id), message_id: decimal_string(*ts) }),
        );
    }
    if let Some(pv) = &dm.poll_vote {
        if let Some(ts) = pv.target_sent_timestamp {
            out.push(
                InboundEvent::PollVote(
                    PollVoteEvent {
                        chat_id: owned(chat_id),
                        poll_id: decimal_string(ts),
                        voter_id: owned(sender_id),
                        option_indexes: vstd::slice::slice_to_vec(pv.option_indexes.as_slice()),
                    },
                ),
            );
        }
    }
    proof {
        let v = modifiers_of(chat_id@, sender_id@, dm.deep_view());
        assert(out.deep_view() =~= start + v);
    }
}

/// The edit event for an edit of the message sent at `target_ts`, if the new
/// data message carries text.
pub open spec fn edit_event_of(chat_id: Seq<char>, target_ts: u64, dm: DataMessageView) -> Option<EditEventView> {
    match dm.body {
        Some(t) => Some(
            EditEventView {
                chat_id,
                message_id: decimal(target_ts as nat),
                new_text: t,
                edited_at: match dm.timestamp {
                    Some(x) => x,
                    None => 0,
                },
            },
        ),
        None => None,
    }
}

/// The edit event for `dm` replacing the message sent at `target_ts`.
pub fn build_edit_event(chat_id: &str, target_ts: u64, dm: &DataMessage) -> (r: Option<EditEvent>)
    ensures
        r.deep_view() == edit_event_of(chat_id@, target_ts, dm.deep_view()),
{
    match &dm.body {
        Some(t) => {
            let edited_at: u64 = match dm.timestamp {
                Some(x) => x,
                None => 0,
            };
            Some(
                EditEvent {
                    chat_id: owned(chat_id),
                    message_id: decimal_string(target_ts),
                    new_text: t.clone(),
                    edited_at,
                },
            )
        },
        None => None,
    }
}

/// The chat a typing indicator belongs to: its group id in hex when it names
/// a non-empty one, else the sender (a 1:1 chat).
pub open spec fn typing_chat_id_of(group_id: Option<Seq<u8>>, sender: Seq<char>) -> Seq<char> {
    match group_id {
        Some(g) => if g.len() > 0 {
            hex_text(g)
        } else {
            sender
        },
        None => sender,
    }
}

fn typing_chat_id(group_id: &Option<Vec<u8>>, sender_uuid: &str) -> (r: String)
    ensures
        r@ == typing_chat_id_of(group_id.deep_view(), sender_uuid@),
{
    match group_id {
        Some(g) => {
            proof {
                assert(g.deep_view() =~= g@);
            }
            if g.len() > 0 {
                hex_encode(g.as_slice())
            } else {
                owned(sender_uuid)
            }
        },
        None => owned(sender_uuid),
    }
}

/// The decimal forms of a list of timestamps.
pub open spec fn decimal_ids(ts: Seq<u64>) -> Seq<Seq<char>> {
    Seq::new(ts.len(), |i: int| decimal(ts[i] as nat))
}

fn decimal_list(ts: &Vec<u64>) -> (r: Vec<String>)
    ensures
        r.deep_view() == decimal_ids(ts@),
{
    let mut out: Vec<String> = Vec::new();
    let mut i: usize = 0;
    while i < ts.len()
        invariant
            i <= ts@.len(),
            out@.len() == i,
            forall|j: int| 0 <= j < i ==> #[trigger] out@[j]@ == decimal(ts@[j] as nat),
        decreases ts@.len() - i,
    {
        out.push(decimal_string(ts[i]));
        i = i + 1;
    }
    proof {
        assert(out.deep_view() =~= decimal_ids(ts@));
    }
    out
}

/// The chat-message event for an envelope, if it shows as one.
pub open spec fn message_events_of(chat_id: Seq<char>, c: ContentView, self_aci: Option<Seq<char>>) -> Seq<InboundEventView> {
    match chat_message_of(c, self_aci) {
        Some(m) => seq![InboundEventView::Message { conversation_id: chat_id, message: m }],
        None => Seq::<InboundEventView>::empty(),
    }
}

/// The edited event of an edit, as a list of zero or one events.
pub open spec fn edit_events_of(chat_id: Seq<char>, e: EditMessageView) -> Seq<InboundEventView> {
    match (e.target_sent_timestamp, e.data_message) {
        (Some(ts), Some(dm)) => match edit_event_of(chat_id, ts, dm) {
            Some(ev) => seq![InboundEventView::Edited(ev)],
            None => Seq::<InboundEventView>::empty(),
        },
        _ => Seq::<InboundEventView>::empty(),
    }
}

/// Every UI event one envelope yields, in order.
///
/// * A data message yields its reaction / delete events, then its chat
///   bubble; a sync copy of a message we sent does the same with us as the
///   actor (our ACI, or the envelope's sender if ours is unknown).
/// * A sync copy of an edit we made, and an incoming edit, yield an edited
///   event when the edit carries text.
/// * A receipt yields one receipt event when it acknowledges at least one
///   message.
/// * A typing message yields one typing event.
/// * Anything else yields nothing.
pub open spec fn inbound_events_of(
    c: ContentView,
    thread: Option<ThreadView>,
    self_aci: Option<Seq<char>>,
) -> Seq<InboundEventView> {
    let sender = c.sender_uuid;
    let chat_id = conversation_id_of(thread, sender);
    match c.body {
        ContentBodyView::DataMessage(dm) => modifiers_of(chat_id, sender, dm) + message_events_of(
            chat_id,
            c,
            self_aci,
        ),
        ContentBodyView::SynchronizeMessage(Some(sent)) => match sent.message {
            Some(dm) => modifiers_of(chat_id, text_or(self_aci, sender), dm) + message_events_of(
                chat_id,
                c,
                self_aci,
            ),
            None => match sent.edit_message {
                Some(e) => edit_events_of(chat_id, e),
                None => Seq::<InboundEventView>::empty(),
            },
        },
        ContentBodyView::EditMessage(e) => edit_events_of(chat_id, e),
        ContentBodyView::ReceiptMessage { kind, timestamps } => if timestamps.len() > 0 {
            seq![
                InboundEventView::Receipt(
                    ReceiptEventView {
                        chat_id,
                        message_ids: decimal_ids(timestamps),
                        kind: receipt_kind_of(
                            match kind {
                                Some(k) => k,
                                None => 0,
                            },
                        ),
                        timestamp: c.timestamp,
                    },
                ),
            ]
        } else {
            Seq::<InboundEventView>::empty()
        },
        ContentBodyView::TypingMessage { timestamp, action, group_id } => seq![
            InboundEventView::Typing(
                TypingEventView {
                    chat_id: typing_chat_id_of(group_id, sender),
                    sender_id: sender,
                    action: typing_action_of(
                        match action {
                            Some(a) => a,
                            None => 0,
                        },
                    ),
                },
            ),
        ],
        _ => Seq::<InboundEventView>::empty(),
    }
}

fn push_message_event(out: &mut Vec<InboundEvent>, chat_id: &str, content: &Content, self_aci: &Option<String>)
    ensures
        final(out).deep_view() == old(out).deep_view() + message_events_of(chat_id@, content.deep_view(), self_aci.deep_view()),
{
    let ghost start = out.deep_view();
    if let Some(msg) = content_to_chat_message(content, self_aci) {
        out.push(InboundEvent::Message { conversation_id: owned(chat_id), message: msg });
    }
    proof {
        assert(out.deep_view() =~= start + message_events_of(chat_id@, content.deep_view(), self_aci.deep_view()));
    }
}

fn push_edit_event(out: &mut Vec<InboundEvent>, chat_id: &str, e: &EditMessage)
    ensures
        final(out).deep_view() == old(out).deep_view() + edit_events_of(chat_id@, e.deep_view()),
{
    let ghost start = out.deep_view();
    if let (Some(ts), Some(dm)) = (e.target_sent_timestamp, &e.data_message) {
        if let Some(ev) = build_edit_event(chat_id, ts, dm) {
            out.push(InboundEvent::Edited(ev));
        }
    }
    proof {
        assert(out.deep_view() =~= start + edit_events_of(chat_id@, e.deep_view()));
    }
}

/// Every UI event one decrypted envelope yields. `thread` is the thread the
/// store resolved for the envelope (`None` if it could not), `self_aci` our
/// own account id once known.
pub fn derive_inbound_events(content: &Content, thread: &Option<Thread>, self_aci: &Option<String>) -> (r: Vec<InboundEvent>)
    ensures
        r.deep_view() == inbound_events_of(content.deep_view(), thread.deep_view(), self_aci.deep_view()),
{
    let sender = content.sender_uuid.as_str();
    let chat_id = resolve_conversation_id(thread, sender);
    let mut out: Vec<InboundEvent> = Vec::new();
    proof {
        assert(out.deep_view() =~= Seq::<InboundEventView>::empty());
    }
    match &content.body {
        ContentBody::DataMessage(dm) => {
            push_data_message_modifiers(&mut out, chat_id.as_str(), sender, dm);
            push_message_event(&mut out, chat_id.as_str(), content, self_aci);
        },
        ContentBody::SynchronizeMessage(Some(sent)) => {
            match &sent.message {
                Some(dm) => {
                    let actor = match self_aci {
                        Some(a) => a.clone(),
                        None => owned(sender),
                    };
                    push_data_message_modifiers(&mut out, chat_id.as_str(), actor.as_str(), dm);
                    push_message_event(&mut out, chat_id.as_str(), content, self_aci);
                },
                None => {
                    if let Some(e) = &sent.edit_message {
                        push_edit_event(&mut out, chat_id.as_str(), e);
                    }
                },
            }
        },
        ContentBody::EditMessage(e) => {
            push_edit_event(&mut out, chat_id.as_str(), e);
        },
        ContentBody::ReceiptMessage(rm) => {
            if rm.timestamps.len() > 0 {
                let kind = ReceiptKind::from_proto(
                    match rm.kind {
                        Some(k) => k,
                        None => 0,
                    },
                );
                out.push(
                    InboundEvent::Receipt(
                        ReceiptEvent {
                            chat_id: chat_id,
                            message_ids: decimal_list(&rm.timestamps),
                            kind,
                            timestamp: content.timestamp,
                        },
                    ),
                );
            }
        },
        ContentBody::TypingMessage(tm) => {
            let action = TypingAction::from_proto(
                match tm.action {
                    Some(a) => a,
                    None => 0,
                },
            );
            out.push(
                InboundEvent::Typing(
                    TypingEvent {
                        chat_id: typing_chat_id(&tm.group_id, sender),
                        sender_id: owned(sender),
                        action,
                    },
                ),
            );
        },
        _ => {},
    }
    proof {
        assert(out.deep_view() =~= inbound_events_of(content.deep_view(), thread.deep_view(), self_aci.deep_view()));
    }
    out
}

/// A group's conversation id (its master key in lowercase hex, which the UUID
/// parser refuses: it is 64 characters long) names that group again.
pub proof fn lemma_group_id_round_trip(key: Seq<u8>)
    requires
        key.len() == 32,
    ensures
        thread_of(hex_text(key), None) == Ok::<ThreadView, Seq<char>>(ThreadView::Group(key)),
{
    crate::codec::lemma_hex_round_trip(key);
}

/// A message we sent from another of our devices (a sync copy of a data
/// message that is neither a reaction nor a delete, and carries text, an
/// attachment, a poll or a group-call update) shows as our own outgoing
/// message: sender "You", sender id our ACI (empty when unknown), with its
/// body and send time.
pub proof fn lemma_synced_message_is_ours(c: ContentView, self_aci: Option<Seq<char>>, dm: DataMessageView)
    requires
        c.body matches ContentBodyView::SynchronizeMessage(Some(sent)) && sent.message == Some(dm),
        dm.reaction is None,
        dm.delete is None,
        dm.body is Some || dm.attachments.len() > 0 || dm.poll_create is Some || dm.group_call_update,
    ensures
        chat_message_of(c, self_aci) matches Some(m) && m.is_outgoing && m.sender_name == "You"@
            && m.sender_id == (match self_aci {
            Some(a) => a,
            None => Seq::<char>::empty(),
        }) && m.body == dm.body && m.timestamp == (match dm.timestamp {
            Some(t) => t,
            None => 0,
        }),
{
}

/// A data message received from someone shows under that sender's id, and
/// as outgoing exactly when the sender is our own account.
pub proof fn lemma_received_message_sender(c: ContentView, self_aci: Option<Seq<char>>, dm: DataMessageView)
    requires
        c.body == ContentBodyView::DataMessage(dm),
        dm.reaction is None,
        dm.delete is None,
        dm.body is Some || dm.attachments.len() > 0 || dm.poll_create is Some || dm.group_call_update,
    ensures
        chat_message_of(c, self_aci) matches Some(m) && m.sender_id == c.sender_uuid && m.is_outgoing == (
        self_aci == Some(c.sender_uuid)) && m.body == dm.body,
{
}

} // verus!
