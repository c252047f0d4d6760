//! The parts of a decrypted Signal `Content` envelope that the message logic
//! reads, held as plain values. The receive loop fills these from the
//! protocol structures before handing them to [`crate::messaging::parse`].
use vstd::prelude::*;

verus! {

/// Which kind of service identifier names an account.
#[derive(Debug, Clone, Copy, PartialEq, Eq, Structural)]
pub enum ServiceKind {
    Aci,
    Pni,
}

/// A service identifier: its kind and its raw UUID (as `Uuid::as_u128`).
#[derive(Debug, Clone, Copy, PartialEq, Eq, Structural)]
pub struct ServiceId {
    pub kind: ServiceKind,
    pub uuid: u128,
}

/// Mathematical form of a [`Thread`].
pub enum ThreadView {
    Contact(ServiceId),
    Group(Seq<u8>),
}

/// A conversation: a 1:1 contact, or a group named by its 32-byte master key.
#[derive(Debug, Clone)]
pub enum Thread {
    Contact(ServiceId),
    Group(Vec<u8>),
}

impl DeepView for Thread {
    type V = ThreadView;

    open spec fn deep_view(&self) -> ThreadView {
        match self {
            Thread::Contact(s) => ThreadView::Contact(*s),
            Thread::Group(k) => ThreadView::Group(k@),
        }
    }
}

/// Where a server-stored attachment can be fetched from.
#[derive(Debug, Clone)]
pub enum AttachmentIdentifier {
    CdnId(u64),
    CdnKey(String),
}

/// Mathematical form of an [`AttachmentIdentifier`].
pub enum AttachmentIdentifierView {
    CdnId(u64),
    CdnKey(Seq<char>),
}

impl DeepView for AttachmentIdentifier {
    type V = AttachmentIdentifierView;

    open spec fn deep_view(&self) -> AttachmentIdentifierView {
        match self {
            AttachmentIdentifier::CdnId(n) => AttachmentIdentifierView::CdnId(*n),
            AttachmentIdentifier::CdnKey(k) => AttachmentIdentifierView::CdnKey(k@),
        }
    }
}

/// An `AttachmentPointer`; `encoded` is the pointer's own protobuf encoding.
#[derive(Debug, Clone)]
pub struct AttachmentPointer {
    pub identifier: Option<AttachmentIdentifier>,
    pub file_name: Option<String>,
    pub content_type: Option<String>,
    pub size: Option<u32>,
    pub encoded: Vec<u8>,
}

/// Mathematical form of an [`AttachmentPointer`].
pub struct AttachmentPointerView {
    pub identifier: Option<AttachmentIdentifierView>,
    pub file_name: Option<Seq<char>>,
    pub content_type: Option<Seq<char>>,
    pub size: Option<u32>,
    pub encoded: Seq<u8>,
}

impl DeepView for AttachmentPointer {
    type V = AttachmentPointerView;

    open spec fn deep_view(&self) -> AttachmentPointerView {
        AttachmentPointerView {
            identifier: self.identifier.deep_view(),
            file_name: self.file_name.deep_view(),
            content_type: self.content_type.deep_view(),
            size: self.size,
            encoded: self.encoded@,
        }
    }
}

/// `DataMessage.quote`.
#[derive(Debug, Clone)]
pub struct Quote {
    pub id: Option<u64>,
    pub author_aci: Option<String>,
    pub text: Option<String>,
}

/// Mathematical form of a [`Quote`].
pub struct QuoteView {
    pub id: Option<u64>,
    pub author_aci: Option<Seq<char>>,
    pub text: Option<Seq<char>>,
}

impl DeepView for Quote {
    type V = QuoteView;

    open spec fn deep_view(&self) -> QuoteView {
        QuoteView { id: self.id, author_aci: self.author_aci.deep_view(), text: self.text.deep_view() }
    }
}

/// `DataMessage.reaction`.
#[derive(Debug, Clone)]
pub struct Reaction {
    pub emoji: Option<String>,
    pub remove: Option<bool>,
    pub target_author_aci: Option<String>,
    pub target_sent_timestamp: Option<u64>,
}

/// Mathematical form of a [`Reaction`].
pub struct ReactionView {
    pub emoji: Option<Seq<char>>,
    pub remove: Option<bool>,
    pub target_author_aci: Option<Seq<char>>,
    pub target_sent_timestamp: Option<u64>,
}

impl DeepView for Reaction {
    type V = ReactionView;

    open spec fn deep_view(&self) -> ReactionView {
        ReactionView {
            emoji: self.emoji.deep_view(),
            remove: self.remove,
            target_author_aci: self.target_author_aci.deep_view(),
            target_sent_timestamp: self.target_sent_timestamp,
        }
    }
}

/// `DataMessage.delete`.
#[derive(Debug, Clone, Copy, PartialEq, Eq, Structural)]
pub struct Delete {
    pub target_sent_timestamp: Option<u64>,
}

/// `DataMessage.pollCreate`.
#[derive(Debug, Clone)]
pub struct PollCreate {
    pub question: Option<String>,
    pub options: Vec<String>,
    pub allow_multiple: Option<bool>,
}

/// Mathematical form of a [`PollCreate`].
pub struct PollCreateView {
    pub question: Option<Seq<char>>,
    pub options: Seq<Seq<char>>,
    pub allow_multiple: Option<bool>,
}

impl DeepView for PollCreate {
    type V = PollCreateView;

    open spec fn deep_view(&self) -> PollCreateView {
        PollCreateView {
            question: self.question.deep_view(),
            options: self.options.deep_view(),
            allow_multiple: self.allow_multiple,
        }
    }
}

/// `DataMessage.pollVote`: a vote on the poll sent at
/// `target_sent_timestamp` by the account whose ACI is given in binary.
#[derive(Debug, Clone)]
pub struct PollVote {
    pub target_author_aci_binary: Option<Vec<u8>>,
    pub target_sent_timestamp: Option<u64>,
    pub option_indexes: Vec<u32>,
    pub vote_count: Option<u32>,
}

/// Mathematical form of a [`PollVote`].
pub struct PollVoteView {
    pub target_author_aci_binary: Option<Seq<u8>>,
    pub target_sent_timestamp: Option<u64>,
    pub option_indexes: Seq<u32>,
    pub vote_count: Option<u32>,
}

impl DeepView for PollVote {
    type V = PollVoteView;

    open spec fn deep_view(&self) -> PollVoteView {
        PollVoteView {
            target_author_aci_binary: self.target_author_aci_binary.deep_view(),
            target_sent_timestamp: self.target_sent_timestamp,
            option_indexes: self.option_indexes@,
            vote_count: self.vote_count,
        }
    }
}

/// `DataMessage.preview`: a link preview.
#[derive(Debug, Clone)]
pub struct Preview {
    pub url: Option<String>,
    pub title: Option<String>,
    pub description: Option<String>,
}

/// Mathematical form of a [`Preview`].
pub struct PreviewView {
    pub url: Option<Seq<char>>,
    pub title: Option<Seq<char>>,
    pub description: Option<Seq<char>>,
}

impl DeepView for Preview {
    type V = PreviewView;

    open spec fn deep_view(&self) -> PreviewView {
        PreviewView {
            url: self.url.deep_view(),
            title: self.title.deep_view(),
            description: self.description.deep_view(),
        }
    }
}

/// `BodyRange.associatedValue`: a text style (its wire number), a mention
/// of an account (its ACI text), or another kind of value.
#[derive(Debug, Clone)]
pub enum RangeValue {
    Style(i32),
    MentionAci(String),
    Other,
}

/// Mathematical form of a [`RangeValue`].
pub enum RangeValueView {
    Style(i32),
    MentionAci(Seq<char>),
    Other,
}

impl DeepView for RangeValue {
    type V = RangeValueView;

    open spec fn deep_view(&self) -> RangeValueView {
        match self {
            RangeValue::Style(s) => RangeValueView::Style(*s),
            RangeValue::MentionAci(a) => RangeValueView::MentionAci(a@),
            RangeValue::Other => RangeValueView::Other,
        }
    }
}

/// `DataMessage.bodyRanges`: a span of the body (in UTF-16 units) with a
/// style or a mention.
#[derive(Debug, Clone)]
pub struct BodyRange {
    pub start: Option<u32>,
    pub length: Option<u32>,
    pub value: Option<RangeValue>,
}

/// Mathematical form of a [`BodyRange`].
pub struct BodyRangeView {
    pub start: Option<u32>,
    pub length: Option<u32>,
    pub value: Option<RangeValueView>,
}

impl DeepView for BodyRange {
    type V = BodyRangeView;

    open spec fn deep_view(&self) -> BodyRangeView {
        BodyRangeView { start: self.start, length: self.length, value: self.value.deep_view() }
    }
}

/// `DataMessage.pinMessage` / `unpinMessage`: the message sent at
/// `target_sent_timestamp` by the account whose ACI is given in binary.
#[derive(Debug, Clone)]
pub struct PinMessage {
    pub target_author_aci_binary: Option<Vec<u8>>,
    pub target_sent_timestamp: Option<u64>,
}

/// Mathematical form of a [`PinMessage`].
pub struct PinMessageView {
    pub target_author_aci_binary: Option<Seq<u8>>,
    pub target_sent_timestamp: Option<u64>,
}

impl DeepView for PinMessage {
    type V = PinMessageView;

    open spec fn deep_view(&self) -> PinMessageView {
        PinMessageView {
            target_author_aci_binary: self.target_author_aci_binary.deep_view(),
            target_sent_timestamp: self.target_sent_timestamp,
        }
    }
}

/// The fields of a `DataMessage` that the UI reads. `group_call_update`
/// says whether the message carries a group-call update.
#[derive(Debug, Clone)]
pub struct DataMessage {
    pub body: Option<String>,
    pub timestamp: Option<u64>,
    pub attachments: Vec<AttachmentPointer>,
    pub quote: Option<Quote>,
    pub reaction: Option<Reaction>,
    pub delete: Option<Delete>,
    pub poll_create: Option<PollCreate>,
    pub poll_vote: Option<PollVote>,
    pub group_call_update: bool,
    pub pin_message: Option<PinMessage>,
    pub unpin_message: Option<PinMessage>,
    pub preview: Vec<Preview>,
    pub body_ranges: Vec<BodyRange>,
}

/// Mathematical form of a [`DataMessage`].
pub struct DataMessageView {
    pub body: Option<Seq<char>>,
    pub timestamp: Option<u64>,
    pub attachments: Seq<AttachmentPointerView>,
    pub quote: Option<QuoteView>,
    pub reaction: Option<ReactionView>,
    pub delete: Option<Delete>,
    pub poll_create: Option<PollCreateView>,
    pub poll_vote: Option<PollVoteView>,
    pub group_call_update: bool,
    pub pin_message: Option<PinMessageView>,
    pub unpin_message: Option<PinMessageView>,
    pub preview: Seq<PreviewView>,
    pub body_ranges: Seq<BodyRangeView>,
}

impl DeepView for DataMessage {
    type V = DataMessageView;

    open spec fn deep_view(&self) -> DataMessageView {
        DataMessageView {
            body: self.body.deep_view(),
            timestamp: self.timestamp,
            attachments: self.attachments.deep_view(),
            quote: self.quote.deep_view(),
            reaction: self.reaction.deep_view(),
            delete: self.delete,
            poll_create: self.poll_create.deep_view(),
            poll_vote: self.poll_vote.deep_view(),
            group_call_update: self.group_call_update,
            pin_message: self.pin_message.deep_view(),
            unpin_message: self.unpin_message.deep_view(),
            preview: self.preview.deep_view(),
            body_ranges: self.body_ranges.deep_view(),
        }
    }
}

impl DataMessage {
    /// A message that only carries `body` (all other fields unset).
    pub fn text(body: String, timestamp: u64) -> (m: DataMessage)
        ensures
            m.deep_view().body == Some(body@),
            m.deep_view().timestamp == Some(timestamp),
            m.deep_view().attachments.len() == 0,
            m.deep_view().quote is None,
            m.deep_view().reaction is None,
            m.deep_view().delete is None,
            m.deep_view().poll_create is None,
            m.deep_view().poll_vote is None,
            !m.deep_view().group_call_update,
            m.deep_view().pin_message is None,
            m.deep_view().unpin_message is None,
            m.deep_view().preview.len() == 0,
            m.deep_view().body_ranges.len() == 0,
    {
        DataMessage {
            body: Some(body),
            timestamp: Some(timestamp),
            attachments: Vec::new(),
            quote: None,
            reaction: None,
            delete: None,
            poll_create: None,
            poll_vote: None,
            group_call_update: false,
            pin_message: None,
            unpin_message: None,
            preview: Vec::new(),
            body_ranges: Vec::new(),
        }
    }
}

/// `EditMessage`: the new data message for an earlier one.
#[derive(Debug, Clone)]
pub struct EditMessage {
    pub target_sent_timestamp: Option<u64>,
    pub data_message: Option<DataMessage>,
}

/// Mathematical form of an [`EditMessage`].
pub struct EditMessageView {
    pub target_sent_timestamp: Option<u64>,
    pub data_message: Option<DataMessageView>,
}

impl DeepView for EditMessage {
    type V = EditMessageView;

    open spec fn deep_view(&self) -> EditMessageView {
        EditMessageView {
            target_sent_timestamp: self.target_sent_timestamp,
            data_message: self.data_message.deep_view(),
        }
    }
}

/// `SyncMessage.sent`: something we sent from another linked device.
#[derive(Debug, Clone)]
pub struct SyncSent {
    pub message: Option<DataMessage>,
    pub edit_message: Option<EditMessage>,
}

/// Mathematical form of a [`SyncSent`].
pub struct SyncSentView {
    pub message: Option<DataMessageView>,
    pub edit_message: Option<EditMessageView>,
}

impl DeepView for SyncSent {
    type V = SyncSentView;

    open spec fn deep_view(&self) -> SyncSentView {
        SyncSentView {
            message: self.message.deep_view(),
            edit_message: self.edit_message.deep_view(),
        }
    }
}

/// `ReceiptMessage`: a receipt kind and the timestamps it acknowledges.
#[derive(Debug, Clone)]
pub struct ReceiptMessage {
    pub kind: Option<i32>,
    pub timestamps: Vec<u64>,
}

/// `TypingMessage`.
#[derive(Debug, Clone)]
pub struct TypingMessage {
    pub timestamp: Option<u64>,
    pub action: Option<i32>,
    pub group_id: Option<Vec<u8>>,
}

/// The body of a decrypted envelope.
#[derive(Debug, Clone)]
pub enum ContentBody {
    DataMessage(DataMessage),
    SynchronizeMessage(Option<SyncSent>),
    EditMessage(EditMessage),
    ReceiptMessage(ReceiptMessage),
    TypingMessage(TypingMessage),
    /// Voice-call signalling; routed to the calling subsystem.
    CallMessage,
    NullMessage,
    /// Any other body kind.
    Other,
}

/// Mathematical form of a [`ContentBody`].
pub enum ContentBodyView {
    DataMessage(DataMessageView),
    SynchronizeMessage(Option<SyncSentView>),
    EditMessage(EditMessageView),
    ReceiptMessage { kind: Option<i32>, timestamps: Seq<u64> },
    TypingMessage { timestamp: Option<u64>, action: Option<i32>, group_id: Option<Seq<u8>> },
    CallMessage,
    NullMessage,
    Other,
}

impl DeepView for ContentBody {
    type V = ContentBodyView;

    open spec fn deep_view(&self) -> ContentBodyView {
        match self {
            ContentBody::DataMessage(d) => ContentBodyView::DataMessage(d.deep_view()),
            ContentBody::SynchronizeMessage(s) => ContentBodyView::SynchronizeMessage(s.deep_view()),
            ContentBody::EditMessage(e) => ContentBodyView::EditMessage(e.deep_view()),
            ContentBody::ReceiptMessage(r) => ContentBodyView::ReceiptMessage {
                kind: r.kind,
                timestamps: r.timestamps@,
            },
            ContentBody::TypingMessage(t) => ContentBodyView::TypingMessage {
                timestamp: t.timestamp,
                action: t.action,
                group_id: t.group_id.deep_view(),
            },
            ContentBody::CallMessage => ContentBodyView::CallMessage,
            ContentBody::NullMessage => ContentBodyView::NullMessage,
            ContentBody::Other => ContentBodyView::Other,
        }
    }
}

/// A decrypted envelope: the sender's raw UUID in hyphenated form, the
/// envelope timestamp, and the body.
#[derive(Debug, Clone)]
pub struct Content {
    pub sender_uuid: String,
    pub timestamp: u64,
    pub body: ContentBody,
}

/// Mathematical form of a [`Content`].
pub struct ContentView {
    pub sender_uuid: Seq<char>,
    pub timestamp: u64,
    pub body: ContentBodyView,
}

impl DeepView for Content {
    type V = ContentView;

    open spec fn deep_view(&self) -> ContentView {
        ContentView { sender_uuid: self.sender_uuid@, timestamp: self.timestamp, body: self.body.deep_view() }
    }
}

} // verus!
