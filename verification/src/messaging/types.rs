use vstd::prelude::*;

verus! {

/// Read receipt kind, mirrors the on-wire `ReceiptMessage.Type` enum.
#[derive(Debug, Clone, Copy, PartialEq, Eq, Structural)]
pub enum ReceiptKind {
    Delivered,
    Read,
    Viewed,
}

/// The number that encodes a receipt kind on the wire
/// (DELIVERY = 0, READ = 1, VIEWED = 2).
pub open spec fn receipt_kind_wire(k: ReceiptKind) -> i32 {
    match k {
        ReceiptKind::Delivered => 0,
        ReceiptKind::Read => 1,
        ReceiptKind::Viewed => 2,
    }
}

/// The receipt kind a wire number stands for; unknown numbers read as
/// `Delivered`.
pub open spec fn receipt_kind_of(value: i32) -> ReceiptKind {
    if value == 1 {
        ReceiptKind::Read
    } else if value == 2 {
        ReceiptKind::Viewed
    } else {
        ReceiptKind::Delivered
    }
}

/// The typing action a wire number stands for; unknown numbers read as
/// `Started`.
pub open spec fn typing_action_of(value: i32) -> TypingAction {
    if value == 1 {
        TypingAction::Stopped
    } else {
        TypingAction::Started
    }
}

impl ReceiptKind {
    /// Map the proto enum (DELIVERY=0, READ=1, VIEWED=2) to our public form.
    /// Anything we don't recognise is treated as `Delivered`.
    pub fn from_proto(value: i32) -> (k: ReceiptKind)
        ensures
            k == receipt_kind_of(value),
    {
        match value {
            1 => ReceiptKind::Read,
            2 => ReceiptKind::Viewed,
            _ => ReceiptKind::Delivered,
        }
    }

    /// The wire number of this kind, as put in an outgoing `ReceiptMessage`.
    pub fn to_proto(&self) -> (v: i32)
        ensures
            v == receipt_kind_wire(*self),
    {
        match self {
            ReceiptKind::Delivered => 0,
            ReceiptKind::Read => 1,
            ReceiptKind::Viewed => 2,
        }
    }
}

/// Typing indicator action.
#[derive(Debug, Clone, Copy, PartialEq, Eq, Structural)]
pub enum TypingAction {
    Started,
    Stopped,
}

impl TypingAction {
    /// Map the proto action (STARTED=0, STOPPED=1); unknown values read as
    /// `Started` so the UI shows the indicator.
    pub fn from_proto(value: i32) -> (a: TypingAction)
        ensures
            a == typing_action_of(value),
    {
        match value {
            1 => TypingAction::Stopped,
            _ => TypingAction::Started,
        }
    }

    /// The wire number of this action (STARTED=0, STOPPED=1).
    pub fn to_proto(&self) -> (v: i32)
        ensures
            *self == TypingAction::Started ==> v == 0,
            *self == TypingAction::Stopped ==> v == 1,
    {
        match self {
            TypingAction::Started => 0,
            TypingAction::Stopped => 1,
        }
    }
}

/// Reading back the wire number of a receipt kind gives the same kind: what
/// we send is what a peer (or we) decode.
pub proof fn lemma_receipt_kind_round_trip(k: ReceiptKind)
    ensures
        receipt_kind_of(receipt_kind_wire(k)) == k,
{
}

/// Reading back the wire number of a typing action gives the same action.
pub proof fn lemma_typing_action_round_trip(a: TypingAction)
    ensures
        typing_action_of(if a == TypingAction::Started { 0 } else { 1 }) == a,
{
}

} // verus!

verus! {

/// Mathematical form of an [`AttachmentInfo`].
pub struct AttachmentInfoView {
    pub id: Seq<char>,
    pub file_name: Seq<char>,
    pub mime_type: Seq<char>,
    pub size: u64,
    pub local_path: Option<Seq<char>>,
    pub pointer_data: Option<Seq<u8>>,
}

/// One attachment of a chat message.
#[derive(Debug, Clone)]
pub struct AttachmentInfo {
    pub id: String,
    pub file_name: String,
    pub mime_type: String,
    pub size: u64,
    /// Local file path after download (None if not yet downloaded).
    pub local_path: Option<String>,
    /// Encoded attachment pointer, kept for a later download.
    pub pointer_data: Option<Vec<u8>>,
}

impl DeepView for AttachmentInfo {
    type V = AttachmentInfoView;

    open spec fn deep_view(&self) -> AttachmentInfoView {
        AttachmentInfoView {
            id: self.id@,
            file_name: self.file_name@,
            mime_type: self.mime_type@,
            size: self.size,
            local_path: self.local_path.deep_view(),
            pointer_data: self.pointer_data.deep_view(),
        }
    }
}

/// Mathematical form of a [`QuotedMessage`].
pub struct QuotedMessageView {
    pub id: u64,
    pub author_id: Seq<char>,
    pub author_name: Seq<char>,
    pub text: Seq<char>,
}

/// A reply target as shown in the UI, built from `DataMessage.quote`.
#[derive(Debug, Clone, PartialEq, Eq)]
pub struct QuotedMessage {
    /// Sent-timestamp of the original message (its stable id).
    pub id: u64,
    pub author_id: String,
    pub author_name: String,
    pub text: String,
}

impl DeepView for QuotedMessage {
    type V = QuotedMessageView;

    open spec fn deep_view(&self) -> QuotedMessageView {
        QuotedMessageView {
            id: self.id,
            author_id: self.author_id@,
            author_name: self.author_name@,
            text: self.text@,
        }
    }
}

/// A reply the user is composing, fed back into the send path.
#[derive(Debug, Clone)]
pub struct QuoteInput {
    pub id: u64,
    pub author_uuid: String,
    pub text: String,
}

/// Mathematical form of a [`LinkPreview`].
pub struct LinkPreviewView {
    pub url: Seq<char>,
    pub title: Seq<char>,
    pub description: Seq<char>,
}

/// A link preview card of a message.
#[derive(Debug, Clone, PartialEq, Eq)]
pub struct LinkPreview {
    pub url: String,
    pub title: String,
    pub description: String,
}

impl DeepView for LinkPreview {
    type V = LinkPreviewView;

    open spec fn deep_view(&self) -> LinkPreviewView {
        LinkPreviewView { url: self.url@, title: self.title@, description: self.description@ }
    }
}

/// Mathematical form of a [`MsgRange`].
pub struct MsgRangeView {
    pub start: u32,
    pub length: u32,
    pub style: Option<Seq<char>>,
    pub mention_uuid: Option<Seq<char>>,
}

/// A styled or mentioning span of a message's body (in UTF-16 units):
/// either a style name or the mentioned account's UUID.
#[derive(Debug, Clone, PartialEq, Eq)]
pub struct MsgRange {
    pub start: u32,
    pub length: u32,
    pub style: Option<String>,
    pub mention_uuid: Option<String>,
}

impl DeepView for MsgRange {
    type V = MsgRangeView;

    open spec fn deep_view(&self) -> MsgRangeView {
        MsgRangeView {
            start: self.start,
            length: self.length,
            style: self.style.deep_view(),
            mention_uuid: self.mention_uuid.deep_view(),
        }
    }
}

/// Mathematical form of a [`PollInfo`].
pub struct PollInfoView {
    pub question: Seq<char>,
    pub options: Seq<Seq<char>>,
    pub allow_multiple: bool,
}

/// A poll carried by a message (`DataMessage.pollCreate`).
#[derive(Debug, Clone, PartialEq, Eq)]
pub struct PollInfo {
    pub question: String,
    pub options: Vec<String>,
    pub allow_multiple: bool,
}

impl DeepView for PollInfo {
    type V = PollInfoView;

    open spec fn deep_view(&self) -> PollInfoView {
        PollInfoView {
            question: self.question@,
            options: self.options.deep_view(),
            allow_multiple: self.allow_multiple,
        }
    }
}

/// Mathematical form of a [`ChatMessage`].
pub struct ChatMessageView {
    pub timestamp: u64,
    pub sender_id: Seq<char>,
    pub sender_name: Seq<char>,
    pub body: Option<Seq<char>>,
    pub attachments: Seq<AttachmentInfoView>,
    pub is_outgoing: bool,
    pub quote: Option<QuotedMessageView>,
    pub previews: Seq<LinkPreviewView>,
    pub body_ranges: Seq<MsgRangeView>,
    pub poll: Option<PollInfoView>,
    pub system_event: Option<Seq<char>>,
}

/// One message of a conversation, as the UI shows it.
#[derive(Debug, Clone)]
pub struct ChatMessage {
    pub timestamp: u64,
    pub sender_id: String,
    pub sender_name: String,
    pub body: Option<String>,
    pub attachments: Vec<AttachmentInfo>,
    pub is_outgoing: bool,
    /// Set when this message replies to another (DataMessage.quote).
    pub quote: Option<QuotedMessage>,
    /// The link preview cards of the message.
    pub previews: Vec<LinkPreview>,
    /// The styled and mentioning spans of the body.
    pub body_ranges: Vec<MsgRange>,
    /// The poll the message carries, if any.
    pub poll: Option<PollInfo>,
    /// A non-text event the message carries (`"group-call"`), if any.
    pub system_event: Option<String>,
}

impl DeepView for ChatMessage {
    type V = ChatMessageView;

    open spec fn deep_view(&self) -> ChatMessageView {
        ChatMessageView {
            timestamp: self.timestamp,
            sender_id: self.sender_id@,
            sender_name: self.sender_name@,
            body: self.body.deep_view(),
            attachments: self.attachments.deep_view(),
            is_outgoing: self.is_outgoing,
            quote: self.quote.deep_view(),
            previews: self.previews.deep_view(),
            body_ranges: self.body_ranges.deep_view(),
            poll: self.poll.deep_view(),
            system_event: self.system_event.deep_view(),
        }
    }
}

/// A conversation in the sidebar.
#[derive(Debug, Clone)]
pub struct Conversation {
    pub id: String,
    pub name: String,
    pub last_message: Option<String>,
    pub last_timestamp: u64,
    pub is_group: bool,
    /// Absolute path to a cached avatar image, if one is known locally.
    pub avatar_path: Option<String>,
}

/// A device linked to the account (times in milliseconds since the epoch).
#[derive(Debug, Clone, PartialEq, Eq)]
pub struct DeviceDto {
    pub id: u32,
    pub name: Option<String>,
    pub created_at: i64,
    pub last_seen: i64,
    /// Whether it is this device.
    pub is_current: bool,
}

/// The entry of a linked device: this device when its id is ours.
pub fn device_dto(id: u32, name: Option<String>, created_at: i64, last_seen: i64, current: Option<u32>) -> (r: DeviceDto)
    ensures
        r == (DeviceDto { id, name, created_at, last_seen, is_current: current == Some(id) }),
{
    let is_current = match current {
        Some(c) => c == id,
        None => false,
    };
    DeviceDto { id, name, created_at, last_seen, is_current }
}

/// Single attachment ready for the media-browser grid.
#[derive(Debug, Clone)]
pub struct MediaItem {
    pub timestamp: u64,
    pub sender_id: String,
    pub sender_name: String,
    pub is_outgoing: bool,
    pub attachment: AttachmentInfo,
}

/// Request to send a message with attachments.
#[derive(Debug, Clone)]
pub struct SendWithAttachmentsRequest {
    pub conversation_id: String,
    pub body: String,
    pub file_paths: Vec<String>,
}

/// Mathematical form of a [`ReceiptEvent`].
pub struct ReceiptEventView {
    pub chat_id: Seq<char>,
    pub message_ids: Seq<Seq<char>>,
    pub kind: ReceiptKind,
    pub timestamp: u64,
}

/// Receipts arrived for messages of a chat.
#[derive(Debug, Clone, PartialEq, Eq)]
pub struct ReceiptEvent {
    pub chat_id: String,
    pub message_ids: Vec<String>,
    pub kind: ReceiptKind,
    pub timestamp: u64,
}

impl DeepView for ReceiptEvent {
    type V = ReceiptEventView;

    open spec fn deep_view(&self) -> ReceiptEventView {
        ReceiptEventView {
            chat_id: self.chat_id@,
            message_ids: self.message_ids.deep_view(),
            kind: self.kind,
            timestamp: self.timestamp,
        }
    }
}

/// Mathematical form of a [`TypingEvent`].
pub struct TypingEventView {
    pub chat_id: Seq<char>,
    pub sender_id: Seq<char>,
    pub action: TypingAction,
}

/// Someone started or stopped typing.
#[derive(Debug, Clone, PartialEq, Eq)]
pub struct TypingEvent {
    pub chat_id: String,
    pub sender_id: String,
    pub action: TypingAction,
}

impl DeepView for TypingEvent {
    type V = TypingEventView;

    open spec fn deep_view(&self) -> TypingEventView {
        TypingEventView { chat_id: self.chat_id@, sender_id: self.sender_id@, action: self.action }
    }
}

/// Mathematical form of a [`ReactionEvent`].
pub struct ReactionEventView {
    pub chat_id: Seq<char>,
    pub target_message_id: Seq<char>,
    pub emoji: Seq<char>,
    pub sender_id: Seq<char>,
    pub remove: bool,
}

/// An emoji reaction was added to (or removed from) a message.
#[derive(Debug, Clone, PartialEq, Eq)]
pub struct ReactionEvent {
    pub chat_id: String,
    pub target_message_id: String,
    pub emoji: String,
    pub sender_id: String,
    pub remove: bool,
}

impl DeepView for ReactionEvent {
    type V = ReactionEventView;

    open spec fn deep_view(&self) -> ReactionEventView {
        ReactionEventView {
            chat_id: self.chat_id@,
            target_message_id: self.target_message_id@,
            emoji: self.emoji@,
            sender_id: self.sender_id@,
            remove: self.remove,
        }
    }
}

/// Mathematical form of an [`EditEvent`].
pub struct EditEventView {
    pub chat_id: Seq<char>,
    pub message_id: Seq<char>,
    pub new_text: Seq<char>,
    pub edited_at: u64,
}

/// A message's text was edited.
#[derive(Debug, Clone, PartialEq, Eq)]
pub struct EditEvent {
    pub chat_id: String,
    pub message_id: String,
    pub new_text: String,
    pub edited_at: u64,
}

impl DeepView for EditEvent {
    type V = EditEventView;

    open spec fn deep_view(&self) -> EditEventView {
        EditEventView {
            chat_id: self.chat_id@,
            message_id: self.message_id@,
            new_text: self.new_text@,
            edited_at: self.edited_at,
        }
    }
}

/// Mathematical form of a [`DeleteEvent`].
pub struct DeleteEventView {
    pub chat_id: Seq<char>,
    pub message_id: Seq<char>,
}

/// A message was deleted for everyone.
#[derive(Debug, Clone, PartialEq, Eq)]
pub struct DeleteEvent {
    pub chat_id: String,
    pub message_id: String,
}

impl DeepView for DeleteEvent {
    type V = DeleteEventView;

    open spec fn deep_view(&self) -> DeleteEventView {
        DeleteEventView { chat_id: self.chat_id@, message_id: self.message_id@ }
    }
}

/// Mathematical form of a [`PollVoteEvent`].
pub struct PollVoteEventView {
    pub chat_id: Seq<char>,
    pub poll_id: Seq<char>,
    pub voter_id: Seq<char>,
    pub option_indexes: Seq<u32>,
}

/// Someone voted on a poll (the poll is the message sent at `poll_id`).
#[derive(Debug, Clone, PartialEq, Eq)]
pub struct PollVoteEvent {
    pub chat_id: String,
    pub poll_id: String,
    pub voter_id: String,
    pub option_indexes: Vec<u32>,
}

impl DeepView for PollVoteEvent {
    type V = PollVoteEventView;

    open spec fn deep_view(&self) -> PollVoteEventView {
        PollVoteEventView {
            chat_id: self.chat_id@,
            poll_id: self.poll_id@,
            voter_id: self.voter_id@,
            option_indexes: self.option_indexes@,
        }
    }
}

/// Mathematical form of an [`InboundEvent`].
pub enum InboundEventView {
    Message { conversation_id: Seq<char>, message: ChatMessageView },
    Receipt(ReceiptEventView),
    Typing(TypingEventView),
    Reaction(ReactionEventView),
    Edited(EditEventView),
    Deleted(DeleteEventView),
    PollVote(PollVoteEventView),
}

/// Anything the receive loop surfaces to the UI layer.
#[derive(Debug, Clone)]
pub enum InboundEvent {
    Message { conversation_id: String, message: ChatMessage },
    Receipt(ReceiptEvent),
    Typing(TypingEvent),
    Reaction(ReactionEvent),
    Edited(EditEvent),
    Deleted(DeleteEvent),
    PollVote(PollVoteEvent),
}

impl DeepView for InboundEvent {
    type V = InboundEventView;

    open spec fn deep_view(&self) -> InboundEventView {
        match self {
            InboundEvent::Message { conversation_id, message } => InboundEventView::Message {
                conversation_id: conversation_id@,
                message: message.deep_view(),
            },
            InboundEvent::Receipt(e) => InboundEventView::Receipt(e.deep_view()),
            InboundEvent::Typing(e) => InboundEventView::Typing(e.deep_view()),
            InboundEvent::Reaction(e) => InboundEventView::Reaction(e.deep_view()),
            InboundEvent::Edited(e) => InboundEventView::Edited(e.deep_view()),
            InboundEvent::Deleted(e) => InboundEventView::Deleted(e.deep_view()),
            InboundEvent::PollVote(e) => InboundEventView::PollVote(e.deep_view()),
        }
    }
}

} // verus!
