//! Mapping between call signalling messages and Signal's wire `CallMessage`.
//!
//! Offer / answer / ICE carry their payload as an opaque blob on both sides,
//! so the mapping moves the blob, the call id and the media / hangup type
//! across. Whether an offer's or answer's blob is a well-formed signalling
//! payload is checked by the calling engine, outside this module.
use vstd::prelude::*;

verus! {

/// Audio or video call.
#[derive(Debug, Clone, Copy, PartialEq, Eq, Structural)]
pub enum CallMediaType {
    Audio,
    Video,
}

/// Why a call was hung up.
#[derive(Debug, Clone, Copy, PartialEq, Eq, Structural)]
pub enum HangupType {
    Normal,
    AcceptedOnAnotherDevice,
    DeclinedOnAnotherDevice,
    BusyOnAnotherDevice,
    NeedPermission,
}

/// A hang-up, with the other device involved where the type names one.
#[derive(Debug, Clone, Copy, PartialEq, Eq, Structural)]
pub enum Hangup {
    Normal,
    AcceptedOnAnotherDevice(u32),
    DeclinedOnAnotherDevice(u32),
    BusyOnAnotherDevice(u32),
    NeedPermission(Option<u32>),
}

/// The wire number of a hang-up type (HANGUP_NORMAL = 0 ... NEED_PERMISSION = 4).
pub open spec fn hangup_type_number(t: HangupType) -> i32 {
    match t {
        HangupType::Normal => 0,
        HangupType::AcceptedOnAnotherDevice => 1,
        HangupType::DeclinedOnAnotherDevice => 2,
        HangupType::BusyOnAnotherDevice => 3,
        HangupType::NeedPermission => 4,
    }
}

/// The hang-up type a wire number names, if any.
pub open spec fn hangup_type_of(v: i32) -> Option<HangupType> {
    if v == 0 {
        Some(HangupType::Normal)
    } else if v == 1 {
        Some(HangupType::AcceptedOnAnotherDevice)
    } else if v == 2 {
        Some(HangupType::DeclinedOnAnotherDevice)
    } else if v == 3 {
        Some(HangupType::BusyOnAnotherDevice)
    } else if v == 4 {
        Some(HangupType::NeedPermission)
    } else {
        None
    }
}

impl HangupType {
    /// The hang-up type for a wire number, `None` for an unknown number.
    pub fn from_i32(v: i32) -> (r: Option<HangupType>)
        ensures
            r == hangup_type_of(v),
    {
        if v == 0 {
            Some(HangupType::Normal)
        } else if v == 1 {
            Some(HangupType::AcceptedOnAnotherDevice)
        } else if v == 2 {
            Some(HangupType::DeclinedOnAnotherDevice)
        } else if v == 3 {
            Some(HangupType::BusyOnAnotherDevice)
        } else if v == 4 {
            Some(HangupType::NeedPermission)
        } else {
            None
        }
    }

    /// The wire number of this type.
    pub fn to_i32(&self) -> (r: i32)
        ensures
            r == hangup_type_number(*self),
    {
        match self {
            HangupType::Normal => 0,
            HangupType::AcceptedOnAnotherDevice => 1,
            HangupType::DeclinedOnAnotherDevice => 2,
            HangupType::BusyOnAnotherDevice => 3,
            HangupType::NeedPermission => 4,
        }
    }
}

/// The type and device id a hang-up puts on the wire.
pub open spec fn hangup_parts(h: Hangup) -> (HangupType, Option<u32>) {
    match h {
        Hangup::Normal => (HangupType::Normal, None),
        Hangup::AcceptedOnAnotherDevice(d) => (HangupType::AcceptedOnAnotherDevice, Some(d)),
        Hangup::DeclinedOnAnotherDevice(d) => (HangupType::DeclinedOnAnotherDevice, Some(d)),
        Hangup::BusyOnAnotherDevice(d) => (HangupType::BusyOnAnotherDevice, Some(d)),
        Hangup::NeedPermission(d) => (HangupType::NeedPermission, d),
    }
}

/// The hang-up a wire type and device id describe.
pub open spec fn hangup_from_parts(t: HangupType, device_id: u32) -> Hangup {
    match t {
        HangupType::Normal => Hangup::Normal,
        HangupType::AcceptedOnAnotherDevice => Hangup::AcceptedOnAnotherDevice(device_id),
        HangupType::DeclinedOnAnotherDevice => Hangup::DeclinedOnAnotherDevice(device_id),
        HangupType::BusyOnAnotherDevice => Hangup::BusyOnAnotherDevice(device_id),
        HangupType::NeedPermission => Hangup::NeedPermission(Some(device_id)),
    }
}

impl Hangup {
    /// Split into the wire type and device id.
    pub fn to_type_and_device_id(&self) -> (r: (HangupType, Option<u32>))
        ensures
            r == hangup_parts(*self),
    {
        match *self {
            Hangup::Normal => (HangupType::Normal, None),
            Hangup::AcceptedOnAnotherDevice(d) => (HangupType::AcceptedOnAnotherDevice, Some(d)),
            Hangup::DeclinedOnAnotherDevice(d) => (HangupType::DeclinedOnAnotherDevice, Some(d)),
            Hangup::BusyOnAnotherDevice(d) => (HangupType::BusyOnAnotherDevice, Some(d)),
            Hangup::NeedPermission(d) => (HangupType::NeedPermission, d),
        }
    }

    /// Rebuild from the wire type and device id.
    pub fn from_type_and_device_id(t: HangupType, device_id: u32) -> (r: Hangup)
        ensures
            r == hangup_from_parts(t, device_id),
    {
        match t {
            HangupType::Normal => Hangup::Normal,
            HangupType::AcceptedOnAnotherDevice => Hangup::AcceptedOnAnotherDevice(device_id),
            HangupType::DeclinedOnAnotherDevice => Hangup::DeclinedOnAnotherDevice(device_id),
            HangupType::BusyOnAnotherDevice => Hangup::BusyOnAnotherDevice(device_id),
            HangupType::NeedPermission => Hangup::NeedPermission(Some(device_id)),
        }
    }
}

/// A signalling message of a 1:1 call.
#[derive(Debug, Clone)]
pub enum SignalingMessage {
    Offer { media: CallMediaType, opaque: Vec<u8> },
    Answer { opaque: Vec<u8> },
    Ice { candidates: Vec<Vec<u8>> },
    Hangup(Hangup),
    Busy,
}

/// Mathematical form of a [`SignalingMessage`].
pub enum SignalingMessageView {
    Offer { media: CallMediaType, opaque: Seq<u8> },
    Answer { opaque: Seq<u8> },
    Ice { candidates: Seq<Seq<u8>> },
    Hangup(Hangup),
    Busy,
}

impl DeepView for SignalingMessage {
    type V = SignalingMessageView;

    open spec fn deep_view(&self) -> SignalingMessageView {
        match self {
            SignalingMessage::Offer { media, opaque } => SignalingMessageView::Offer {
                media: *media,
                opaque: opaque@,
            },
            SignalingMessage::Answer { opaque } => SignalingMessageView::Answer { opaque: opaque@ },
            SignalingMessage::Ice { candidates } => SignalingMessageView::Ice {
                candidates: Seq::new(candidates@.len(), |i: int| candidates@[i]@),
            },
            SignalingMessage::Hangup(h) => SignalingMessageView::Hangup(*h),
            SignalingMessage::Busy => SignalingMessageView::Busy,
        }
    }
}

/// `CallMessage.Offer`.
#[derive(Debug, Clone)]
pub struct OfferProto {
    pub id: Option<u64>,
    pub offer_type: Option<i32>,
    pub opaque: Option<Vec<u8>>,
}

/// `CallMessage.Answer` / one `CallMessage.IceUpdate`: a call id and a blob.
#[derive(Debug, Clone)]
pub struct BlobProto {
    pub id: Option<u64>,
    pub opaque: Option<Vec<u8>>,
}

/// `CallMessage.Hangup`.
#[derive(Debug, Clone, Copy, PartialEq, Eq, Structural)]
pub struct HangupProto {
    pub id: Option<u64>,
    pub hangup_type: Option<i32>,
    pub device_id: Option<u32>,
}

/// The wire `CallMessage` fields used by 1:1 calls. `has_opaque` marks the
/// group-calling payload, which 1:1 calls ignore.
#[derive(Debug, Clone)]
pub struct CallMessage {
    pub offer: Option<OfferProto>,
    pub answer: Option<BlobProto>,
    pub ice_update: Vec<BlobProto>,
    pub hangup: Option<HangupProto>,
    pub busy: Option<u64>,
    pub busy_present: bool,
    pub has_opaque: bool,
}

/// Mathematical form of an optional blob.
pub open spec fn blob_of(b: Option<Vec<u8>>) -> Option<Seq<u8>> {
    match b {
        Some(v) => Some(v@),
        None => None,
    }
}

/// The offer type number of a media type (OFFER_AUDIO_CALL = 0,
/// OFFER_VIDEO_CALL = 1).
pub open spec fn offer_type_number(m: CallMediaType) -> i32 {
    match m {
        CallMediaType::Audio => 0,
        CallMediaType::Video => 1,
    }
}

/// The media type of an offer type number: video for OFFER_VIDEO_CALL, and
/// audio for audio or anything unrecognised.
pub open spec fn media_of_offer_type(t: i32) -> CallMediaType {
    if t == 1 {
        CallMediaType::Video
    } else {
        CallMediaType::Audio
    }
}

fn media_type_to_offer_type(m: CallMediaType) -> (r: i32)
    ensures
        r == offer_type_number(m),
{
    match m {
        CallMediaType::Audio => 0,
        CallMediaType::Video => 1,
    }
}

fn offer_type_to_media_type(t: i32) -> (r: CallMediaType)
    ensures
        r == media_of_offer_type(t),
{
    if t == 1 {
        CallMediaType::Video
    } else {
        CallMediaType::Audio
    }
}

/// Why an inbound `CallMessage` could not be mapped.
#[derive(Debug, Clone, Copy, PartialEq, Eq, Structural)]
pub enum SignalingMapError {
    /// An offer or answer without its opaque blob.
    MissingOpaque,
    /// An opaque blob that the calling engine could not decode.
    BadOpaque,
    /// A hang-up with an unknown type.
    BadHangupType,
}

impl SignalingMapError {
    /// The error's message.
    pub fn message(&self) -> (r: String)
        ensures
            *self == SignalingMapError::MissingOpaque ==> r@ == "CallMessage field missing its opaque blob"@,
            *self == SignalingMapError::BadOpaque ==> r@ == "CallMessage opaque blob failed to deserialize"@,
            *self == SignalingMapError::BadHangupType ==> r@ == "CallMessage hangup carried an unknown type"@,
    {
        match self {
            SignalingMapError::MissingOpaque => "CallMessage field missing its opaque blob".to_owned(),
            SignalingMapError::BadOpaque => "CallMessage opaque blob failed to deserialize".to_owned(),
            SignalingMapError::BadHangupType => "CallMessage hangup carried an unknown type".to_owned(),
        }
    }
}

/// A call id read from an optional wire field (absent reads as 0).
pub open spec fn id_or_zero(id: Option<u64>) -> u64 {
    match id {
        Some(v) => v,
        None => 0,
    }
}

/// The opaque blobs of the ICE updates that carry one, in order.
pub open spec fn ice_blobs(u: Seq<BlobProto>) -> Seq<Seq<u8>>
    decreases u.len(),
{
    if u.len() == 0 {
        Seq::empty()
    } else {
        let rest = ice_blobs(u.drop_last());
        match u.last().opaque {
            Some(b) => rest.push(b@),
            None => rest,
        }
    }
}

/// What an inbound `CallMessage` means for a 1:1 call. The first present of
/// offer, answer, ICE updates, hang-up and busy decides; a message with none
/// of them (group-call traffic) means nothing.
pub open spec fn signaling_of(cm: CallMessage) -> Result<Option<(u64, SignalingMessageView)>, SignalingMapError> {
    if cm.offer is Some {
        let o = cm.offer->0;
        match o.opaque {
            Some(b) => Ok(
                Some(
                    (
                        id_or_zero(o.id),
                        SignalingMessageView::Offer {
                            media: media_of_offer_type(
                                match o.offer_type {
                                    Some(t) => t,
                                    None => 0,
                                },
                            ),
                            opaque: b@,
                        },
                    ),
                ),
            ),
            None => Err(SignalingMapError::MissingOpaque),
        }
    } else if cm.answer is Some {
        let a = cm.answer->0;
        match a.opaque {
            Some(b) => Ok(Some((id_or_zero(a.id), SignalingMessageView::Answer { opaque: b@ }))),
            None => Err(SignalingMapError::MissingOpaque),
        }
    } else if cm.ice_update@.len() > 0 {
        Ok(
            Some(
                (
                    id_or_zero(cm.ice_update@[0].id),
                    SignalingMessageView::Ice { candidates: ice_blobs(cm.ice_update@) },
                ),
            ),
        )
    } else if cm.hangup is Some {
        let h = cm.hangup->0;
        match hangup_type_of(
            match h.hangup_type {
                Some(t) => t,
                None => 0,
            },
        ) {
            Some(t) => Ok(
                Some(
                    (
                        id_or_zero(h.id),
                        SignalingMessageView::Hangup(
                            hangup_from_parts(
                                t,
                                match h.device_id {
                                    Some(d) => d,
                                    None => 0,
                                },
                            ),
                        ),
                    ),
                ),
            ),
            None => Err(SignalingMapError::BadHangupType),
        }
    } else if cm.busy_present {
        Ok(Some((id_or_zero(cm.busy), SignalingMessageView::Busy)))
    } else {
        Ok(None)
    }
}

fn clone_bytes(b: &Vec<u8>) -> (r: Vec<u8>)
    ensures
        r@ == b@,
{
    let r = b.clone();
    proof {
        assert(r@ =~= b@);
    }
    r
}

/// Parse an inbound `CallMessage` into a call id and signalling message.
/// `Ok(None)` for a message carrying nothing a 1:1 call handles.
pub fn from_call_message(cm: &CallMessage) -> (r: Result<Option<(u64, SignalingMessage)>, SignalingMapError>)
    ensures
        match r {
            Ok(Some((id, m))) => signaling_of(*cm) == Ok::<Option<(u64, SignalingMessageView)>, SignalingMapError>(Some((id, m.deep_view()))),
            Ok(None) => signaling_of(*cm) == Ok::<Option<(u64, SignalingMessageView)>, SignalingMapError>(None),
            Err(e) => signaling_of(*cm) == Err::<Option<(u64, SignalingMessageView)>, SignalingMapError>(e),
        },
{
    if let Some(offer) = &cm.offer {
        let id: u64 = match offer.id {
            Some(v) => v,
            None => 0,
        };
        let media = offer_type_to_media_type(
            match offer.offer_type {
                Some(t) => t,
                None => 0,
            },
        );
        return match &offer.opaque {
            Some(b) => Ok(Some((id, SignalingMessage::Offer { media, opaque: clone_bytes(b) }))),
            None => Err(SignalingMapError::MissingOpaque),
        };
    }
    if let Some(answer) = &cm.answer {
        let id: u64 = match answer.id {
            Some(v) => v,
            None => 0,
        };
        return match &answer.opaque {
            Some(b) => Ok(Some((id, SignalingMessage::Answer { opaque: clone_bytes(b) }))),
            None => Err(SignalingMapError::MissingOpaque),
        };
    }
    if cm.ice_update.len() > 0 {
        let id: u64 = match cm.ice_update[0].id {
            Some(v) => v,
            None => 0,
        };
        let mut candidates: Vec<Vec<u8>> = Vec::new();
        let mut i: usize = 0;
        while i < cm.ice_update.len()
            invariant
                i <= cm.ice_update@.len(),
                Seq::new(candidates@.len(), |k: int| candidates@[k]@) == ice_blobs(cm.ice_update@.take(i as int)),
            decreases cm.ice_update@.len() - i,
        {
            let ghost before = candidates@;
            proof {
                assert(cm.ice_update@.take(i + 1).drop_last() =~= cm.ice_update@.take(i as int));
            }
            if let Some(b) = &cm.ice_update[i].opaque {
                candidates.push(clone_bytes(b));
                proof {
                    assert(Seq::new(candidates@.len(), |k: int| candidates@[k]@) =~= Seq::new(
                        before.len(),
                        |k: int| before[k]@,
                    ).push(b@));
                }
            }
            i = i + 1;
        }
        proof {
            assert(cm.ice_update@.take(cm.ice_update@.len() as int) =~= cm.ice_update@);
        }
        return Ok(Some((id, SignalingMessage::Ice { candidates })));
    }
    if let Some(h) = &cm.hangup {
        let id: u64 = match h.id {
            Some(v) => v,
            None => 0,
        };
        let t = HangupType::from_i32(
            match h.hangup_type {
                Some(t) => t,
                None => 0,
            },
        );
        return match t {
            Some(t) => {
                let d: u32 = match h.device_id {
                    Some(d) => d,
                    None => 0,
                };
                Ok(Some((id, SignalingMessage::Hangup(Hangup::from_type_and_device_id(t, d)))))
            },
            None => Err(SignalingMapError::BadHangupType),
        };
    }
    if cm.busy_present {
        let id: u64 = match cm.busy {
            Some(v) => v,
            None => 0,
        };
        return Ok(Some((id, SignalingMessage::Busy)));
    }
    Ok(None)
}

/// The `CallMessage` an outbound signalling message becomes: exactly one of
/// offer, answer, ICE updates (one per candidate), hang-up and busy is set,
/// each stamped with the call id.
pub open spec fn call_message_of(id: u64, m: SignalingMessageView, cm: CallMessage) -> bool {
    let none_but = |offer: bool, answer: bool, ice: bool, hangup: bool, busy: bool|
        (offer || cm.offer is None) && (answer || cm.answer is None) && (ice || cm.ice_update@.len() == 0)
            && (hangup || cm.hangup is None) && (busy || (!cm.busy_present && cm.busy is None))
            && !cm.has_opaque;
    match m {
        SignalingMessageView::Offer { media, opaque } => {
            &&& none_but(true, false, false, false, false)
            &&& cm.offer is Some
            &&& cm.offer->0.id == Some(id)
            &&& cm.offer->0.offer_type == Some(offer_type_number(media))
            &&& blob_of(cm.offer->0.opaque) == Some(opaque)
        },
        SignalingMessageView::Answer { opaque } => {
            &&& none_but(false, true, false, false, false)
            &&& cm.answer is Some
            &&& cm.answer->0.id == Some(id)
            &&& blob_of(cm.answer->0.opaque) == Some(opaque)
        },
        SignalingMessageView::Ice { candidates } => {
            &&& none_but(false, false, true, false, false)
            &&& cm.ice_update@.len() == candidates.len()
            &&& forall|i: int|
                0 <= i < candidates.len() ==> (#[trigger] cm.ice_update@[i]).id == Some(id)
                    && blob_of(cm.ice_update@[i].opaque) == Some(candidates[i])
        },
        SignalingMessageView::Hangup(h) => {
            &&& none_but(false, false, false, true, false)
            &&& cm.hangup == Some(
                HangupProto {
                    id: Some(id),
                    hangup_type: Some(hangup_type_number(hangup_parts(h).0)),
                    device_id: hangup_parts(h).1,
                },
            )
        },
        SignalingMessageView::Busy => {
            &&& none_but(false, false, false, false, true)
            &&& cm.busy_present
            &&& cm.busy == Some(id)
        },
    }
}

fn empty_call_message() -> (cm: CallMessage)
    ensures
        cm.offer is None,
        cm.answer is None,
        cm.ice_update@.len() == 0,
        cm.hangup is None,
        cm.busy is None,
        !cm.busy_present,
        !cm.has_opaque,
{
    CallMessage {
        offer: None,
        answer: None,
        ice_update: Vec::new(),
        hangup: None,
        busy: None,
        busy_present: false,
        has_opaque: false,
    }
}

/// Serialise an outbound signalling message into a `CallMessage`.
pub fn to_call_message(call_id: u64, msg: &SignalingMessage) -> (cm: CallMessage)
    ensures
        call_message_of(call_id, msg.deep_view(), cm),
{
    let mut cm = empty_call_message();
    match msg {
        SignalingMessage::Offer { media, opaque } => {
            cm.offer = Some(
                OfferProto {
                    id: Some(call_id),
                    offer_type: Some(media_type_to_offer_type(*media)),
                    opaque: Some(clone_bytes(opaque)),
                },
            );
        },
        SignalingMessage::Answer { opaque } => {
            cm.answer = Some(BlobProto { id: Some(call_id), opaque: Some(clone_bytes(opaque)) });
        },
        SignalingMessage::Ice { candidates } => {
            let mut ups: Vec<BlobProto> = Vec::new();
            let mut i: usize = 0;
            while i < candidates.len()
                invariant
                    i <= candidates@.len(),
                    ups@.len() == i,
                    forall|k: int|
                        0 <= k < i ==> (#[trigger] ups@[k]).id == Some(call_id) && blob_of(
                            ups@[k].opaque,
                        ) == Some(candidates@[k]@),
                decreases candidates@.len() - i,
            {
                ups.push(BlobProto { id: Some(call_id), opaque: Some(clone_bytes(&candidates[i])) });
                i = i + 1;
            }
            cm.ice_update = ups;
        },
        SignalingMessage::Hangup(h) => {
            let (t, d) = h.to_type_and_device_id();
            cm.hangup = Some(HangupProto { id: Some(call_id), hangup_type: Some(t.to_i32()), device_id: d });
        },
        SignalingMessage::Busy => {
            cm.busy = Some(call_id);
            cm.busy_present = true;
        },
    }
    cm
}

/// Whether a signalling message survives a trip through the wire format:
/// everything but an ICE message without candidates (which puts nothing on
/// the wire) and a need-permission hang-up without a device id (which reads
/// back with device 0).
pub open spec fn survives_wire(m: SignalingMessageView) -> bool {
    match m {
        SignalingMessageView::Ice { candidates } => candidates.len() > 0,
        SignalingMessageView::Hangup(Hangup::NeedPermission(None)) => false,
        _ => true,
    }
}

proof fn lemma_ice_blobs_all(u: Seq<BlobProto>)
    requires
        forall|i: int| 0 <= i < u.len() ==> (#[trigger] u[i]).opaque is Some,
    ensures
        ice_blobs(u) == Seq::new(u.len(), |i: int| u[i].opaque->0@),
    decreases u.len(),
{
    if u.len() > 0 {
        lemma_ice_blobs_all(u.drop_last());
        assert(ice_blobs(u) =~= Seq::new(u.len(), |i: int| u[i].opaque->0@));
    } else {
        assert(ice_blobs(u) =~= Seq::new(u.len(), |i: int| u[i].opaque->0@));
    }
}

/// Reading back what we put on the wire gives the same call id and message,
/// for every message that survives the wire format.
pub proof fn lemma_signaling_round_trip(id: u64, m: SignalingMessageView, cm: CallMessage)
    requires
        call_message_of(id, m, cm),
        survives_wire(m),
    ensures
        signaling_of(cm) == Ok::<Option<(u64, SignalingMessageView)>, SignalingMapError>(Some((id, m))),
{
    match m {
        SignalingMessageView::Ice { candidates } => {
            lemma_ice_blobs_all(cm.ice_update@);
            assert(ice_blobs(cm.ice_update@) =~= candidates);
        },
        SignalingMessageView::Offer { media, opaque } => {
            assert(media_of_offer_type(offer_type_number(media)) == media);
        },
        _ => {},
    }
}

} // verus!
