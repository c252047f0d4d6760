//! The rules between the UI's call commands, the calling engine and the
//! coarse [`CallState`]: what the engine is asked to do for each command,
//! which state the UI shows after each engine state change, and where an
//! outbound signalling message goes.
use vstd::prelude::*;

use crate::calling::signaling::{
    call_message_of, from_call_message, signaling_of, to_call_message, CallMessage,
    SignalingMessage,
};
use crate::calling::state::{CallDirection, CallState, CallStateView};
use crate::codec::{parse_uuid, uuid_parse, uuid_text, uuid_to_string};
use crate::text::owned;

verus! {

/// A state change reported by the calling engine. An end or a rejection
/// carries the engine's reason, as text.
#[derive(Debug, Clone)]
pub enum EngineState {
    Incoming,
    Ringing,
    Outgoing,
    Connecting,
    Connected,
    Ended(String),
    Rejected(String),
    Concluded,
}

/// What the call subsystem can be asked to do.
#[derive(Debug, Clone)]
pub enum CallCommand {
    /// Place an outgoing 1:1 audio call.
    StartCall { peer_uuid: u128, peer_name: String },
    /// Accept the ringing incoming call.
    Accept,
    /// Decline the ringing incoming call.
    Decline,
    /// End the active call (or cancel a dial).
    Hangup,
    /// A `CallMessage` arrived from the receive loop.
    IncomingCallMessage { sender_uuid: u128, sender_device_id: u32, call_message: CallMessage },
}

/// The call we are in, dialing or ringing.
#[derive(Debug, Clone)]
pub struct ActiveCall {
    pub call_id: u64,
    pub peer_uuid: u128,
    pub peer_name: String,
    pub direction: CallDirection,
}

/// The engine operation a command asks for.
#[derive(Debug, Clone)]
pub enum EngineRequest {
    /// Nothing to do.
    Nothing,
    /// Create an outgoing audio call to `peer_id` with `call_id`, then proceed.
    PlaceCall { peer_id: String, call_id: u64 },
    /// Accept the call `call_id`.
    Accept { call_id: u64 },
    /// Hang up whatever call is in progress.
    HangUp,
    /// Hand received signalling to the engine (and proceed, for an offer).
    Deliver { peer_id: String, call_id: u64, sender_device_id: u32, message: SignalingMessage },
}

/// What one command does: the engine request, then, once the engine accepted
/// it, the active call and (where it changes) the state shown to the UI.
#[derive(Debug, Clone)]
pub struct CallPlan {
    pub request: EngineRequest,
    pub active: Option<ActiveCall>,
    pub state: Option<CallState>,
}

/// The peer of a state that has one, with its id read as a UUID.
pub open spec fn peer_from(peer_uuid: Seq<char>, peer_name: Seq<char>) -> Option<(u128, Seq<char>)> {
    match uuid_parse(peer_uuid) {
        Some(u) => Some((u, peer_name)),
        None => None,
    }
}

/// The peer of the current call: defined for ringing, dialing and connected
/// states whose peer id is a UUID.
pub open spec fn peer_of_view(s: CallStateView) -> Option<(u128, Seq<char>)> {
    match s {
        CallStateView::Ringing { peer_uuid, peer_name } => peer_from(peer_uuid, peer_name),
        CallStateView::Dialing { peer_uuid, peer_name } => peer_from(peer_uuid, peer_name),
        CallStateView::Connected { peer_uuid, peer_name } => peer_from(peer_uuid, peer_name),
        _ => None,
    }
}

/// The state shown after the engine reports `ring`, given the current state:
/// the peer carries over (its id in canonical form) into ringing, dialing or
/// connected, or the state falls back to idle when there is no peer; an end
/// or a rejection shows its reason; a concluded call is idle.
pub open spec fn state_after_engine(ring: EngineState, current: CallStateView) -> CallStateView {
    let peer = peer_of_view(current);
    match ring {
        EngineState::Incoming | EngineState::Ringing => match peer {
            Some((u, n)) => CallStateView::Ringing { peer_uuid: uuid_text(u), peer_name: n },
            None => CallStateView::Idle,
        },
        EngineState::Outgoing | EngineState::Connecting => match peer {
            Some((u, n)) => CallStateView::Dialing { peer_uuid: uuid_text(u), peer_name: n },
            None => CallStateView::Idle,
        },
        EngineState::Connected => match peer {
            Some((u, n)) => CallStateView::Connected { peer_uuid: uuid_text(u), peer_name: n },
            None => CallStateView::Idle,
        },
        EngineState::Ended(reason) => CallStateView::Ended { reason: reason@ },
        EngineState::Rejected(reason) => CallStateView::Ended { reason: reason@ },
        EngineState::Concluded => CallStateView::Idle,
    }
}

fn peer_parts(peer_uuid: &String, peer_name: &String) -> (r: Option<(u128, String)>)
    ensures
        match r {
            Some((u, n)) => peer_from(peer_uuid@, peer_name@) == Some((u, n@)),
            None => peer_from(peer_uuid@, peer_name@) is None,
        },
{
    match parse_uuid(peer_uuid.as_str()) {
        Some(u) => Some((u, owned(peer_name.as_str()))),
        None => None,
    }
}

/// The peer of the current call, if the state has one with a UUID id.
pub fn current_peer(state: &CallState) -> (r: Option<(u128, String)>)
    ensures
        match r {
            Some((u, n)) => peer_of_view(state.deep_view()) == Some((u, n@)),
            None => peer_of_view(state.deep_view()) is None,
        },
{
    match state {
        CallState::Ringing { peer_uuid, peer_name } => peer_parts(peer_uuid, peer_name),
        CallState::Dialing { peer_uuid, peer_name } => peer_parts(peer_uuid, peer_name),
        CallState::Connected { peer_uuid, peer_name } => peer_parts(peer_uuid, peer_name),
        _ => None,
    }
}

/// The state to show after the engine reports `ring`.
pub fn handle_call_state(current: &CallState, ring: &EngineState) -> (r: CallState)
    ensures
        r.deep_view() == state_after_engine(*ring, current.deep_view()),
{
    let peer = current_peer(current);
    match ring {
        EngineState::Incoming | EngineState::Ringing => match peer {
            Some((u, n)) => CallState::Ringing { peer_uuid: uuid_to_string(u), peer_name: n },
            None => CallState::Idle,
        },
        EngineState::Outgoing | EngineState::Connecting => match peer {
            Some((u, n)) => CallState::Dialing { peer_uuid: uuid_to_string(u), peer_name: n },
            None => CallState::Idle,
        },
        EngineState::Connected => match peer {
            Some((u, n)) => CallState::Connected { peer_uuid: uuid_to_string(u), peer_name: n },
            None => CallState::Idle,
        },
        EngineState::Ended(reason) => CallState::Ended { reason: owned(reason.as_str()) },
        EngineState::Rejected(reason) => CallState::Ended { reason: owned(reason.as_str()) },
        EngineState::Concluded => CallState::Idle,
    }
}

/// Where an outbound signalling message goes: `None` when the recipient id
/// is not a UUID (the message is dropped), else the recipient and the wire
/// message.
pub fn send_signaling(recipient_id: &str, call_id: u64, message: &SignalingMessage) -> (r: Option<(u128, CallMessage)>)
    ensures
        r is None <==> uuid_parse(recipient_id@) is None,
        r matches Some((u, cm)) ==> uuid_parse(recipient_id@) == Some(u) && call_message_of(
            call_id,
            message.deep_view(),
            cm,
        ),
{
    match parse_uuid(recipient_id) {
        Some(u) => Some((u, to_call_message(call_id, message))),
        None => None,
    }
}

/// A command's plan when the engine is running. `fresh_call_id` is the
/// random id a new outgoing call gets.
///
/// - Start: place a call to the peer, become the active outgoing call and
///   show dialing.
/// - Accept: accept the active call, if any; nothing changes.
/// - Decline / hang up: hang up, forget the active call, show idle.
/// - Inbound `CallMessage`: a 1:1 signalling message is delivered to the
///   engine; an offer also makes the sender the active incoming call and
///   shows ringing (the sender's id stands for its name). Messages that are
///   not 1:1 signalling, or that do not decode, are dropped.
pub fn plan_command(cmd: &CallCommand, active: Option<ActiveCall>, fresh_call_id: u64) -> (p: CallPlan)
    ensures
        match *cmd {
            CallCommand::StartCall { peer_uuid, peer_name } => {
                &&& p.request matches EngineRequest::PlaceCall { peer_id, call_id } && peer_id@
                    == uuid_text(peer_uuid) && call_id == fresh_call_id
                &&& p.active matches Some(a) && a.call_id == fresh_call_id && a.peer_uuid == peer_uuid
                    && a.peer_name@ == peer_name@ && a.direction == CallDirection::Outgoing
                &&& p.state matches Some(s) && s.deep_view() == (CallStateView::Dialing {
                    peer_uuid: uuid_text(peer_uuid),
                    peer_name: peer_name@,
                })
            },
            CallCommand::Accept => {
                &&& match active {
                    Some(a) => p.request == (EngineRequest::Accept { call_id: a.call_id }),
                    None => p.request is Nothing,
                }
                &&& p.active == active
                &&& p.state is None
            },
            CallCommand::Decline | CallCommand::Hangup => {
                &&& p.request is HangUp
                &&& p.active is None
                &&& p.state == Some(CallState::Idle)
            },
            CallCommand::IncomingCallMessage { sender_uuid, sender_device_id, call_message } => {
                match signaling_of(call_message) {
                    Ok(Some((id, m))) => {
                        &&& p.request matches EngineRequest::Deliver {
                            peer_id,
                            call_id,
                            sender_device_id: dev,
                            message,
                        } && peer_id@ == uuid_text(sender_uuid) && call_id == id && dev
                            == sender_device_id && message.deep_view() == m
                        &&& m is Offer ==> {
                            &&& p.active matches Some(a) && a.call_id == id && a.peer_uuid
                                == sender_uuid && a.peer_name@ == uuid_text(sender_uuid)
                                && a.direction == CallDirection::Incoming
                            &&& p.state matches Some(s) && s.deep_view() == (CallStateView::Ringing {
                                peer_uuid: uuid_text(sender_uuid),
                                peer_name: uuid_text(sender_uuid),
                            })
                        }
                        &&& !(m is Offer) ==> p.active == active && p.state is None
                    },
                    _ => {
                        &&& p.request is Nothing
                        &&& p.active == active
                        &&& p.state is None
                    },
                }
            },
        },
{
    match cmd {
        CallCommand::StartCall { peer_uuid, peer_name } => {
            let state = CallState::Dialing {
                peer_uuid: uuid_to_string(*peer_uuid),
                peer_name: owned(peer_name.as_str()),
            };
            CallPlan {
                request: EngineRequest::PlaceCall {
                    peer_id: uuid_to_string(*peer_uuid),
                    call_id: fresh_call_id,
                },
                active: Some(
                    ActiveCall {
                        call_id: fresh_call_id,
                        peer_uuid: *peer_uuid,
                        peer_name: owned(peer_name.as_str()),
                        direction: CallDirection::Outgoing,
                    },
                ),
                state: Some(state),
            }
        },
        CallCommand::Accept => {
            let request = match &active {
                Some(a) => EngineRequest::Accept { call_id: a.call_id },
                None => EngineRequest::Nothing,
            };
            CallPlan { request, active, state: None }
        },
        CallCommand::Decline | CallCommand::Hangup => {
            CallPlan { request: EngineRequest::HangUp, active: None, state: Some(CallState::Idle) }
        },
        CallCommand::IncomingCallMessage { sender_uuid, sender_device_id, call_message } => {
            match from_call_message(call_message) {
                Ok(Some((id, m))) => {
                    let is_offer = match &m {
                        SignalingMessage::Offer { .. } => true,
                        _ => false,
                    };
                    let request = EngineRequest::Deliver {
                        peer_id: uuid_to_string(*sender_uuid),
                        call_id: id,
                        sender_device_id: *sender_device_id,
                        message: m,
                    };
                    if is_offer {
                        CallPlan {
                            request,
                            active: Some(
                                ActiveCall {
                                    call_id: id,
                                    peer_uuid: *sender_uuid,
                                    peer_name: uuid_to_string(*sender_uuid),
                                    direction: CallDirection::Incoming,
                                },
                            ),
                            state: Some(
                                CallState::Ringing {
                                    peer_uuid: uuid_to_string(*sender_uuid),
                                    peer_name: uuid_to_string(*sender_uuid),
                                },
                            ),
                        }
                    } else {
                        CallPlan { request, active, state: None }
                    }
                },
                _ => CallPlan { request: EngineRequest::Nothing, active, state: None },
            }
        },
    }
}

/// The reason shown when a build has no calling engine.
pub open spec fn unavailable_reason() -> Seq<char> {
    "voice calls are not available in this build"@
}

/// Without a calling engine, starting or accepting a call ends at once with
/// a fixed reason (after which the state returns to idle); every other
/// command does nothing.
pub fn respond_without_engine(cmd: &CallCommand) -> (r: Option<CallState>)
    ensures
        match *cmd {
            CallCommand::StartCall { .. } | CallCommand::Accept => r matches Some(s) && s.deep_view()
                == (CallStateView::Ended { reason: unavailable_reason() }),
            _ => r is None,
        },
{
    match cmd {
        CallCommand::StartCall { .. } | CallCommand::Accept => Some(
            CallState::Ended { reason: owned("voice calls are not available in this build") },
        ),
        _ => None,
    }
}

/// The peer of an outgoing call, from the recipient id the UI gives: it
/// must be a UUID.
pub fn parse_recipient(recipient_id: &str) -> (r: Result<u128, String>)
    ensures
        match uuid_parse(recipient_id@) {
            Some(u) => r == Ok::<u128, String>(u),
            None => r matches Err(e) && e@ == "not a valid recipient uuid: "@ + recipient_id@,
        },
{
    match parse_uuid(recipient_id) {
        Some(u) => Ok(u),
        None => Err(crate::text::concat("not a valid recipient uuid: ", recipient_id)),
    }
}

/// What the UI shows after an engine state change, for a call with a peer
/// (a UUID `u` and a name `n`): an incoming or ringing call rings (it is
/// never shown as dialing), an outgoing or connecting call dials, a
/// connected call is connected, all with that peer in canonical form; an end
/// or a rejection shows its reason and a concluded call is idle.
pub proof fn lemma_engine_state_shown(ring: EngineState, current: CallStateView, u: u128, n: Seq<char>)
    requires
        peer_of_view(current) == Some((u, n)),
    ensures
        ring is Incoming || ring is Ringing ==> state_after_engine(ring, current) == (CallStateView::Ringing {
            peer_uuid: uuid_text(u),
            peer_name: n,
        }),
        ring is Outgoing || ring is Connecting ==> state_after_engine(ring, current) == (CallStateView::Dialing {
            peer_uuid: uuid_text(u),
            peer_name: n,
        }),
        ring is Connected ==> state_after_engine(ring, current) == (CallStateView::Connected {
            peer_uuid: uuid_text(u),
            peer_name: n,
        }),
        ring matches EngineState::Ended(r) ==> state_after_engine(ring, current) == (CallStateView::Ended {
            reason: r@,
        }),
        ring matches EngineState::Rejected(r) ==> state_after_engine(ring, current) == (CallStateView::Ended {
            reason: r@,
        }),
        ring is Concluded ==> state_after_engine(ring, current) == CallStateView::Idle,
{
}

/// The peer of a ringing call stays its peer while it rings: the state shown
/// after an incoming-call report keeps the peer (and its name) it had.
pub proof fn lemma_incoming_keeps_the_peer(current: CallStateView, u: u128, n: Seq<char>)
    requires
        peer_of_view(current) == Some((u, n)),
    ensures
        peer_of_view(state_after_engine(EngineState::Incoming, current)) == Some((u, n)),
        state_after_engine(EngineState::Incoming, current) is Ringing,
{
    crate::codec::lemma_uuid_text_parses(u);
}

/// Without a peer (idle, ended, or a peer id that is not a UUID), only an
/// end or a rejection shows something other than idle: its reason.
pub proof fn lemma_no_peer_is_idle(ring: EngineState, current: CallStateView)
    requires
        peer_of_view(current) is None,
    ensures
        !(ring is Ended || ring is Rejected) ==> state_after_engine(ring, current) == CallStateView::Idle,
        ring matches EngineState::Ended(r) ==> state_after_engine(ring, current) == (CallStateView::Ended {
            reason: r@,
        }),
{
}

} // verus!
