use vstd::prelude::*;

verus! {

/// Who started the call.
#[derive(Debug, Clone, Copy, PartialEq, Eq, Structural)]
pub enum CallDirection {
    Incoming,
    Outgoing,
}

/// Mathematical form of a [`CallState`].
pub enum CallStateView {
    Idle,
    Ringing { peer_uuid: Seq<char>, peer_name: Seq<char> },
    Dialing { peer_uuid: Seq<char>, peer_name: Seq<char> },
    Connected { peer_uuid: Seq<char>, peer_name: Seq<char> },
    Ended { reason: Seq<char> },
}

/// Coarse call lifecycle, mirrored to the frontend: which screen to show.
#[derive(Debug, Clone, PartialEq, Eq)]
pub enum CallState {
    /// No call. Default.
    Idle,
    /// An incoming call is ringing.
    Ringing { peer_uuid: String, peer_name: String },
    /// We placed a call, waiting for the other side.
    Dialing { peer_uuid: String, peer_name: String },
    /// Media is flowing.
    Connected { peer_uuid: String, peer_name: String },
    /// The call finished (any reason).
    Ended { reason: String },
}

impl DeepView for CallState {
    type V = CallStateView;

    open spec fn deep_view(&self) -> CallStateView {
        match self {
            CallState::Idle => CallStateView::Idle,
            CallState::Ringing { peer_uuid, peer_name } => CallStateView::Ringing {
                peer_uuid: peer_uuid@,
                peer_name: peer_name@,
            },
            CallState::Dialing { peer_uuid, peer_name } => CallStateView::Dialing {
                peer_uuid: peer_uuid@,
                peer_name: peer_name@,
            },
            CallState::Connected { peer_uuid, peer_name } => CallStateView::Connected {
                peer_uuid: peer_uuid@,
                peer_name: peer_name@,
            },
            CallState::Ended { reason } => CallStateView::Ended { reason: reason@ },
        }
    }
}

/// A call is in progress in every state but `Idle` and `Ended`.
pub open spec fn call_active(s: CallStateView) -> bool {
    !(s is Idle || s is Ended)
}

impl CallState {
    /// Whether a call is in progress (ringing, dialing or connected).
    pub fn is_active(&self) -> (r: bool)
        ensures
            r == call_active(self.deep_view()),
    {
        match self {
            CallState::Idle => false,
            CallState::Ended { .. } => false,
            _ => true,
        }
    }
}

/// Events the call subsystem emits toward the UI layer.
#[derive(Debug, Clone)]
pub enum CallEvent {
    /// Call state transitioned; carries the new coarse state.
    StateChanged(CallState),
    /// Remote peer muted / unmuted their mic.
    RemoteAudioState { enabled: bool },
}

} // verus!
