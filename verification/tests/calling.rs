use signalui::calling::bridge::{
    current_peer, handle_call_state, parse_recipient, plan_command, respond_without_engine, send_signaling,
    ActiveCall, CallCommand, EngineRequest, EngineState,
};
use signalui::calling::signaling::{
    from_call_message, to_call_message, BlobProto, CallMediaType, CallMessage, Hangup, HangupProto, HangupType,
    OfferProto, SignalingMapError, SignalingMessage,
};
use signalui::calling::{CallDirection, CallState};

const PEER: &str = "01234567-89ab-cdef-0123-456789abcdef";
const PEER_VALUE: u128 = 0x0123_4567_89ab_cdef_0123_4567_89ab_cdef;

fn empty() -> CallMessage {
    CallMessage {
        offer: None,
        answer: None,
        ice_update: vec![],
        hangup: None,
        busy: None,
        busy_present: false,
        has_opaque: false,
    }
}

#[test]
fn busy_round_trips() {
    let mut cm = empty();
    cm.busy = Some(42);
    cm.busy_present = true;
    let (id, msg) = from_call_message(&cm).unwrap().unwrap();
    assert_eq!(id, 42);
    assert!(matches!(msg, SignalingMessage::Busy));
    let back = to_call_message(id, &msg);
    assert_eq!(back.busy, Some(42));
}

#[test]
fn hangup_type_maps_both_ways() {
    let mut cm = empty();
    cm.hangup = Some(HangupProto { id: Some(7), hangup_type: Some(0), device_id: None });
    let (id, msg) = from_call_message(&cm).unwrap().unwrap();
    assert_eq!(id, 7);
    let back = to_call_message(id, &msg);
    let h = back.hangup.unwrap();
    assert_eq!(h.id, Some(7));
    assert_eq!(h.hangup_type, Some(0));
}

#[test]
fn opaque_only_call_message_is_ignored() {
    let mut cm = empty();
    cm.has_opaque = true;
    assert!(from_call_message(&cm).unwrap().is_none());
}

#[test]
fn offer_round_trips_through_call_message() {
    let mut cm = empty();
    cm.offer = Some(OfferProto { id: Some(0xDEAD_BEEF), offer_type: Some(0), opaque: Some(vec![1, 2, 3, 4]) });
    let (id, msg) = from_call_message(&cm).unwrap().unwrap();
    assert_eq!(id, 0xDEAD_BEEF);
    match &msg {
        SignalingMessage::Offer { media, opaque } => {
            assert_eq!(*media, CallMediaType::Audio);
            assert_eq!(opaque, &vec![1, 2, 3, 4]);
        }
        other => panic!("unexpected {other:?}"),
    }
    let back = to_call_message(id, &msg);
    let o = back.offer.unwrap();
    assert_eq!(o.id, Some(0xDEAD_BEEF));
    assert_eq!(o.offer_type, Some(0));
    assert_eq!(o.opaque, Some(vec![1, 2, 3, 4]));
}

#[test]
fn answer_without_opaque_is_an_error() {
    let mut cm = empty();
    cm.answer = Some(BlobProto { id: Some(1), opaque: None });
    assert_eq!(from_call_message(&cm).unwrap_err(), SignalingMapError::MissingOpaque);
    let mut cm = empty();
    cm.hangup = Some(HangupProto { id: Some(1), hangup_type: Some(9), device_id: None });
    assert_eq!(from_call_message(&cm).unwrap_err(), SignalingMapError::BadHangupType);
}

#[test]
fn hangup_variants_carry_their_device() {
    let h = Hangup::from_type_and_device_id(HangupType::BusyOnAnotherDevice, 3);
    assert_eq!(h, Hangup::BusyOnAnotherDevice(3));
    assert_eq!(h.to_type_and_device_id(), (HangupType::BusyOnAnotherDevice, Some(3)));
    assert_eq!(HangupType::from_i32(4), Some(HangupType::NeedPermission));
    assert_eq!(HangupType::from_i32(5), None);
}

#[test]
fn call_state_activity() {
    assert!(!CallState::Idle.is_active());
    assert!(!CallState::Ended { reason: "x".to_string() }.is_active());
    assert!(CallState::Ringing { peer_uuid: "a".to_string(), peer_name: "b".to_string() }.is_active());
    assert!(CallState::Dialing { peer_uuid: "a".to_string(), peer_name: "b".to_string() }.is_active());
    assert!(CallState::Connected { peer_uuid: "a".to_string(), peer_name: "b".to_string() }.is_active());
}

#[test]
fn engine_states_map_to_ui_states() {
    let ringing = CallState::Ringing { peer_uuid: PEER.to_uppercase(), peer_name: "Alice".to_string() };
    assert_eq!(
        handle_call_state(&ringing, &EngineState::Connected),
        CallState::Connected { peer_uuid: PEER.to_string(), peer_name: "Alice".to_string() }
    );
    assert_eq!(
        handle_call_state(&ringing, &EngineState::Connecting),
        CallState::Dialing { peer_uuid: PEER.to_string(), peer_name: "Alice".to_string() }
    );
    assert_eq!(
        handle_call_state(&ringing, &EngineState::Ended("Timeout".to_string())),
        CallState::Ended { reason: "Timeout".to_string() }
    );
    assert_eq!(handle_call_state(&ringing, &EngineState::Concluded), CallState::Idle);
    assert_eq!(handle_call_state(&CallState::Idle, &EngineState::Ringing), CallState::Idle);
    let bad = CallState::Dialing { peer_uuid: "nope".to_string(), peer_name: "x".to_string() };
    assert_eq!(handle_call_state(&bad, &EngineState::Connected), CallState::Idle);
    assert_eq!(current_peer(&ringing), Some((PEER_VALUE, "Alice".to_string())));
}

#[test]
fn start_call_places_an_outgoing_call() {
    let cmd = CallCommand::StartCall { peer_uuid: PEER_VALUE, peer_name: "Bob".to_string() };
    let plan = plan_command(&cmd, None, 77);
    match &plan.request {
        EngineRequest::PlaceCall { peer_id, call_id } => {
            assert_eq!(peer_id, PEER);
            assert_eq!(*call_id, 77);
        }
        other => panic!("unexpected {other:?}"),
    }
    let a = plan.active.unwrap();
    assert_eq!(a.call_id, 77);
    assert_eq!(a.direction, CallDirection::Outgoing);
    assert_eq!(plan.state, Some(CallState::Dialing { peer_uuid: PEER.to_string(), peer_name: "Bob".to_string() }));
}

#[test]
fn accept_decline_and_hangup() {
    let active = ActiveCall { call_id: 5, peer_uuid: 1, peer_name: "p".to_string(), direction: CallDirection::Incoming };
    let plan = plan_command(&CallCommand::Accept, Some(active.clone()), 0);
    assert!(matches!(plan.request, EngineRequest::Accept { call_id: 5 }));
    assert!(plan.state.is_none());
    let plan = plan_command(&CallCommand::Accept, None, 0);
    assert!(matches!(plan.request, EngineRequest::Nothing));
    let plan = plan_command(&CallCommand::Decline, Some(active.clone()), 0);
    assert!(matches!(plan.request, EngineRequest::HangUp));
    assert!(plan.active.is_none());
    assert_eq!(plan.state, Some(CallState::Idle));
    let plan = plan_command(&CallCommand::Hangup, Some(active), 0);
    assert_eq!(plan.state, Some(CallState::Idle));
}

#[test]
fn incoming_offer_rings() {
    let mut cm = empty();
    cm.offer = Some(OfferProto { id: Some(9), offer_type: Some(0), opaque: Some(vec![1]) });
    let cmd = CallCommand::IncomingCallMessage { sender_uuid: PEER_VALUE, sender_device_id: 2, call_message: cm };
    let plan = plan_command(&cmd, None, 0);
    assert!(matches!(plan.request, EngineRequest::Deliver { call_id: 9, sender_device_id: 2, .. }));
    assert_eq!(plan.state, Some(CallState::Ringing { peer_uuid: PEER.to_string(), peer_name: PEER.to_string() }));
    assert_eq!(plan.active.unwrap().direction, CallDirection::Incoming);

    let mut cm = empty();
    cm.has_opaque = true;
    let cmd = CallCommand::IncomingCallMessage { sender_uuid: PEER_VALUE, sender_device_id: 2, call_message: cm };
    let plan = plan_command(&cmd, None, 0);
    assert!(matches!(plan.request, EngineRequest::Nothing));
}

#[test]
fn without_an_engine_calls_end_at_once() {
    let cmd = CallCommand::StartCall { peer_uuid: 1, peer_name: "x".to_string() };
    assert_eq!(
        respond_without_engine(&cmd),
        Some(CallState::Ended { reason: "voice calls are not available in this build".to_string() })
    );
    assert_eq!(respond_without_engine(&CallCommand::Hangup), None);
}

#[test]
fn outbound_signalling_needs_a_uuid_recipient() {
    let (to, cm) = send_signaling(PEER, 3, &SignalingMessage::Busy).unwrap();
    assert_eq!(to, PEER_VALUE);
    assert_eq!(cm.busy, Some(3));
    assert!(send_signaling("not-a-uuid", 3, &SignalingMessage::Busy).is_none());
    assert_eq!(parse_recipient(PEER), Ok(PEER_VALUE));
    assert_eq!(parse_recipient("zz"), Err("not a valid recipient uuid: zz".to_string()));
}

#[test]
fn recipient_uuid_forms() {
    let v = 0x67e5504410b1426f9247bb680e5fe0c8u128;
    assert_eq!(parse_recipient("67e55044-10b1-426f-9247-bb680e5fe0c8"), Ok(v));
    assert_eq!(parse_recipient("67E55044-10B1-426F-9247-BB680E5FE0C8"), Ok(v));
    assert_eq!(parse_recipient("67e5504410b1426f9247bb680e5fe0c8"), Ok(v));
    assert_eq!(parse_recipient("{67e55044-10b1-426f-9247-bb680e5fe0c8}"), Ok(v));
    assert_eq!(parse_recipient("URN:uuid:67e55044-10b1-426f-9247-bb680e5fe0c8"), Ok(v));
    assert!(parse_recipient("67e55044_10b1-426f-9247-bb680e5fe0c8").is_err());
    assert!(parse_recipient("67e5504410b1426f9247bb680e5fe0cg").is_err());
    assert!(parse_recipient("").is_err());
}
