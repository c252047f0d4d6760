use signalui::provisioning::error::ProvisioningError;
use signalui::provisioning::flow::{begin_linking, on_link_event, url_state, LinkEvent, PROVISIONING_TIMEOUT_SECS};
use signalui::provisioning::qr::{generate_qr_svg, qr_outcome};
use signalui::provisioning::state::ProvisioningState;

#[test]
fn errors_display_correctly() {
    assert_eq!(ProvisioningError::Timeout(120).message(), "provisioning timed out after 120 seconds");
    assert_eq!(ProvisioningError::Cancelled.message(), "provisioning was cancelled");
    assert_eq!(ProvisioningError::AlreadyInProgress.message(), "already provisioning");
}

#[test]
fn other_errors_display_with_their_detail() {
    assert_eq!(
        ProvisioningError::ConnectionFailed("reset".to_string()).message(),
        "websocket connection failed: reset"
    );
    assert_eq!(
        ProvisioningError::QrGenerationFailed("data too long".to_string()).message(),
        "failed to generate QR code: data too long"
    );
    assert_eq!(ProvisioningError::ProvisioningFailed("x".to_string()).message(), "provisioning failed: x");
    assert_eq!(ProvisioningError::StoreError("locked".to_string()).message(), "store error: locked");
    assert_eq!(ProvisioningError::Timeout(0).message(), "provisioning timed out after 0 seconds");
}

#[test]
fn terminal_states() {
    assert!(!ProvisioningState::Idle.is_terminal());
    assert!(!ProvisioningState::Connecting.is_terminal());
    assert!(!ProvisioningState::WaitingForScan { qr_code_svg: String::new() }.is_terminal());
    assert!(!ProvisioningState::Provisioning.is_terminal());
    assert!(ProvisioningState::Registered { device_name: String::new() }.is_terminal());
    assert!(ProvisioningState::Error { message: String::new() }.is_terminal());
}

#[test]
fn active_states() {
    assert!(!ProvisioningState::Idle.is_active());
    assert!(ProvisioningState::Connecting.is_active());
    assert!(ProvisioningState::WaitingForScan { qr_code_svg: String::new() }.is_active());
    assert!(ProvisioningState::Provisioning.is_active());
    assert!(!ProvisioningState::Registered { device_name: String::new() }.is_active());
    assert!(!ProvisioningState::Error { message: String::new() }.is_active());
}

#[test]
fn generates_valid_svg() {
    let url = "sgnl://linkdevice?uuid=test-uuid&pub_key=dGVzdC1rZXk";
    let svg = generate_qr_svg(url).unwrap();
    assert!(svg.starts_with("<?xml"));
    assert!(svg.contains("<svg"));
    assert!(svg.contains("</svg>"));
}

#[test]
fn svg_uses_correct_colors() {
    let url = "sgnl://linkdevice?uuid=test-uuid&pub_key=dGVzdC1rZXk";
    let svg = generate_qr_svg(url).unwrap();
    assert!(svg.contains("#ffffff"));
    assert!(svg.contains("#1a1a2e"));
}

#[test]
fn generates_different_qr_for_different_urls() {
    let svg1 = generate_qr_svg("sgnl://linkdevice?uuid=aaa&pub_key=bbb").unwrap();
    let svg2 = generate_qr_svg("sgnl://linkdevice?uuid=ccc&pub_key=ddd").unwrap();
    assert_ne!(svg1, svg2);
}

#[test]
fn handles_empty_input() {
    let result = generate_qr_svg("");
    assert!(result.is_ok());
}

#[test]
fn too_long_data_fails_qr_generation() {
    let url = "x".repeat(5000);
    match generate_qr_svg(&url) {
        Err(ProvisioningError::QrGenerationFailed(m)) => assert_eq!(m, "data too long"),
        other => panic!("expected QrGenerationFailed, got {other:?}"),
    }
}

#[test]
fn qr_outcome_maps_failures() {
    assert_eq!(qr_outcome(Ok("<svg/>".to_string())).unwrap(), "<svg/>");
    match qr_outcome(Err("bad".to_string())) {
        Err(ProvisioningError::QrGenerationFailed(m)) => assert_eq!(m, "bad"),
        other => panic!("unexpected {other:?}"),
    }
}

#[test]
fn active_attempt_refuses_a_second_start() {
    assert!(matches!(begin_linking(&ProvisioningState::Connecting), Err(ProvisioningError::AlreadyInProgress)));
    assert!(matches!(
        begin_linking(&ProvisioningState::WaitingForScan { qr_code_svg: "s".to_string() }),
        Err(ProvisioningError::AlreadyInProgress)
    ));
    assert!(matches!(begin_linking(&ProvisioningState::Provisioning), Err(ProvisioningError::AlreadyInProgress)));
}

#[test]
fn idle_and_error_may_retry() {
    assert!(matches!(begin_linking(&ProvisioningState::Idle), Ok(ProvisioningState::Connecting)));
    assert!(matches!(
        begin_linking(&ProvisioningState::Error { message: "x".to_string() }),
        Ok(ProvisioningState::Connecting)
    ));
    assert!(matches!(
        begin_linking(&ProvisioningState::Registered { device_name: "d".to_string() }),
        Ok(ProvisioningState::Connecting)
    ));
}

#[test]
fn linking_success_publishes_provisioning_then_registered() {
    let step = on_link_event("SignalUI Desktop", &LinkEvent::Linked);
    assert_eq!(step.published.len(), 2);
    assert!(matches!(step.published[0], ProvisioningState::Provisioning));
    match &step.published[1] {
        ProvisioningState::Registered { device_name } => assert_eq!(device_name, "SignalUI Desktop"),
        other => panic!("unexpected {other:?}"),
    }
    assert!(matches!(step.finished, Some(Ok(()))));
}

#[test]
fn linking_failure_publishes_the_error_text() {
    let step = on_link_event("d", &LinkEvent::LinkFailed("no provisioning message received".to_string()));
    assert_eq!(step.published.len(), 2);
    match &step.published[1] {
        ProvisioningState::Error { message } => assert_eq!(message, "no provisioning message received"),
        other => panic!("unexpected {other:?}"),
    }
    match step.finished {
        Some(Err(ProvisioningError::ProvisioningFailed(m))) => assert_eq!(m, "no provisioning message received"),
        other => panic!("unexpected {other:?}"),
    }
}

#[test]
fn timeout_and_cancel_become_errors() {
    let step = on_link_event("d", &LinkEvent::TimedOut);
    match &step.published[0] {
        ProvisioningState::Error { message } => assert_eq!(message, "timed out after 120s"),
        other => panic!("unexpected {other:?}"),
    }
    assert!(matches!(step.finished, Some(Err(ProvisioningError::Timeout(120)))));
    assert_eq!(PROVISIONING_TIMEOUT_SECS, 120);

    let step = on_link_event("d", &LinkEvent::Cancelled);
    match &step.published[0] {
        ProvisioningState::Error { message } => assert_eq!(message, "cancelled by user"),
        other => panic!("unexpected {other:?}"),
    }
    assert!(matches!(step.finished, Some(Err(ProvisioningError::Cancelled))));
}

#[test]
fn store_failure_and_closed_channel() {
    let step = on_link_event("d", &LinkEvent::StoreFailed("bad passphrase".to_string()));
    assert_eq!(step.published.len(), 1);
    match &step.published[0] {
        ProvisioningState::Error { message } => assert_eq!(message, "store error: bad passphrase"),
        other => panic!("unexpected {other:?}"),
    }
    assert!(!step.published[0].is_active());
    match step.finished {
        Some(Err(ProvisioningError::StoreError(m))) => assert_eq!(m, "bad passphrase"),
        other => panic!("unexpected {other:?}"),
    }
    let step = on_link_event("d", &LinkEvent::UrlChannelClosed);
    assert!(step.published.is_empty());
    assert!(step.finished.is_none());
}

#[test]
fn url_shows_the_qr_code() {
    let step = on_link_event("d", &LinkEvent::UrlReceived("sgnl://linkdevice?uuid=a&pub_key=b".to_string()));
    assert_eq!(step.published.len(), 1);
    match &step.published[0] {
        ProvisioningState::WaitingForScan { qr_code_svg } => assert!(qr_code_svg.contains("<svg")),
        other => panic!("unexpected {other:?}"),
    }
    assert!(step.finished.is_none());
    match url_state(&"y".repeat(5000)) {
        ProvisioningState::Error { message } => assert_eq!(message, "failed to generate QR code: data too long"),
        other => panic!("unexpected {other:?}"),
    }
}
