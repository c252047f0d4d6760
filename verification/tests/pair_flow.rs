use signalui::pair_flow::{pair_outcome, qr_side, PairOutcome, QrResult};

#[test]
fn qr_side_results() {
    assert_eq!(qr_side(Some(QrResult::Rendered)), Ok(()));
    assert_eq!(qr_side(Some(QrResult::Failed("disk full".to_string()))), Err("disk full".to_string()));
    assert_eq!(qr_side(None), Err("provisioning URL channel cancelled".to_string()));
}

#[test]
fn outcome_of_an_attempt() {
    assert!(matches!(pair_outcome::<u8>(None, 50), PairOutcome::Timeout(50)));
    match pair_outcome::<u8>(Some((Err("no provisioning message received".to_string()), Ok(()))), 5) {
        PairOutcome::Failed(m) => assert!(m.contains("no provisioning message received")),
        other => panic!("unexpected {other:?}"),
    }
    match pair_outcome(Some((Ok(1u8), Err("disk full".to_string()))), 5) {
        PairOutcome::Failed(m) => assert_eq!(m, "qr handler: disk full"),
        other => panic!("unexpected {other:?}"),
    }
    match pair_outcome(Some((Ok(1u8), Err("provisioning URL channel cancelled".to_string()))), 5) {
        PairOutcome::Failed(m) => assert!(m.contains("cancelled") || m.contains("qr handler")),
        other => panic!("unexpected {other:?}"),
    }
    assert!(matches!(pair_outcome(Some((Ok(7u8), Ok(()))), 5), PairOutcome::Success(7)));
}
