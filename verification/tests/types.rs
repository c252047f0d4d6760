use signalui::messaging::types::{ReceiptKind, TypingAction};

#[test]
fn receipt_kind_from_proto() {
    assert_eq!(ReceiptKind::from_proto(0), ReceiptKind::Delivered);
    assert_eq!(ReceiptKind::from_proto(1), ReceiptKind::Read);
    assert_eq!(ReceiptKind::from_proto(2), ReceiptKind::Viewed);
    assert_eq!(ReceiptKind::from_proto(99), ReceiptKind::Delivered);
}

#[test]
fn typing_action_from_proto() {
    assert_eq!(TypingAction::from_proto(0), TypingAction::Started);
    assert_eq!(TypingAction::from_proto(1), TypingAction::Stopped);
    assert_eq!(TypingAction::from_proto(42), TypingAction::Started);
}

#[test]
fn receipt_kind_round_trips_through_wire_number() {
    for k in [ReceiptKind::Delivered, ReceiptKind::Read, ReceiptKind::Viewed] {
        assert_eq!(ReceiptKind::from_proto(k.to_proto()), k);
    }
    for a in [TypingAction::Started, TypingAction::Stopped] {
        assert_eq!(TypingAction::from_proto(a.to_proto()), a);
    }
}
