use accesskit::Action;
use accesskit_c::{
    action_data, action_request, node_id, opt, ActionData, ActionRequest, NodeId, TextPosition,
    TextSelection,
};

fn id(v: u128) -> NodeId {
    NodeId::new(v).unwrap()
}

fn round_trip(d: ActionData) -> ActionData {
    action_data::from_data(d).to_data().unwrap()
}

#[test]
fn set_text_selection_request_round_trip() {
    let sel = TextSelection {
        anchor: TextPosition { node: id(10), character_index: 4 },
        focus: TextPosition { node: id(20), character_index: 17 },
    };
    let request = ActionRequest {
        action: Action::SetTextSelection,
        target: id(10),
        data: Some(ActionData::SetTextSelection(sel)),
    };
    let b = action_request::from_request(request);
    assert_eq!(b.action, Action::SetTextSelection);
    assert_eq!(b.target.0, 10u128.to_le_bytes());
    assert!(b.data.has_value);
    match &b.data.value {
        action_data::SetTextSelection(s) => {
            assert_eq!(s.anchor.character_index, 4);
            assert_eq!(s.focus.character_index, 17);
            assert_eq!(s.anchor.node.0, 10u128.to_le_bytes());
            assert_eq!(s.focus.node.0, 20u128.to_le_bytes());
        },
        other => panic!("unexpected payload {:?}", other),
    }
    let back = b.to_request().unwrap();
    assert_eq!(back.action, Action::SetTextSelection);
    assert_eq!(back.target, id(10));
    match back.data {
        Some(ActionData::SetTextSelection(s)) => assert_eq!(s, sel),
        other => panic!("unexpected payload {:?}", other),
    }
}

#[test]
fn payloads_round_trip() {
    assert!(matches!(round_trip(ActionData::CustomAction(-3)), ActionData::CustomAction(-3)));
    assert!(matches!(round_trip(ActionData::CustomAction(i32::MAX)), ActionData::CustomAction(i32::MAX)));
    match round_trip(ActionData::Value("new text".to_string())) {
        ActionData::Value(s) => assert_eq!(s, "new text"),
        other => panic!("unexpected payload {:?}", other),
    }
    match round_trip(ActionData::Value(String::new())) {
        ActionData::Value(s) => assert_eq!(s, ""),
        other => panic!("unexpected payload {:?}", other),
    }
    match round_trip(ActionData::NumericValue((-1.5f64).to_bits())) {
        ActionData::NumericValue(v) => assert_eq!(f64::from_bits(v), -1.5),
        other => panic!("unexpected payload {:?}", other),
    }
    let r = accesskit::Rect { x0: 1.0, y0: 2.0, x1: 3.0, y1: 4.0 };
    match round_trip(ActionData::ScrollTargetRect(r)) {
        ActionData::ScrollTargetRect(v) => assert_eq!(v, r),
        other => panic!("unexpected payload {:?}", other),
    }
    let p = accesskit::Point { x: -5.0, y: 6.0 };
    assert!(matches!(round_trip(ActionData::ScrollToPoint(p)), ActionData::ScrollToPoint(q) if q == p));
    assert!(matches!(round_trip(ActionData::SetScrollOffset(p)), ActionData::SetScrollOffset(q) if q == p));
}

#[test]
fn value_with_nul_crosses_as_null() {
    let b = action_data::from_data(ActionData::Value("a\0b".to_string()));
    assert!(matches!(b, action_data::Value(None)));
    assert!(b.to_data().is_none());
}

#[test]
fn value_payload_is_a_boundary_string() {
    let b = action_data::from_data(ActionData::Value("OK".to_string()));
    assert!(matches!(&b, action_data::Value(Some(v)) if v == &b"OK\0".to_vec()));
}

#[test]
fn request_without_payload() {
    let b = action_request::from_request(ActionRequest { action: Action::Focus, target: id(3), data: None });
    assert!(!b.data.has_value);
    let back = b.to_request().unwrap();
    assert_eq!(back.action, Action::Focus);
    assert_eq!(back.target, id(3));
    assert!(back.data.is_none());
}

#[test]
fn request_with_zero_target_is_unreadable() {
    let b = action_request {
        action: Action::Default,
        target: node_id([0u8; 16]),
        data: opt { has_value: false, value: action_data::CustomAction(0) },
    };
    assert!(b.to_request().is_none());
}
