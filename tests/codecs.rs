use accesskit_c::{
    decode_custom_actions, decode_node_ids, encode_custom_actions, encode_node_ids,
    decode_c_string, decode_opt_node_id, encode_c_string, encode_opt_node_id, node_id, opt,
    text_position, text_selection, custom_action, CustomAction, NodeId, TextPosition,
    TextSelection,
};

fn id(v: u128) -> NodeId {
    NodeId::new(v).unwrap()
}

#[test]
fn node_id_zero_is_absent() {
    assert!(NodeId::new(0).is_none());
    assert_eq!(node_id([0u8; 16]).to_node_id(), None);
}

#[test]
fn node_id_bytes_are_little_endian() {
    let b = node_id::from_node_id(id(0x0102));
    let mut expected = [0u8; 16];
    expected[0] = 0x02;
    expected[1] = 0x01;
    assert_eq!(b.0, expected);
}

#[test]
fn node_id_round_trips_at_boundaries() {
    for v in [1u128, 2, 255, 256, u64::MAX as u128, u128::MAX, u128::MAX - 1, 1u128 << 127] {
        let b = node_id::from_node_id(id(v));
        assert_eq!(b.0, v.to_le_bytes());
        assert_eq!(b.to_node_id().unwrap().get(), v);
    }
}

#[test]
fn node_id_new_from_u64() {
    let absent = node_id::accesskit_node_id_new(0);
    assert!(!absent.has_value);
    assert_eq!(absent.value.0, [0u8; 16]);
    let present = node_id::accesskit_node_id_new(u64::MAX);
    assert!(present.has_value);
    assert_eq!(present.value.0, (u64::MAX as u128).to_le_bytes());
}

#[test]
fn optional_node_id_round_trip() {
    let e = encode_opt_node_id(Some(id(42)));
    assert!(e.has_value);
    assert_eq!(decode_opt_node_id(&e), Some(id(42)));
    let e = encode_opt_node_id(None);
    assert!(!e.has_value);
    assert_eq!(decode_opt_node_id(&e), None);
    let zero_present = opt { has_value: true, value: node_id([0u8; 16]) };
    assert_eq!(decode_opt_node_id(&zero_present), None);
}

#[test]
fn optional_scalars_round_trip() {
    for v in [0usize, 1, usize::MAX] {
        let e = opt::from_option(Some(v), 0);
        assert!(e.has_value);
        assert_eq!(e.into_option(), Some(v));
    }
    let e = opt::from_option(None::<usize>, 0);
    assert!(!e.has_value);
    assert_eq!(e.into_option(), None);
    let e = opt::from_option(Some(false), false);
    assert!(e.has_value);
    assert_eq!(e.into_option(), Some(false));
    let e = opt::from_option(Some(0u32), 0);
    assert_eq!(e.into_option(), Some(0u32));
    let e = opt::from_option(Some((-0.0f64).to_bits()), 0);
    assert_eq!(f64::from_bits(e.into_option().unwrap()).to_bits(), (-0.0f64).to_bits());
    let e = opt::from_option(Some(accesskit::Invalid::Grammar), accesskit::Invalid::True);
    assert_eq!(e.into_option(), Some(accesskit::Invalid::Grammar));
    let e = opt::from_option(None, accesskit::Invalid::True);
    assert_eq!(e.into_option(), None);
}

#[test]
fn c_string_encoding() {
    assert_eq!(encode_c_string("OK"), Some(vec![b'O', b'K', 0]));
    assert_eq!(encode_c_string(""), Some(vec![0]));
    assert_eq!(encode_c_string("a\0b"), None);
    assert_eq!(encode_c_string("é"), Some(vec![0xc3, 0xa9, 0]));
}

#[test]
fn c_string_decoding() {
    assert_eq!(decode_c_string(&[b'O', b'K', 0]), "OK");
    assert_eq!(decode_c_string(&[b'a', 0, b'b', 0]), "a");
    assert_eq!(decode_c_string(&[0]), "");
    assert_eq!(decode_c_string(&[b'x', b'y']), "xy");
    assert_eq!(decode_c_string(&[0xff, b'a', 0]), "\u{FFFD}a");
}

#[test]
fn c_string_round_trip() {
    for s in ["", "OK", "héllo wörld", "日本語", "\u{1F600}"] {
        let b = encode_c_string(s).unwrap();
        assert_eq!(decode_c_string(&b), s);
    }
}

#[test]
fn text_selection_round_trip() {
    let s = TextSelection {
        anchor: TextPosition { node: id(7), character_index: 3 },
        focus: TextPosition { node: id(u128::MAX), character_index: usize::MAX },
    };
    let b = text_selection::from_selection(s);
    assert_eq!(b.anchor.node.0, 7u128.to_le_bytes());
    assert_eq!(b.focus.character_index, usize::MAX);
    assert_eq!(b.to_selection(), Some(s));
}

#[test]
fn text_position_with_zero_node_is_absent() {
    let p = text_position { node: node_id([0u8; 16]), character_index: 1 };
    assert_eq!(p.to_position(), None);
    let s = text_selection {
        anchor: text_position::from_position(TextPosition { node: id(1), character_index: 0 }),
        focus: p,
    };
    assert_eq!(s.to_selection(), None);
}

#[test]
fn custom_action_round_trip() {
    let a = CustomAction { id: -5, description: "Reorder".to_string() };
    let b = custom_action::from_action(&a);
    assert_eq!(b.id, -5);
    assert_eq!(b.description, Some(b"Reorder\0".to_vec()));
    let back = b.to_action();
    assert_eq!(back.id, -5);
    assert_eq!(back.description, "Reorder");
}

#[test]
fn custom_action_with_nul_has_null_description() {
    let a = CustomAction { id: 1, description: "a\0b".to_string() };
    let b = custom_action::from_action(&a);
    assert_eq!(b.description, None);
    assert_eq!(b.to_action().description, "");
}

#[test]
fn node_id_sequence_round_trip() {
    let ids = vec![id(1), id(u128::MAX), id(5), id(1)];
    let b = encode_node_ids(&ids);
    assert_eq!(b.len(), 4);
    assert_eq!(b[1].0, u128::MAX.to_le_bytes());
    assert_eq!(decode_node_ids(&b), ids);
    assert_eq!(decode_node_ids(&vec![]), vec![]);
}

#[test]
fn node_id_sequence_skips_zero_entries() {
    let b = vec![node_id::from_node_id(id(3)), node_id([0u8; 16]), node_id::from_node_id(id(4))];
    assert_eq!(decode_node_ids(&b), vec![id(3), id(4)]);
}

#[test]
fn custom_action_array_round_trip() {
    let actions = vec![
        CustomAction { id: 1, description: "Move up".to_string() },
        CustomAction { id: 2, description: String::new() },
    ];
    let b = encode_custom_actions(&actions);
    assert_eq!(b.len(), 2);
    assert_eq!(b[0].description, Some(b"Move up\0".to_vec()));
    assert_eq!(b[1].description, Some(vec![0]));
    let back = decode_custom_actions(&b);
    assert_eq!(back.len(), 2);
    assert_eq!((back[0].id, back[0].description.as_str()), (1, "Move up"));
    assert_eq!((back[1].id, back[1].description.as_str()), (2, ""));
}
