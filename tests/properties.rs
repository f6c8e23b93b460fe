use accesskit::{Action, DefaultActionVerb, Role, TextDecoration};
use accesskit_c::{
    node, node_builder, node_class_set, BoolProperty, ColorProperty, CoordsProperty,
    CustomAction, DecorationProperty, EnumProperty, EnumValue, FlagProperty, IndexProperty,
    LengthsProperty, NodeId, NodeIdProperty, NodeIdVecProperty, NumberProperty, StringProperty,
    TextPosition, TextSelection,
};

fn id(v: u128) -> NodeId {
    NodeId::new(v).unwrap()
}

#[test]
fn flags_set_and_clear() {
    let mut b = node_builder::accesskit_node_builder_new(Role::CheckBox);
    let p = b.properties_mut();
    assert!(!p.get_flag(FlagProperty::Hidden));
    p.set_flag(FlagProperty::Hidden);
    assert!(p.get_flag(FlagProperty::Hidden));
    assert!(!p.get_flag(FlagProperty::Bold));
    p.clear_flag(FlagProperty::Hidden);
    assert!(!p.get_flag(FlagProperty::Hidden));
}

#[test]
fn string_set_get_clear() {
    let mut b = node_builder::accesskit_node_builder_new(Role::Button);
    let p = b.properties_mut();
    assert_eq!(p.get_string(StringProperty::Name), None);
    p.set_string(StringProperty::Name, "OK".to_string());
    assert_eq!(p.get_string(StringProperty::Name).map(|s| s.as_str()), Some("OK"));
    assert_eq!(p.get_string(StringProperty::Description), None);
    p.set_string(StringProperty::Name, "Cancel".to_string());
    assert_eq!(p.get_string(StringProperty::Name).map(|s| s.as_str()), Some("Cancel"));
    p.clear_string(StringProperty::Name);
    assert_eq!(p.get_string(StringProperty::Name), None);
}

#[test]
fn empty_string_is_not_absent() {
    let mut b = node_builder::accesskit_node_builder_new(Role::TextField);
    assert_eq!(b.properties().get_string(StringProperty::Value), None);
    b.properties_mut().set_string(StringProperty::Value, String::new());
    assert_eq!(b.properties().get_string(StringProperty::Value).map(|s| s.as_str()), Some(""));
    let encoded = accesskit_c::encode_c_string(b.properties().get_string(StringProperty::Value).unwrap());
    assert_eq!(encoded, Some(vec![0]));
}

#[test]
fn scalar_properties_set_get_clear() {
    let mut b = node_builder::accesskit_node_builder_new(Role::Slider);
    let p = b.properties_mut();
    p.set_number(NumberProperty::NumericValue, 2.5f64.to_bits());
    p.set_number(NumberProperty::MinNumericValue, (-0.0f64).to_bits());
    p.set_index(IndexProperty::SizeOfSet, usize::MAX);
    p.set_index(IndexProperty::PositionInSet, 0);
    p.set_color(ColorProperty::BackgroundColor, 0xff00ff00);
    p.set_bool(BoolProperty::Expanded, false);
    p.set_node_id(NodeIdProperty::ActiveDescendant, id(9));
    p.set_decoration(DecorationProperty::Underline, TextDecoration::Wavy);
    assert_eq!(f64::from_bits(p.get_number(NumberProperty::NumericValue).unwrap()), 2.5);
    assert_eq!(p.get_number(NumberProperty::MinNumericValue), Some((-0.0f64).to_bits()));
    assert_eq!(p.get_number(NumberProperty::ScrollX), None);
    assert_eq!(p.get_index(IndexProperty::SizeOfSet), Some(usize::MAX));
    assert_eq!(p.get_index(IndexProperty::PositionInSet), Some(0));
    assert_eq!(p.get_color(ColorProperty::BackgroundColor), Some(0xff00ff00));
    assert_eq!(p.get_color(ColorProperty::ForegroundColor), None);
    assert_eq!(p.get_bool(BoolProperty::Expanded), Some(false));
    assert_eq!(p.get_bool(BoolProperty::Selected), None);
    assert_eq!(p.get_node_id(NodeIdProperty::ActiveDescendant), Some(id(9)));
    assert_eq!(p.get_decoration(DecorationProperty::Underline), Some(TextDecoration::Wavy));
    p.clear_bool(BoolProperty::Expanded);
    p.clear_index(IndexProperty::SizeOfSet);
    p.clear_node_id(NodeIdProperty::ActiveDescendant);
    p.clear_decoration(DecorationProperty::Underline);
    assert_eq!(p.get_bool(BoolProperty::Expanded), None);
    assert_eq!(p.get_index(IndexProperty::SizeOfSet), None);
    assert_eq!(p.get_node_id(NodeIdProperty::ActiveDescendant), None);
    assert_eq!(p.get_decoration(DecorationProperty::Underline), None);
}

#[test]
fn enum_properties_set_get_clear() {
    let mut b = node_builder::accesskit_node_builder_new(Role::Button);
    let p = b.properties_mut();
    p.set_enum(EnumValue::DefaultActionVerb(DefaultActionVerb::Click));
    p.set_enum(EnumValue::CheckedState(accesskit::CheckedState::Mixed));
    assert!(matches!(
        p.get_enum(EnumProperty::DefaultActionVerb),
        Some(EnumValue::DefaultActionVerb(DefaultActionVerb::Click))
    ));
    assert!(matches!(
        p.get_enum(EnumProperty::CheckedState),
        Some(EnumValue::CheckedState(accesskit::CheckedState::Mixed))
    ));
    assert!(p.get_enum(EnumProperty::Live).is_none());
    p.clear_enum(EnumProperty::CheckedState);
    assert!(p.get_enum(EnumProperty::CheckedState).is_none());
}

#[test]
fn pushes_keep_order() {
    let mut b = node_builder::accesskit_node_builder_new(Role::List);
    let p = b.properties_mut();
    for v in 1..=5u128 {
        p.push_node_id_vec(NodeIdVecProperty::Children, id(v));
    }
    let children: Vec<u128> = p
        .get_node_id_vec(NodeIdVecProperty::Children)
        .unwrap()
        .iter()
        .map(|i| i.get())
        .collect();
    assert_eq!(children, vec![1, 2, 3, 4, 5]);
    assert_eq!(p.get_node_id_vec(NodeIdVecProperty::Controls), None);
}

#[test]
fn bulk_sets_keep_sequences() {
    let mut b = node_builder::accesskit_node_builder_new(Role::InlineTextBox);
    let p = b.properties_mut();
    let ids = vec![id(3), id(1), id(2), id(1)];
    p.set_node_id_vec(NodeIdVecProperty::LabelledBy, ids.clone());
    assert_eq!(p.get_node_id_vec(NodeIdVecProperty::LabelledBy), Some(&ids));
    p.set_lengths(LengthsProperty::CharacterLengths, vec![1, 2, 0, 255]);
    assert_eq!(p.get_lengths(LengthsProperty::CharacterLengths), Some(&vec![1, 2, 0, 255]));
    p.set_lengths(LengthsProperty::WordLengths, vec![]);
    assert_eq!(p.get_lengths(LengthsProperty::WordLengths), Some(&vec![]));
    let widths: Vec<u32> = [1.5f32, 0.0, 7.25].iter().map(|f| f.to_bits()).collect();
    p.set_coords(CoordsProperty::CharacterWidths, widths.clone());
    assert_eq!(p.get_coords(CoordsProperty::CharacterWidths), Some(&widths));
    assert_eq!(p.get_coords(CoordsProperty::CharacterPositions), None);
    p.clear_node_id_vec(NodeIdVecProperty::LabelledBy);
    assert_eq!(p.get_node_id_vec(NodeIdVecProperty::LabelledBy), None);
}

#[test]
fn structured_properties() {
    let mut b = node_builder::accesskit_node_builder_new(Role::TextField);
    let p = b.properties_mut();
    let rect = accesskit::Rect { x0: 0.0, y0: 1.0, x1: 10.0, y1: 20.0 };
    p.set_bounds(rect);
    assert_eq!(p.get_bounds(), Some(rect));
    p.set_transform(accesskit::Affine::scale(2.0));
    assert_eq!(p.get_transform(), Some(&accesskit::Affine::scale(2.0)));
    let sel = TextSelection {
        anchor: TextPosition { node: id(4), character_index: 0 },
        focus: TextPosition { node: id(5), character_index: 2 },
    };
    p.set_text_selection(sel);
    assert_eq!(p.get_text_selection(), Some(sel));
    p.push_custom_action(CustomAction { id: 1, description: "first".to_string() });
    p.push_custom_action(CustomAction { id: 2, description: "second".to_string() });
    let actions = p.get_custom_actions().unwrap();
    assert_eq!(actions.len(), 2);
    assert_eq!((actions[0].id, actions[0].description.as_str()), (1, "first"));
    assert_eq!((actions[1].id, actions[1].description.as_str()), (2, "second"));
    p.clear_bounds();
    p.clear_transform();
    p.clear_text_selection();
    p.clear_custom_actions();
    assert_eq!(p.get_bounds(), None);
    assert!(p.get_transform().is_none());
    assert_eq!(p.get_text_selection(), None);
    assert!(p.get_custom_actions().is_none());
}

#[test]
fn boundary_text_selection_setter() {
    let mut b = node_builder::accesskit_node_builder_new(Role::TextField);
    let sel = TextSelection {
        anchor: TextPosition { node: id(4), character_index: 1 },
        focus: TextPosition { node: id(4), character_index: 6 },
    };
    b.accesskit_builder_set_text_selection(accesskit_c::text_selection::from_selection(sel));
    assert_eq!(b.properties().get_text_selection(), Some(sel));
}

#[test]
fn actions_add_remove_clear() {
    let mut b = node_builder::accesskit_node_builder_new(Role::Button);
    assert!(!b.accesskit_node_builder_supports_action(Action::Default));
    b.accesskit_node_builder_add_action(Action::Default);
    b.accesskit_node_builder_add_action(Action::Focus);
    b.accesskit_node_builder_add_action(Action::Default);
    assert!(b.accesskit_node_builder_supports_action(Action::Default));
    assert!(b.accesskit_node_builder_supports_action(Action::Focus));
    b.accesskit_node_builder_remove_action(Action::Default);
    assert!(!b.accesskit_node_builder_supports_action(Action::Default));
    assert!(b.accesskit_node_builder_supports_action(Action::Focus));
    b.accesskit_node_builder_clear_actions();
    assert!(!b.accesskit_node_builder_supports_action(Action::Focus));
}

#[test]
fn role_set_and_read() {
    let mut b = node_builder::accesskit_node_builder_new(Role::Button);
    assert_eq!(b.role(), Role::Button);
    b.accesskit_node_builder_set_role(Role::Link);
    assert_eq!(b.role(), Role::Link);
}

#[test]
fn built_node_matches_builder() {
    let mut classes = node_class_set::accesskit_node_class_set_new();
    let mut b = node_builder::accesskit_node_builder_new(Role::Button);
    b.properties_mut().set_string(StringProperty::Name, "OK".to_string());
    b.properties_mut().set_flag(FlagProperty::Default);
    b.properties_mut().push_node_id_vec(NodeIdVecProperty::Children, id(2));
    b.accesskit_node_builder_add_action(Action::Default);
    let n = b.accesskit_node_builder_build(&mut classes);
    assert_eq!(n.role(), Role::Button);
    assert!(n.accesskit_node_supports_action(Action::Default));
    assert!(!n.accesskit_node_supports_action(Action::Focus));
    assert_eq!(n.properties().get_string(StringProperty::Name).map(|s| s.as_str()), Some("OK"));
    assert!(n.properties().get_flag(FlagProperty::Default));
    assert_eq!(n.properties().get_node_id_vec(NodeIdVecProperty::Children), Some(&vec![id(2)]));
    assert_eq!(n.properties().get_string(StringProperty::Description), None);
    node::accesskit_node_free(n);
    node_class_set::accesskit_node_class_set_free(classes);
}

#[test]
fn nodes_of_one_structure_share_a_class() {
    let mut classes = node_class_set::accesskit_node_class_set_new();
    let make = |name: &str, classes: &mut node_class_set| {
        let mut b = node_builder::accesskit_node_builder_new(Role::Button);
        b.properties_mut().set_string(StringProperty::Name, name.to_string());
        b.accesskit_node_builder_add_action(Action::Default);
        b.accesskit_node_builder_add_action(Action::Focus);
        b.accesskit_node_builder_build(classes)
    };
    let a = make("a", &mut classes);
    let b = make("b", &mut classes);
    assert_eq!(a.class(), b.class());
    let mut other = node_builder::accesskit_node_builder_new(Role::Button);
    other.accesskit_node_builder_add_action(Action::Focus);
    other.accesskit_node_builder_add_action(Action::Default);
    other.properties_mut().set_string(StringProperty::Name, "c".to_string());
    let c = other.accesskit_node_builder_build(&mut classes);
    assert_eq!(c.class(), a.class());
    let d = node_builder::accesskit_node_builder_new(Role::Button).accesskit_node_builder_build(&mut classes);
    assert_ne!(d.class(), a.class());
    let e = node_builder::accesskit_node_builder_new(Role::Link).accesskit_node_builder_build(&mut classes);
    assert_ne!(e.class(), d.class());
}

#[test]
fn button_scenario_with_repeated_build_and_free() {
    let mut classes = node_class_set::accesskit_node_class_set_new();
    for _ in 0..10_000 {
        let mut b = node_builder::accesskit_node_builder_new(Role::Button);
        b.properties_mut().set_string(StringProperty::Name, "OK".to_string());
        b.properties_mut().set_enum(EnumValue::DefaultActionVerb(DefaultActionVerb::Click));
        b.accesskit_node_builder_add_action(Action::Default);
        let n = b.accesskit_node_builder_build(&mut classes);
        assert_eq!(n.role(), Role::Button);
        let name = n.properties().get_string(StringProperty::Name).unwrap();
        assert_eq!(accesskit_c::encode_c_string(name), Some(b"OK\0".to_vec()));
        assert!(matches!(
            n.properties().get_enum(EnumProperty::DefaultActionVerb),
            Some(EnumValue::DefaultActionVerb(DefaultActionVerb::Click))
        ));
        assert_eq!(n.class(), 0);
        node::accesskit_node_free(n);
    }
    let discarded = node_builder::accesskit_node_builder_new(Role::Button);
    node_builder::accesskit_node_builder_free(discarded);
    node_class_set::accesskit_node_class_set_free(classes);
}
