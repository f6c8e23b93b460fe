use accesskit::Role;
use accesskit_c::{
    decode_opt_tree, encode_opt_node_id, encode_opt_tree, node, node_builder, node_class_set,
    node_id, opt, tree, tree_update, unix_adapter, NodeId, StringProperty, Tree,
};

fn id(v: u128) -> NodeId {
    NodeId::new(v).unwrap()
}

fn named(name: &str, classes: &mut node_class_set) -> node {
    let mut b = node_builder::accesskit_node_builder_new(Role::Button);
    b.properties_mut().set_string(StringProperty::Name, name.to_string());
    b.accesskit_node_builder_build(classes)
}

fn name_of(n: &node) -> String {
    n.properties().get_string(StringProperty::Name).unwrap().clone()
}

fn no_tree() -> opt<tree> {
    encode_opt_tree(None)
}

#[test]
fn null_node_handle_is_dropped() {
    let mut classes = node_class_set::accesskit_node_class_set_new();
    let update = tree_update {
        ids: vec![
            node_id::from_node_id(id(1)),
            node_id::from_node_id(id(2)),
            node_id::from_node_id(id(3)),
        ],
        nodes: vec![Some(named("one", &mut classes)), None, Some(named("three", &mut classes))],
        tree: no_tree(),
        focus: encode_opt_node_id(None),
    };
    let u = update.into_tree_update();
    assert_eq!(u.nodes.len(), 2);
    assert_eq!(u.nodes[0].0, id(1));
    assert_eq!(name_of(&u.nodes[0].1), "one");
    assert_eq!(u.nodes[1].0, id(3));
    assert_eq!(name_of(&u.nodes[1].1), "three");
    assert_eq!(u.tree, None);
    assert_eq!(u.focus, None);
}

#[test]
fn zero_id_is_dropped() {
    let mut classes = node_class_set::accesskit_node_class_set_new();
    let update = tree_update {
        ids: vec![node_id::from_node_id(id(1)), node_id([0u8; 16]), node_id::from_node_id(id(3))],
        nodes: vec![
            Some(named("one", &mut classes)),
            Some(named("two", &mut classes)),
            Some(named("three", &mut classes)),
        ],
        tree: no_tree(),
        focus: encode_opt_node_id(None),
    };
    let u = update.into_tree_update();
    let kept: Vec<(u128, String)> = u.nodes.iter().map(|(i, n)| (i.get(), name_of(n))).collect();
    assert_eq!(kept, vec![(1, "one".to_string()), (3, "three".to_string())]);
}

#[test]
fn duplicate_ids_are_all_delivered_in_order() {
    let mut classes = node_class_set::accesskit_node_class_set_new();
    let update = tree_update {
        ids: vec![node_id::from_node_id(id(5)), node_id::from_node_id(id(5))],
        nodes: vec![Some(named("first", &mut classes)), Some(named("second", &mut classes))],
        tree: no_tree(),
        focus: encode_opt_node_id(Some(id(5))),
    };
    let u = update.into_tree_update();
    let kept: Vec<(u128, String)> = u.nodes.iter().map(|(i, n)| (i.get(), name_of(n))).collect();
    assert_eq!(kept, vec![(5, "first".to_string()), (5, "second".to_string())]);
    assert_eq!(u.focus, Some(id(5)));
}

#[test]
fn empty_update_carries_tree_and_focus() {
    let t = Tree { root: id(1), root_scroller: Some(id(2)) };
    let update = tree_update {
        ids: vec![],
        nodes: vec![],
        tree: encode_opt_tree(Some(t)),
        focus: encode_opt_node_id(Some(id(1))),
    };
    let u = update.into_tree_update();
    assert!(u.nodes.is_empty());
    assert_eq!(u.tree, Some(t));
    assert_eq!(u.focus, Some(id(1)));
}

#[test]
fn tree_new_has_no_root_scroller() {
    let t = tree::accesskit_tree_new(node_id::from_node_id(id(9)));
    assert!(!t.root_scroller.has_value);
    assert_eq!(t.to_tree(), Some(Tree { root: id(9), root_scroller: None }));
    let zero_root = tree::accesskit_tree_new(node_id([0u8; 16]));
    assert_eq!(zero_root.to_tree(), None);
}

#[test]
fn tree_round_trip() {
    for t in [
        Tree { root: id(1), root_scroller: None },
        Tree { root: id(u128::MAX), root_scroller: Some(id(7)) },
    ] {
        let b = tree::from_tree(t);
        assert_eq!(b.to_tree(), Some(t));
        assert_eq!(decode_opt_tree(&encode_opt_tree(Some(t))), Some(t));
    }
    assert_eq!(decode_opt_tree(&encode_opt_tree(None)), None);
}

#[test]
fn unix_adapter_needs_state_source_and_handler() {
    assert!(unix_adapter::accesskit_unix_adapter_new(b"app\0", b"tk\0", b"1.0\0", false, true).is_none());
    assert!(unix_adapter::accesskit_unix_adapter_new(b"app\0", b"tk\0", b"1.0\0", true, false).is_none());
    let a = unix_adapter::accesskit_unix_adapter_new(b"app\0", b"tk\0", b"1.0\0", true, true).unwrap();
    assert_eq!(a.app_name, "app");
    assert_eq!(a.toolkit_name, "tk");
    assert_eq!(a.toolkit_version, "1.0");
    assert!(a.root_window_bounds.is_none());
}

#[test]
fn unix_adapter_bounds_and_update() {
    let mut a = unix_adapter::accesskit_unix_adapter_new(b"app\0", b"tk\0", b"1\0", true, true).unwrap();
    let outer = accesskit::Rect { x0: 0.0, y0: 0.0, x1: 100.0, y1: 50.0 };
    let inner = accesskit::Rect { x0: 2.0, y0: 20.0, x1: 98.0, y1: 48.0 };
    a.accesskit_unix_adapter_set_root_window_bounds(outer, inner);
    assert_eq!(a.root_window_bounds, Some((outer, inner)));
    let mut classes = node_class_set::accesskit_node_class_set_new();
    let update = tree_update {
        ids: vec![node_id::from_node_id(id(1))],
        nodes: vec![Some(named("root", &mut classes))],
        tree: encode_opt_tree(Some(Tree { root: id(1), root_scroller: None })),
        focus: encode_opt_node_id(None),
    };
    let u = a.accesskit_unix_adapter_update(update);
    assert_eq!(u.nodes.len(), 1);
    assert_eq!(u.tree, Some(Tree { root: id(1), root_scroller: None }));
    unix_adapter::accesskit_unix_adapter_free(a);
}
