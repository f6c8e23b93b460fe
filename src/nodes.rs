//! Node builders, the immutable nodes they produce, and the class sets that
//! nodes with the same structure share.

use crate::engine::{same_action, same_role};
use crate::properties::{Properties, PropertiesView};
use crate::text::text_selection;
use vstd::prelude::*;

verus! {

/// What a sequence holds after a push: what it held, and the new item.
proof fn lemma_push_contains<T>(s: Seq<T>, v: T, x: T)
    ensures
        s.push(v).contains(x) <==> (s.contains(x) || x == v),
{
    if s.contains(x) {
        let k = choose|k: int| 0 <= k < s.len() && s[k] == x;
        assert(s.push(v)[k] == x);
    }
    if x == v {
        assert(s.push(v)[s.len() as int] == x);
    }
    if s.push(v).contains(x) {
        let k = choose|k: int| 0 <= k < s.push(v).len() && s.push(v)[k] == x;
        if k < s.len() {
            assert(s[k] == x);
        }
    }
}

/// Whether `x` is among the actions in `v`.
fn contains_action(v: &Vec<accesskit::Action>, x: &accesskit::Action) -> (r: bool)
    ensures
        r == v@.contains(*x),
{
    let mut i: usize = 0;
    while i < v.len()
        invariant
            0 <= i <= v@.len(),
            forall|k: int| 0 <= k < i ==> v@[k] != *x,
        decreases v@.len() - i,
    {
        if same_action(&v[i], x) {
            return true;
        }
        i = i + 1;
    }
    false
}

/// Whether every action in `a` is in `b`.
fn actions_within(a: &Vec<accesskit::Action>, b: &Vec<accesskit::Action>) -> (r: bool)
    ensures
        r == (forall|x: accesskit::Action| a@.contains(x) ==> b@.contains(x)),
{
    let mut i: usize = 0;
    while i < a.len()
        invariant
            0 <= i <= a@.len(),
            forall|k: int| 0 <= k < i ==> b@.contains(#[trigger] a@[k]),
        decreases a@.len() - i,
    {
        if !contains_action(b, &a[i]) {
            return false;
        }
        i = i + 1;
    }
    true
}

/// Whether two action lists hold the same actions.
fn same_actions(a: &Vec<accesskit::Action>, b: &Vec<accesskit::Action>) -> (r: bool)
    ensures
        r == (a@.to_set() == b@.to_set()),
{
    let r = actions_within(a, b) && actions_within(b, a);
    proof {
        if r {
            assert(a@.to_set() =~= b@.to_set());
        } else if a@.to_set() == b@.to_set() {
            assert forall|x: accesskit::Action| a@.contains(x) implies b@.contains(x) by {
                assert(a@.to_set().contains(x));
            }
            assert forall|x: accesskit::Action| b@.contains(x) implies a@.contains(x) by {
                assert(b@.to_set().contains(x));
            }
        }
    }
    r
}

/// Whether two flag sequences are equal.
fn same_bools(a: &Vec<bool>, b: &Vec<bool>) -> (r: bool)
    ensures
        r == (a@ == b@),
{
    if a.len() != b.len() {
        return false;
    }
    let mut i: usize = 0;
    while i < a.len()
        invariant
            a@.len() == b@.len(),
            0 <= i <= a@.len(),
            forall|k: int| 0 <= k < i ==> a@[k] == b@[k],
        decreases a@.len() - i,
    {
        if a[i] != b[i] {
            return false;
        }
        i = i + 1;
    }
    assert(a@ =~= b@);
    true
}

/// A copy of an action list.
fn copy_actions(v: &Vec<accesskit::Action>) -> (r: Vec<accesskit::Action>)
    ensures
        r@ == v@,
{
    let mut r: Vec<accesskit::Action> = Vec::new();
    let mut i: usize = 0;
    while i < v.len()
        invariant
            0 <= i <= v@.len(),
            r@ == v@.subrange(0, i as int),
        decreases v@.len() - i,
    {
        r.push(v[i]);
        i = i + 1;
        assert(r@ =~= v@.subrange(0, i as int));
    }
    assert(r@ =~= v@);
    r
}

/// The structure that nodes of one class share: the role, the actions
/// offered, and which properties other than flags are set.
pub struct NodeClassView {
    pub role: accesskit::Role,
    pub actions: Set<accesskit::Action>,
    pub signature: Seq<bool>,
}

struct NodeClass {
    role: accesskit::Role,
    actions: Vec<accesskit::Action>,
    signature: Vec<bool>,
}

impl NodeClass {
    spec fn view(&self) -> NodeClassView {
        NodeClassView { role: self.role, actions: self.actions@.to_set(), signature: self.signature@ }
    }
}

/// An interning table of node classes: building a node finds its class
/// here, or adds it, and the node keeps the class's handle.
#[allow(non_camel_case_types)]
pub struct node_class_set {
    classes: Vec<NodeClass>,
}

impl View for node_class_set {
    type V = Seq<NodeClassView>;

    closed spec fn view(&self) -> Seq<NodeClassView> {
        self.classes@.map_values(|c: NodeClass| c.view())
    }
}

impl node_class_set {
    /// An empty class set.
    pub fn accesskit_node_class_set_new() -> (r: node_class_set)
        ensures
            r@.len() == 0,
    {
        let r = node_class_set { classes: Vec::new() };
        assert(r@ =~= Seq::empty());
        r
    }

    /// Releases a class set; the handles it gave out mean nothing afterwards.
    pub fn accesskit_node_class_set_free(set: node_class_set) {
    }

    /// The handle of the class with this structure: an existing one when the
    /// set holds it already, else a new one at the end.
    pub fn intern(
        &mut self,
        role: accesskit::Role,
        actions: &Vec<accesskit::Action>,
        signature: Vec<bool>,
    ) -> (r: usize)
        ensures
            ({
                let c = NodeClassView { role, actions: actions@.to_set(), signature: signature@ };
                &&& r < final(self)@.len()
                &&& final(self)@[r as int] == c
                &&& (old(self)@.contains(c) ==> final(self)@ == old(self)@)
                &&& (!old(self)@.contains(c) ==> final(self)@ == old(self)@.push(c))
            }),
    {
        let ghost c = NodeClassView { role, actions: actions@.to_set(), signature: signature@ };
        let mut i: usize = 0;
        while i < self.classes.len()
            invariant
                0 <= i <= self@.len(),
                self@ == old(self)@,
                c == (NodeClassView { role, actions: actions@.to_set(), signature: signature@ }),
                forall|k: int| 0 <= k < i ==> self@[k] != c,
            decreases self@.len() - i,
        {
            let k = &self.classes[i];
            if same_role(&k.role, &role) && same_actions(&k.actions, actions) && same_bools(
                &k.signature,
                &signature,
            ) {
                assert(self@[i as int] == c);
                return i;
            }
            i = i + 1;
        }
        proof {
            assert forall|k: int| 0 <= k < old(self)@.len() implies old(self)@[k] != c by {}
        }
        let class = NodeClass { role, actions: copy_actions(actions), signature };
        self.classes.push(class);
        assert(self@ =~= old(self)@.push(c));
        self.classes.len() - 1
    }
}

/// A node under construction: its role, the actions it offers, and its
/// properties.
#[allow(non_camel_case_types)]
pub struct node_builder {
    role: accesskit::Role,
    actions: Vec<accesskit::Action>,
    properties: Properties,
}

/// A built node: immutable, with the handle of its class.
#[allow(non_camel_case_types)]
pub struct node {
    role: accesskit::Role,
    actions: Vec<accesskit::Action>,
    properties: Properties,
    class: usize,
}

impl node_builder {
    pub closed spec fn spec_role(&self) -> accesskit::Role {
        self.role
    }

    /// The actions the node will offer.
    pub closed spec fn spec_actions(&self) -> Set<accesskit::Action> {
        self.actions@.to_set()
    }

    pub closed spec fn spec_properties(&self) -> PropertiesView {
        self.properties@
    }

    /// The properties set so far.
    pub fn properties(&self) -> (r: &Properties)
        ensures
            r@ == self.spec_properties(),
    {
        &self.properties
    }

    /// The properties, to change them; role and actions stay as they are.
    pub fn properties_mut(&mut self) -> (r: &mut Properties)
        ensures
            r@ == old(self).spec_properties(),
            final(self).spec_properties() == final(r)@,
            final(self).spec_role() == old(self).spec_role(),
            final(self).spec_actions() == old(self).spec_actions(),
    {
        &mut self.properties
    }

    /// A builder for a node with the given role and nothing else.
    pub fn accesskit_node_builder_new(role: accesskit::Role) -> (r: node_builder)
        ensures
            r.spec_role() == role,
            r.spec_actions() == Set::<accesskit::Action>::empty(),
            r.spec_properties() == PropertiesView::empty(),
            r.spec_properties().wf(),
    {
        let r = node_builder { role, actions: Vec::new(), properties: Properties::new() };
        assert(r.actions@.to_set() =~= Set::empty());
        r
    }

    pub fn role(&self) -> (r: accesskit::Role)
        ensures
            r == self.spec_role(),
    {
        self.role
    }

    pub fn accesskit_node_builder_set_role(&mut self, value: accesskit::Role)
        ensures
            final(self).spec_role() == value,
            final(self).spec_actions() == old(self).spec_actions(),
            final(self).spec_properties() == old(self).spec_properties(),
    {
        self.role = value;
    }

    pub fn accesskit_node_builder_supports_action(&self, action: accesskit::Action) -> (r: bool)
        ensures
            r == self.spec_actions().contains(action),
    {
        contains_action(&self.actions, &action)
    }

    pub fn accesskit_node_builder_add_action(&mut self, action: accesskit::Action)
        ensures
            final(self).spec_actions() == old(self).spec_actions().insert(action),
            final(self).spec_role() == old(self).spec_role(),
            final(self).spec_properties() == old(self).spec_properties(),
    {
        if !contains_action(&self.actions, &action) {
            self.actions.push(action);
            assert forall|y: accesskit::Action| #[trigger] self.actions@.contains(y) <==> (old(
                self,
            ).actions@.contains(y) || y == action) by {
                lemma_push_contains(old(self).actions@, action, y);
            }
            assert(self.actions@.to_set() =~= old(self).actions@.to_set().insert(action));
        } else {
            assert(self.actions@.to_set() =~= old(self).actions@.to_set().insert(action));
        }
    }

    pub fn accesskit_node_builder_remove_action(&mut self, action: accesskit::Action)
        ensures
            final(self).spec_actions() == old(self).spec_actions().remove(action),
            final(self).spec_role() == old(self).spec_role(),
            final(self).spec_properties() == old(self).spec_properties(),
    {
        let mut kept: Vec<accesskit::Action> = Vec::new();
        let mut i: usize = 0;
        while i < self.actions.len()
            invariant
                0 <= i <= self.actions@.len(),
                self.actions@ == old(self).actions@,
                forall|x: accesskit::Action|
                    kept@.contains(x) <==> (self.actions@.subrange(0, i as int).contains(x) && x
                        != action),
            decreases self.actions@.len() - i,
        {
            let a = self.actions[i];
            let ghost before = kept@;
            if !same_action(&a, &action) {
                kept.push(a);
            }
            proof {
                let s = self.actions@.subrange(0, i + 1);
                assert(s =~= self.actions@.subrange(0, i as int).push(a));
                assert forall|x: accesskit::Action|
                    #[trigger] kept@.contains(x) <==> (self.actions@.subrange(0, i + 1).contains(x)
                        && x != action) by {
                    lemma_push_contains(self.actions@.subrange(0, i as int), a, x);
                    if a != action {
                        lemma_push_contains(before, a, x);
                    }
                }
            }
            i = i + 1;
        }
        assert(self.actions@.subrange(0, self.actions@.len() as int) =~= self.actions@);
        self.actions = kept;
        assert(self.actions@.to_set() =~= old(self).actions@.to_set().remove(action));
    }

    pub fn accesskit_node_builder_clear_actions(&mut self)
        ensures
            final(self).spec_actions() == Set::<accesskit::Action>::empty(),
            final(self).spec_role() == old(self).spec_role(),
            final(self).spec_properties() == old(self).spec_properties(),
    {
        self.actions = Vec::new();
        assert(self.actions@.to_set() =~= Set::empty());
    }

    /// Sets the text selection from its boundary form; a form whose node
    /// bytes are zero names no node and leaves the builder as it was.
    pub fn accesskit_builder_set_text_selection(&mut self, value: text_selection)
        requires
            old(self).spec_properties().wf(),
        ensures
            final(self).spec_role() == old(self).spec_role(),
            final(self).spec_actions() == old(self).spec_actions(),
            final(self).spec_properties().wf(),
            match value.decoded() {
                Some(s) => final(self).spec_properties() == (PropertiesView {
                    text_selection: Some(s),
                    ..old(self).spec_properties()
                }),
                None => final(self).spec_properties() == old(self).spec_properties(),
            },
    {
        if let Some(s) = value.to_selection() {
            self.properties.set_text_selection(s);
        }
    }

    /// Builds the node, interning its class in `classes`. The builder is
    /// consumed.
    pub fn accesskit_node_builder_build(self, classes: &mut node_class_set) -> (r: node)
        ensures
            r.spec_role() == self.spec_role(),
            r.spec_actions() == self.spec_actions(),
            r.spec_properties() == self.spec_properties(),
            r.spec_class() < final(classes)@.len(),
            final(classes)@[r.spec_class() as int] == (NodeClassView {
                role: self.spec_role(),
                actions: self.spec_actions(),
                signature: self.spec_properties().signature(),
            }),
            ({
                let c = NodeClassView {
                    role: self.spec_role(),
                    actions: self.spec_actions(),
                    signature: self.spec_properties().signature(),
                };
                &&& (old(classes)@.contains(c) ==> final(classes)@ == old(classes)@)
                &&& (!old(classes)@.contains(c) ==> final(classes)@ == old(classes)@.push(c))
            }),
    {
        let signature = self.properties.signature();
        let class = classes.intern(self.role, &self.actions, signature);
        node { role: self.role, actions: self.actions, properties: self.properties, class }
    }

    /// Releases a builder without building it.
    pub fn accesskit_node_builder_free(builder: node_builder) {
    }
}

impl node {
    pub closed spec fn spec_role(&self) -> accesskit::Role {
        self.role
    }

    /// The actions the node offers.
    pub closed spec fn spec_actions(&self) -> Set<accesskit::Action> {
        self.actions@.to_set()
    }

    pub closed spec fn spec_properties(&self) -> PropertiesView {
        self.properties@
    }

    /// The handle of the node's class in the set it was built against.
    pub closed spec fn spec_class(&self) -> usize {
        self.class
    }

    pub fn role(&self) -> (r: accesskit::Role)
        ensures
            r == self.spec_role(),
    {
        self.role
    }

    pub fn properties(&self) -> (r: &Properties)
        ensures
            r@ == self.spec_properties(),
    {
        &self.properties
    }

    pub fn class(&self) -> (r: usize)
        ensures
            r == self.spec_class(),
    {
        self.class
    }

    pub fn accesskit_node_supports_action(&self, action: accesskit::Action) -> (r: bool)
        ensures
            r == self.spec_actions().contains(action),
    {
        contains_action(&self.actions, &action)
    }

    /// Releases a node; its handle means nothing afterwards.
    pub fn accesskit_node_free(node: node) {
    }
}

} // verus!
