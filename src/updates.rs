//! Tree metadata and tree updates: the batches of built nodes handed to an
//! adapter, and the form in which they cross the boundary.

use crate::ids::{decode_opt_node_id, encode_opt_node_id, id_value, node_id, opt_id_value, NodeId};
use crate::nodes::node;
use crate::optional::opt;
use vstd::bytes::*;
use vstd::prelude::*;

verus! {

broadcast use {NodeId::lemma_from_own_value, NodeId::lemma_value_of};

/// Whole-tree metadata: the root, and the node that scrolls the whole
/// tree, if any.
#[derive(Clone, Copy, Debug, PartialEq, Eq, Structural)]
pub struct Tree {
    pub root: NodeId,
    pub root_scroller: Option<NodeId>,
}

/// Tree metadata as it crosses the boundary.
#[allow(non_camel_case_types)]
#[derive(Clone, Copy, Debug)]
pub struct tree {
    pub root: node_id,
    pub root_scroller: opt<node_id>,
}

/// The value of an optional identity that is known to be present or absent.
pub open spec fn decoded_opt_id(e: opt<node_id>) -> Option<NodeId> {
    match opt_id_value(e) {
        Some(v) => Some(NodeId::from_value(v)),
        None => None,
    }
}

impl tree {
    /// The metadata these stand for; absent when the root's bytes are zero.
    pub open spec fn decoded(self) -> Option<Tree> {
        match self.root.decoded() {
            Some(r) => Some(Tree { root: r, root_scroller: decoded_opt_id(self.root_scroller) }),
            None => None,
        }
    }

    /// Metadata with the given root and no root scroller.
    pub fn accesskit_tree_new(root: node_id) -> (r: tree)
        ensures
            r.root == root,
            !r.root_scroller.has_value,
            r.root_scroller.value.spec_value() == 0,
            r.decoded() == (match root.decoded() {
                Some(n) => Some(Tree { root: n, root_scroller: None }),
                None => None,
            }),
    {
        tree { root, root_scroller: encode_opt_node_id(None) }
    }

    /// Metadata whose root bytes are zero, filling an absent slot.
    pub fn empty() -> (r: tree)
        ensures
            r.root.spec_value() == 0,
            !r.root_scroller.has_value,
            r.decoded().is_none(),
    {
        tree { root: node_id::zero(), root_scroller: encode_opt_node_id(None) }
    }

    pub fn from_tree(t: Tree) -> (r: tree)
        ensures
            r.root.0@ == spec_u128_to_le_bytes(t.root.spec_value()),
            r.root.spec_value() == t.root.spec_value(),
            opt_id_value(r.root_scroller) == id_value(t.root_scroller),
            r.decoded() == Some(t),
    {
        let r = tree {
            root: node_id::from_node_id(t.root),
            root_scroller: encode_opt_node_id(t.root_scroller),
        };
        proof {
            if let Some(s) = t.root_scroller {
                assert(decoded_opt_id(r.root_scroller) == Some(s));
            }
        }
        r
    }

    pub fn to_tree(&self) -> (r: Option<Tree>)
        ensures
            r == self.decoded(),
    {
        match self.root.to_node_id() {
            Some(root) => {
                let root_scroller = decode_opt_node_id(&self.root_scroller);
                proof {
                    if let Some(s) = root_scroller {
                        assert(NodeId::from_value(s.spec_value()) == s);
                    }
                }
                Some(Tree { root, root_scroller })
            },
            None => None,
        }
    }
}

/// Tree metadata read back from its boundary form is the metadata written.
pub proof fn lemma_tree_round_trip(t: Tree, b: tree)
    requires
        t.root.spec_value() != 0,
        t.root_scroller matches Some(s) ==> s.spec_value() != 0,
        b.root.0@ == spec_u128_to_le_bytes(t.root.spec_value()),
        opt_id_value(b.root_scroller) == id_value(t.root_scroller),
    ensures
        b.decoded() == Some(t),
{
    lemma_auto_spec_u128_to_from_le_bytes();
    assert(spec_u128_to_le_bytes(t.root.spec_value()).len() == 16);
    assert(b.root.spec_value() == t.root.spec_value());
    if let Some(s) = t.root_scroller {
        assert(decoded_opt_id(b.root_scroller) == Some(s));
    }
}

/// The value of optional tree metadata: absent when the flag is down or the
/// root's bytes are zero.
pub open spec fn decoded_opt_tree(e: opt<tree>) -> Option<Tree> {
    if e.has_value {
        e.value.decoded()
    } else {
        None
    }
}

/// Encodes optional tree metadata; absent metadata has zero bytes.
pub fn encode_opt_tree(t: Option<Tree>) -> (r: opt<tree>)
    ensures
        r.has_value == t.is_some(),
        decoded_opt_tree(r) == t,
{
    match t {
        Some(t) => opt::from_option(Some(tree::from_tree(t)), tree::empty()),
        None => opt::from_option(None, tree::empty()),
    }
}

/// Decodes optional tree metadata.
pub fn decode_opt_tree(e: &opt<tree>) -> (r: Option<Tree>)
    ensures
        r == decoded_opt_tree(*e),
{
    if e.has_value {
        e.value.to_tree()
    } else {
        None
    }
}

/// A batch of built nodes with their identities, in order, plus the tree
/// metadata on a full update and the focused node.
pub struct TreeUpdate {
    pub nodes: Vec<(NodeId, node)>,
    pub tree: Option<Tree>,
    pub focus: Option<NodeId>,
}

/// A tree update as it crosses the boundary: parallel sequences of node
/// identities and node handles, where a handle may be null.
#[allow(non_camel_case_types)]
pub struct tree_update {
    pub ids: Vec<node_id>,
    pub nodes: Vec<Option<node>>,
    pub tree: opt<tree>,
    pub focus: opt<node_id>,
}

/// The pairs that a boundary update delivers: each position whose id is not
/// zero and whose node handle is not null, in the order given.
pub open spec fn kept_pairs(ids: Seq<node_id>, nodes: Seq<Option<node>>) -> Seq<(NodeId, node)>
    decreases ids.len(),
{
    if ids.len() == 0 || nodes.len() == 0 {
        Seq::empty()
    } else {
        let rest = kept_pairs(ids.drop_last(), nodes.drop_last());
        match (ids.last().decoded(), nodes.last()) {
            (Some(i), Some(n)) => rest.push((i, n)),
            _ => rest,
        }
    }
}

impl tree_update {
    /// Takes the nodes over, in the order given, leaving out each position
    /// whose node handle is null or whose id is zero; the tree metadata and
    /// focus are copied.
    pub fn into_tree_update(self) -> (r: TreeUpdate)
        requires
            self.ids@.len() == self.nodes@.len(),
        ensures
            r.nodes@ == kept_pairs(self.ids@, self.nodes@),
            r.tree == decoded_opt_tree(self.tree),
            r.focus == decoded_opt_id(self.focus),
    {
        let tree_update { ids, nodes: mut handles, tree: t, focus } = self;
        let ghost given = handles@;
        let mut out: Vec<(NodeId, node)> = Vec::new();
        let mut i: usize = 0;
        while i < ids.len()
            invariant
                ids@.len() == given.len(),
                handles@.len() == given.len(),
                0 <= i <= ids@.len(),
                forall|k: int| i <= k < given.len() ==> handles@[k] == given[k],
                out@ == kept_pairs(ids@.subrange(0, i as int), given.subrange(0, i as int)),
            decreases ids@.len() - i,
        {
            let mut slot: Option<node> = None;
            core::mem::swap(&mut handles[i], &mut slot);
            let id = ids[i].to_node_id();
            proof {
                let a = ids@.subrange(0, i + 1);
                let b = given.subrange(0, i + 1);
                assert(a.drop_last() =~= ids@.subrange(0, i as int));
                assert(b.drop_last() =~= given.subrange(0, i as int));
                assert(a.last() == ids@[i as int]);
                assert(b.last() == given[i as int]);
            }
            match (id, slot) {
                (Some(id), Some(n)) => {
                    out.push((id, n));
                },
                _ => {},
            }
            i = i + 1;
        }
        proof {
            assert(ids@.subrange(0, ids@.len() as int) =~= ids@);
            assert(given.subrange(0, given.len() as int) =~= given);
        }
        let tree = decode_opt_tree(&t);
        let focus = decode_opt_node_id(&focus);
        proof {
            if let Some(f) = focus {
                assert(NodeId::from_value(f.spec_value()) == f);
            }
        }
        TreeUpdate { nodes: out, tree, focus }
    }
}

} // verus!
