use crate::optional::{encoded, opt};
use vstd::bytes::*;
use vstd::prelude::*;

verus! {

/// The identity of a node within its tree: a non-zero 128-bit integer.
/// Zero is reserved to mean "no node" in optional encodings.
#[derive(Clone, Copy, Debug, PartialEq, Eq, Structural)]
pub struct NodeId {
    value: u128,
}

impl NodeId {
    #[verifier::type_invariant]
    spec fn nonzero(self) -> bool {
        self.value != 0
    }

    /// The integer that identifies the node.
    pub closed spec fn spec_value(self) -> u128 {
        self.value
    }

    /// The identity with the given value, or `None` for zero.
    pub fn new(value: u128) -> (r: Option<NodeId>)
        ensures
            value == 0 <==> r.is_none(),
            r matches Some(id) ==> id.spec_value() == value,
    {
        if value == 0 {
            None
        } else {
            Some(NodeId { value })
        }
    }

    /// The identity whose value is `v` (meaningful for non-zero `v`).
    pub closed spec fn from_value(v: u128) -> NodeId {
        NodeId { value: v }
    }

    /// An identity is the one made from its value.
    pub broadcast proof fn lemma_from_own_value(id: NodeId)
        ensures
            #[trigger] NodeId::from_value(id.spec_value()) == id,
    {
    }

    /// The value of the identity made from `v` is `v`.
    pub broadcast proof fn lemma_value_of(v: u128)
        ensures
            #[trigger] NodeId::from_value(v).spec_value() == v,
    {
    }

    /// Two identities with the same value are the same identity.
    pub proof fn lemma_value_determines(a: NodeId, b: NodeId)
        requires
            a.spec_value() == b.spec_value(),
        ensures
            a == b,
    {
    }

    pub fn get(&self) -> (r: u128)
        ensures
            r == self.spec_value(),
            r != 0,
    {
        proof {
            use_type_invariant(self);
        }
        self.value
    }
}

/// A node identity as it crosses the boundary: sixteen bytes, little-endian.
/// All zero bytes stand for "no node".
#[allow(non_camel_case_types)]
#[derive(Clone, Copy, Debug)]
pub struct node_id(pub [u8; 16]);

impl node_id {
    /// The integer that the bytes encode.
    pub open spec fn spec_value(self) -> u128 {
        spec_u128_from_le_bytes(self.0@)
    }

    /// The bytes of an identity.
    pub fn from_node_id(id: NodeId) -> (r: node_id)
        ensures
            r.spec_value() == id.spec_value(),
            r.spec_value() != 0,
            r.0@ == spec_u128_to_le_bytes(id.spec_value()),
    {
        let v = id.get();
        let bytes = u128_to_le_bytes(v);
        let mut out: [u8; 16] = [0u8; 16];
        let mut i: usize = 0;
        while i < 16
            invariant
                bytes@ == spec_u128_to_le_bytes(v),
                bytes@.len() == 16,
                0 <= i <= 16,
                forall|j: int| 0 <= j < i ==> out@[j] == bytes@[j],
            decreases 16 - i,
        {
            out[i] = bytes[i];
            i = i + 1;
        }
        proof {
            lemma_auto_spec_u128_to_from_le_bytes();
            assert(out@ =~= bytes@);
        }
        node_id(out)
    }

    /// The identity that the bytes stand for, absent when they are all zero.
    pub open spec fn decoded(self) -> Option<NodeId> {
        if self.spec_value() == 0 {
            None
        } else {
            Some(NodeId::from_value(self.spec_value()))
        }
    }

    /// The identity that the bytes encode, or `None` when they are all zero.
    pub fn to_node_id(&self) -> (r: Option<NodeId>)
        ensures
            r.is_none() <==> self.spec_value() == 0,
            r matches Some(id) ==> id.spec_value() == self.spec_value(),
            r == self.decoded(),
    {
        let v = u128_from_le_bytes(self.0.as_slice());
        let r = NodeId::new(v);
        proof {
            if let Some(id) = r {
                NodeId::lemma_value_determines(id, NodeId::from_value(v));
            }
        }
        r
    }
}

/// The value that an optional identity on the boundary stands for: absent
/// when the flag is down or when the bytes are all zero.
pub open spec fn opt_id_value(e: opt<node_id>) -> Option<u128> {
    if e.has_value && e.value.spec_value() != 0 {
        Some(e.value.spec_value())
    } else {
        None
    }
}

/// The value of an optional identity.
pub open spec fn id_value(id: Option<NodeId>) -> Option<u128> {
    match id {
        Some(i) => Some(i.spec_value()),
        None => None,
    }
}

impl node_id {
    /// The bytes that stand for "no node".
    pub fn zero() -> (r: node_id)
        ensures
            r.spec_value() == 0,
            r.0@ == spec_u128_to_le_bytes(0),
    {
        let bytes = u128_to_le_bytes(0);
        let mut out: [u8; 16] = [0u8; 16];
        let mut i: usize = 0;
        while i < 16
            invariant
                bytes@ == spec_u128_to_le_bytes(0),
                bytes@.len() == 16,
                0 <= i <= 16,
                forall|j: int| 0 <= j < i ==> out@[j] == bytes@[j],
            decreases 16 - i,
        {
            out[i] = bytes[i];
            i = i + 1;
        }
        proof {
            lemma_auto_spec_u128_to_from_le_bytes();
            assert(out@ =~= bytes@);
        }
        node_id(out)
    }

    /// An optional identity made from a 64-bit integer: absent for zero.
    pub fn accesskit_node_id_new(id: u64) -> (r: opt<node_id>)
        ensures
            r.has_value == (id != 0),
            r.has_value ==> r.value.spec_value() == id as u128,
            !r.has_value ==> r.value.spec_value() == 0,
            opt_id_value(r) == (if id == 0 { None } else { Some(id as u128) }),
    {
        let v = NodeId::new(id as u128);
        encode_opt_node_id(v)
    }
}

/// Encodes an optional identity; an absent one has all-zero bytes.
pub fn encode_opt_node_id(id: Option<NodeId>) -> (r: opt<node_id>)
    ensures
        r.has_value == id.is_some(),
        opt_id_value(r) == id_value(id),
        id.is_none() ==> r.value.spec_value() == 0,
        id matches Some(i) ==> r.value.0@ == spec_u128_to_le_bytes(i.spec_value()),
{
    let slot = node_id::zero();
    match id {
        Some(i) => {
            let b = node_id::from_node_id(i);
            opt::from_option(Some(b), slot)
        },
        None => opt::from_option(None, slot),
    }
}

/// Decodes an optional identity: absent when the flag is down or the bytes
/// are all zero.
pub fn decode_opt_node_id(e: &opt<node_id>) -> (r: Option<NodeId>)
    ensures
        id_value(r) == opt_id_value(*e),
{
    if e.has_value {
        e.value.to_node_id()
    } else {
        None
    }
}

/// The identities that a boundary sequence names, in order; entries whose
/// bytes are zero name no node and are left out.
pub open spec fn named_ids(s: Seq<node_id>) -> Seq<NodeId>
    decreases s.len(),
{
    if s.len() == 0 {
        Seq::empty()
    } else {
        let rest = named_ids(s.drop_last());
        match s.last().decoded() {
            Some(i) => rest.push(i),
            None => rest,
        }
    }
}

/// The boundary form of a sequence of identities, entry by entry.
pub fn encode_node_ids(ids: &Vec<NodeId>) -> (r: Vec<node_id>)
    ensures
        r@.len() == ids@.len(),
        forall|i: int|
            0 <= i < ids@.len() ==> #[trigger] r@[i].0@ == spec_u128_to_le_bytes(ids@[i].spec_value())
                && r@[i].spec_value() == ids@[i].spec_value(),
{
    let mut r: Vec<node_id> = Vec::new();
    let mut i: usize = 0;
    while i < ids.len()
        invariant
            0 <= i <= ids@.len(),
            r@.len() == i,
            forall|k: int|
                0 <= k < i ==> #[trigger] r@[k].0@ == spec_u128_to_le_bytes(ids@[k].spec_value())
                    && r@[k].spec_value() == ids@[k].spec_value(),
        decreases ids@.len() - i,
    {
        r.push(node_id::from_node_id(ids[i]));
        i = i + 1;
    }
    r
}

/// The identities that a boundary sequence names, in order.
pub fn decode_node_ids(ids: &Vec<node_id>) -> (r: Vec<NodeId>)
    ensures
        r@ == named_ids(ids@),
{
    let mut r: Vec<NodeId> = Vec::new();
    let mut i: usize = 0;
    while i < ids.len()
        invariant
            0 <= i <= ids@.len(),
            r@ == named_ids(ids@.subrange(0, i as int)),
        decreases ids@.len() - i,
    {
        let d = ids[i].to_node_id();
        proof {
            let s = ids@.subrange(0, i + 1);
            assert(s.drop_last() =~= ids@.subrange(0, i as int));
            assert(s.last() == ids@[i as int]);
        }
        if let Some(id) = d {
            r.push(id);
        }
        i = i + 1;
    }
    assert(ids@.subrange(0, ids@.len() as int) =~= ids@);
    r
}

/// A sequence of identities read back from its boundary form is the
/// sequence written, in order and length.
pub proof fn lemma_node_ids_round_trip(v: Seq<NodeId>, b: Seq<node_id>)
    requires
        b.len() == v.len(),
        forall|i: int|
            0 <= i < v.len() ==> #[trigger] b[i].spec_value() == v[i].spec_value() && v[i].spec_value()
                != 0,
    ensures
        named_ids(b) == v,
    decreases v.len(),
{
    if v.len() > 0 {
        let n = v.len() - 1;
        let vd = v.drop_last();
        let bd = b.drop_last();
        assert forall|i: int| 0 <= i < vd.len() implies #[trigger] bd[i].spec_value()
            == vd[i].spec_value() && vd[i].spec_value() != 0 by {
            assert(bd[i] == b[i]);
            assert(vd[i] == v[i]);
            assert(b[i].spec_value() == v[i].spec_value());
        }
        lemma_node_ids_round_trip(vd, bd);
        assert(b[n].spec_value() == v[n].spec_value());
        NodeId::lemma_value_determines(NodeId::from_value(v[n].spec_value()), v[n]);
        assert(v =~= v.drop_last().push(v[n]));
    } else {
        assert(v =~= Seq::<NodeId>::empty());
    }
}

/// Decoding the bytes of an identity gives its value back.
pub proof fn lemma_node_id_decode_encode(v: u128)
    ensures
        spec_u128_from_le_bytes(spec_u128_to_le_bytes(v)) == v,
{
    lemma_auto_spec_u128_to_from_le_bytes();
    assert(spec_u128_to_le_bytes(v).len() == 16);
}

/// Encoding the value of sixteen bytes gives the same bytes back.
pub proof fn lemma_node_id_encode_decode(b: node_id)
    ensures
        spec_u128_to_le_bytes(b.spec_value()) == b.0@,
{
    lemma_auto_spec_u128_to_from_le_bytes();
}

/// An encoding whose flag says present and whose bytes hold a non-zero value
/// reads back as that value; one whose flag is down reads back as absent.
pub proof fn lemma_opt_node_id_round_trip(v: Option<u128>, e: opt<node_id>)
    requires
        v != Some(0u128),
        e.has_value == v.is_some(),
        v matches Some(x) ==> e.value.spec_value() == x,
    ensures
        opt_id_value(e) == v,
{
}

} // verus!
