//! Text positions and selections, and custom actions, with the forms they
//! take on the boundary.

use crate::cstring::{buffer_bytes, c_string_chars, c_string_of, decode_c_string, encode_c_string};
use crate::ids::{lemma_node_id_decode_encode, lemma_node_id_encode_decode, node_id, NodeId};
use vstd::bytes::*;
use vstd::prelude::*;

verus! {

broadcast use {NodeId::lemma_from_own_value, NodeId::lemma_value_of};

/// A position in the text of a node: the node, and the index of a character
/// in it.
#[derive(Clone, Copy, Debug, PartialEq, Eq, Structural)]
pub struct TextPosition {
    pub node: NodeId,
    pub character_index: usize,
}

/// A text selection: where it started, and its active end.
#[derive(Clone, Copy, Debug, PartialEq, Eq, Structural)]
pub struct TextSelection {
    pub anchor: TextPosition,
    pub focus: TextPosition,
}

/// A text position as it crosses the boundary.
#[allow(non_camel_case_types)]
#[derive(Clone, Copy, Debug)]
pub struct text_position {
    pub node: node_id,
    pub character_index: usize,
}

/// A text selection as it crosses the boundary.
#[allow(non_camel_case_types)]
#[derive(Clone, Copy, Debug)]
pub struct text_selection {
    pub anchor: text_position,
    pub focus: text_position,
}

impl text_position {
    /// Whether these are the boundary form of `p`.
    pub open spec fn encodes(self, p: TextPosition) -> bool {
        &&& self.node.0@ == spec_u128_to_le_bytes(p.node.spec_value())
        &&& self.character_index == p.character_index
    }

    /// The position these stand for; absent when the node's bytes are zero.
    pub open spec fn decoded(self) -> Option<TextPosition> {
        match self.node.decoded() {
            Some(n) => Some(TextPosition { node: n, character_index: self.character_index }),
            None => None,
        }
    }

    pub fn from_position(p: TextPosition) -> (r: text_position)
        ensures
            r.encodes(p),
    {
        text_position { node: node_id::from_node_id(p.node), character_index: p.character_index }
    }

    pub fn to_position(&self) -> (r: Option<TextPosition>)
        ensures
            r == self.decoded(),
    {
        match self.node.to_node_id() {
            Some(n) => Some(TextPosition { node: n, character_index: self.character_index }),
            None => None,
        }
    }
}

impl text_selection {
    /// Whether these are the boundary form of `s`.
    pub open spec fn encodes(self, s: TextSelection) -> bool {
        self.anchor.encodes(s.anchor) && self.focus.encodes(s.focus)
    }

    /// The selection these stand for; absent when either node's bytes are zero.
    pub open spec fn decoded(self) -> Option<TextSelection> {
        match (self.anchor.decoded(), self.focus.decoded()) {
            (Some(a), Some(f)) => Some(TextSelection { anchor: a, focus: f }),
            _ => None,
        }
    }

    pub fn from_selection(s: TextSelection) -> (r: text_selection)
        ensures
            r.encodes(s),
    {
        text_selection {
            anchor: text_position::from_position(s.anchor),
            focus: text_position::from_position(s.focus),
        }
    }

    pub fn to_selection(&self) -> (r: Option<TextSelection>)
        ensures
            r == self.decoded(),
    {
        match (self.anchor.to_position(), self.focus.to_position()) {
            (Some(a), Some(f)) => Some(TextSelection { anchor: a, focus: f }),
            _ => None,
        }
    }
}

/// A text position read back from its boundary form is the position written.
pub proof fn lemma_text_position_round_trip(p: TextPosition, b: text_position)
    requires
        p.node.spec_value() != 0,
        b.encodes(p),
    ensures
        b.decoded() == Some(p),
{
    lemma_node_id_decode_encode(p.node.spec_value());
    assert(b.node.spec_value() == p.node.spec_value());
    assert(NodeId::from_value(p.node.spec_value()) == p.node);
}

/// A text selection read back from its boundary form is the selection written.
pub proof fn lemma_text_selection_round_trip(s: TextSelection, b: text_selection)
    requires
        s.anchor.node.spec_value() != 0,
        s.focus.node.spec_value() != 0,
        b.encodes(s),
    ensures
        b.decoded() == Some(s),
{
    lemma_text_position_round_trip(s.anchor, b.anchor);
    lemma_text_position_round_trip(s.focus, b.focus);
}

/// Writing back a decoded text position gives the same bytes and index.
pub proof fn lemma_text_position_rewrite(b: text_position, r: text_position)
    requires
        b.decoded() matches Some(p) && r.encodes(p),
    ensures
        r.node.0@ == b.node.0@,
        r.character_index == b.character_index,
{
    lemma_node_id_encode_decode(b.node);
    assert(NodeId::from_value(b.node.spec_value()).spec_value() == b.node.spec_value());
}

/// A custom action that a node offers: an identifier and a description.
#[derive(Debug)]
pub struct CustomAction {
    pub id: i32,
    pub description: String,
}

/// A custom action as it crosses the boundary; the description is a
/// boundary string, absent when it could not be encoded.
#[allow(non_camel_case_types)]
#[derive(Debug)]
pub struct custom_action {
    pub id: i32,
    pub description: Option<Vec<u8>>,
}

impl custom_action {
    /// The description that a boundary form stands for: empty when absent.
    pub open spec fn description_chars(self) -> Seq<char> {
        match self.description {
            Some(b) => c_string_chars(b@),
            None => Seq::empty(),
        }
    }

    /// The boundary form of an action, with a fresh description buffer.
    pub fn from_action(a: &CustomAction) -> (r: custom_action)
        ensures
            r.id == a.id,
            buffer_bytes(r.description) == c_string_of(a.description@),
    {
        custom_action { id: a.id, description: encode_c_string(a.description.as_str()) }
    }

    /// The action that a boundary form stands for.
    pub fn to_action(&self) -> (r: CustomAction)
        ensures
            r.id == self.id,
            r.description@ == self.description_chars(),
    {
        let description = match &self.description {
            Some(b) => decode_c_string(b.as_slice()),
            None => String::new(),
        };
        CustomAction { id: self.id, description }
    }
}

/// The boundary form of a sequence of custom actions: a fresh array whose
/// descriptions the receiver owns.
pub fn encode_custom_actions(v: &Vec<CustomAction>) -> (r: Vec<custom_action>)
    ensures
        r@.len() == v@.len(),
        forall|i: int|
            0 <= i < v@.len() ==> #[trigger] r@[i].id == v@[i].id && buffer_bytes(r@[i].description)
                == c_string_of(v@[i].description@),
{
    let mut r: Vec<custom_action> = Vec::new();
    let mut i: usize = 0;
    while i < v.len()
        invariant
            0 <= i <= v@.len(),
            r@.len() == i,
            forall|k: int|
                0 <= k < i ==> #[trigger] r@[k].id == v@[k].id && buffer_bytes(r@[k].description)
                    == c_string_of(v@[k].description@),
        decreases v@.len() - i,
    {
        r.push(custom_action::from_action(&v[i]));
        i = i + 1;
    }
    r
}

/// The custom actions that a boundary array stands for, in order.
pub fn decode_custom_actions(v: &Vec<custom_action>) -> (r: Vec<CustomAction>)
    ensures
        r@.len() == v@.len(),
        forall|i: int|
            0 <= i < v@.len() ==> #[trigger] r@[i].id == v@[i].id && r@[i].description@
                == v@[i].description_chars(),
{
    let mut r: Vec<CustomAction> = Vec::new();
    let mut i: usize = 0;
    while i < v.len()
        invariant
            0 <= i <= v@.len(),
            r@.len() == i,
            forall|k: int|
                0 <= k < i ==> #[trigger] r@[k].id == v@[k].id && r@[k].description@
                    == v@[k].description_chars(),
        decreases v@.len() - i,
    {
        r.push(v[i].to_action());
        i = i + 1;
    }
    r
}

} // verus!
