//! Action requests from assistive technology, with their optional payload,
//! and the form in which they reach the application across the boundary.

use crate::cstring::{buffer_bytes, c_string_chars, c_string_of, decode_c_string, encode_c_string, lemma_c_string_round_trip};
use crate::ids::{node_id, NodeId};
use crate::optional::opt;
use crate::text::{lemma_text_selection_round_trip, text_selection, TextSelection};
use vstd::bytes::*;
use vstd::prelude::*;

verus! {

broadcast use {NodeId::lemma_from_own_value, NodeId::lemma_value_of};

/// The payload of an action request. A numeric value is held as the
/// IEEE 754 bit pattern of a double.
#[derive(Debug)]
pub enum ActionData {
    CustomAction(i32),
    Value(String),
    NumericValue(u64),
    ScrollTargetRect(accesskit::Rect),
    ScrollToPoint(accesskit::Point),
    SetScrollOffset(accesskit::Point),
    SetTextSelection(TextSelection),
}

/// What a payload holds, with the value string as its characters.
pub enum ActionDataView {
    CustomAction(i32),
    Value(Seq<char>),
    NumericValue(u64),
    ScrollTargetRect(accesskit::Rect),
    ScrollToPoint(accesskit::Point),
    SetScrollOffset(accesskit::Point),
    SetTextSelection(TextSelection),
}

impl View for ActionData {
    type V = ActionDataView;

    open spec fn view(&self) -> ActionDataView {
        match self {
            ActionData::CustomAction(i) => ActionDataView::CustomAction(*i),
            ActionData::Value(s) => ActionDataView::Value(s@),
            ActionData::NumericValue(v) => ActionDataView::NumericValue(*v),
            ActionData::ScrollTargetRect(r) => ActionDataView::ScrollTargetRect(*r),
            ActionData::ScrollToPoint(p) => ActionDataView::ScrollToPoint(*p),
            ActionData::SetScrollOffset(p) => ActionDataView::SetScrollOffset(*p),
            ActionData::SetTextSelection(s) => ActionDataView::SetTextSelection(*s),
        }
    }
}

impl ActionDataView {
    /// Whether the payload can cross the boundary and come back whole: a
    /// value string holds no nul character.
    pub open spec fn encodable(self) -> bool {
        match self {
            ActionDataView::Value(s) => c_string_of(s).is_some(),
            _ => true,
        }
    }
}

/// The payload of an action request as it crosses the boundary; a value
/// string is a boundary string, null when it could not be encoded.
#[allow(non_camel_case_types)]
#[derive(Debug)]
pub enum action_data {
    CustomAction(i32),
    Value(Option<Vec<u8>>),
    NumericValue(u64),
    ScrollTargetRect(accesskit::Rect),
    ScrollToPoint(accesskit::Point),
    SetScrollOffset(accesskit::Point),
    SetTextSelection(text_selection),
}

impl action_data {
    /// Whether these are the boundary form of `d`.
    pub open spec fn encodes(self, d: ActionDataView) -> bool {
        match (self, d) {
            (action_data::CustomAction(a), ActionDataView::CustomAction(b)) => a == b,
            (action_data::Value(a), ActionDataView::Value(b)) => buffer_bytes(a) == c_string_of(b),
            (action_data::NumericValue(a), ActionDataView::NumericValue(b)) => a == b,
            (action_data::ScrollTargetRect(a), ActionDataView::ScrollTargetRect(b)) => a == b,
            (action_data::ScrollToPoint(a), ActionDataView::ScrollToPoint(b)) => a == b,
            (action_data::SetScrollOffset(a), ActionDataView::SetScrollOffset(b)) => a == b,
            (action_data::SetTextSelection(a), ActionDataView::SetTextSelection(b)) => a.encodes(b),
            _ => false,
        }
    }

    /// The payload these stand for: absent when a value string is null or a
    /// selection names a node by zero bytes.
    pub open spec fn decoded(self) -> Option<ActionDataView> {
        match self {
            action_data::CustomAction(a) => Some(ActionDataView::CustomAction(a)),
            action_data::Value(a) => match a {
                Some(b) => Some(ActionDataView::Value(c_string_chars(b@))),
                None => None,
            },
            action_data::NumericValue(a) => Some(ActionDataView::NumericValue(a)),
            action_data::ScrollTargetRect(a) => Some(ActionDataView::ScrollTargetRect(a)),
            action_data::ScrollToPoint(a) => Some(ActionDataView::ScrollToPoint(a)),
            action_data::SetScrollOffset(a) => Some(ActionDataView::SetScrollOffset(a)),
            action_data::SetTextSelection(a) => match a.decoded() {
                Some(s) => Some(ActionDataView::SetTextSelection(s)),
                None => None,
            },
        }
    }

    /// The boundary form of a payload; a value string gets a fresh buffer
    /// that the receiver owns.
    pub fn from_data(d: ActionData) -> (r: action_data)
        ensures
            r.encodes(d@),
    {
        match d {
            ActionData::CustomAction(i) => action_data::CustomAction(i),
            ActionData::Value(s) => action_data::Value(encode_c_string(s.as_str())),
            ActionData::NumericValue(v) => action_data::NumericValue(v),
            ActionData::ScrollTargetRect(r) => action_data::ScrollTargetRect(r),
            ActionData::ScrollToPoint(p) => action_data::ScrollToPoint(p),
            ActionData::SetScrollOffset(p) => action_data::SetScrollOffset(p),
            ActionData::SetTextSelection(s) => action_data::SetTextSelection(
                text_selection::from_selection(s),
            ),
        }
    }

    /// The payload that a boundary form stands for.
    pub fn to_data(&self) -> (r: Option<ActionData>)
        ensures
            r.is_some() == self.decoded().is_some(),
            r matches Some(d) ==> self.decoded() == Some(d@),
    {
        match self {
            action_data::CustomAction(i) => Some(ActionData::CustomAction(*i)),
            action_data::Value(b) => match b {
                Some(b) => Some(ActionData::Value(decode_c_string(b.as_slice()))),
                None => None,
            },
            action_data::NumericValue(v) => Some(ActionData::NumericValue(*v)),
            action_data::ScrollTargetRect(r) => Some(ActionData::ScrollTargetRect(*r)),
            action_data::ScrollToPoint(p) => Some(ActionData::ScrollToPoint(*p)),
            action_data::SetScrollOffset(p) => Some(ActionData::SetScrollOffset(*p)),
            action_data::SetTextSelection(s) => match s.to_selection() {
                Some(s) => Some(ActionData::SetTextSelection(s)),
                None => None,
            },
        }
    }
}

/// A payload read back from its boundary form is the payload written, when
/// its value string holds no nul character and its nodes are real ones.
pub proof fn lemma_action_data_round_trip(d: ActionDataView, b: action_data)
    requires
        d.encodable(),
        d matches ActionDataView::SetTextSelection(s) ==> s.anchor.node.spec_value() != 0
            && s.focus.node.spec_value() != 0,
        b.encodes(d),
    ensures
        b.decoded() == Some(d),
{
    match (b, d) {
        (action_data::Value(a), ActionDataView::Value(s)) => {
            lemma_c_string_round_trip(s);
        },
        (action_data::SetTextSelection(a), ActionDataView::SetTextSelection(s)) => {
            lemma_text_selection_round_trip(s, a);
        },
        _ => {},
    }
}

/// A request from assistive technology: the action, its target node, and
/// an optional payload.
#[derive(Debug)]
pub struct ActionRequest {
    pub action: accesskit::Action,
    pub target: NodeId,
    pub data: Option<ActionData>,
}

/// An action request as it reaches the application across the boundary.
#[allow(non_camel_case_types)]
#[derive(Debug)]
pub struct action_request {
    pub action: accesskit::Action,
    pub target: node_id,
    pub data: opt<action_data>,
}

/// What a request holds, with its payload as a view.
pub struct ActionRequestView {
    pub action: accesskit::Action,
    pub target: NodeId,
    pub data: Option<ActionDataView>,
}

impl View for ActionRequest {
    type V = ActionRequestView;

    open spec fn view(&self) -> ActionRequestView {
        ActionRequestView {
            action: self.action,
            target: self.target,
            data: match self.data {
                Some(d) => Some(d@),
                None => None,
            },
        }
    }
}

impl action_request {
    /// Whether these are the boundary form of `r`.
    pub open spec fn encodes(self, r: ActionRequestView) -> bool {
        &&& self.action == r.action
        &&& self.target.0@ == spec_u128_to_le_bytes(r.target.spec_value())
        &&& self.data.has_value == r.data.is_some()
        &&& r.data matches Some(d) ==> self.data.value.encodes(d)
    }

    /// The request these stand for: absent when the target's bytes are zero
    /// or a present payload cannot be read.
    pub open spec fn decoded(self) -> Option<ActionRequestView> {
        match self.target.decoded() {
            Some(t) => if !self.data.has_value {
                Some(ActionRequestView { action: self.action, target: t, data: None })
            } else {
                match self.data.value.decoded() {
                    Some(d) => Some(ActionRequestView { action: self.action, target: t, data: Some(d) }),
                    None => None,
                }
            },
            None => None,
        }
    }

    /// The boundary form of a request, as the action handler's callback
    /// receives it.
    pub fn from_request(request: ActionRequest) -> (r: action_request)
        ensures
            r.encodes(request@),
    {
        let ActionRequest { action, target, data } = request;
        let data = match data {
            Some(d) => opt::from_option(Some(action_data::from_data(d)), action_data::CustomAction(0)),
            None => opt::from_option(None, action_data::CustomAction(0)),
        };
        action_request { action, target: node_id::from_node_id(target), data }
    }

    /// The request that a boundary form stands for.
    pub fn to_request(&self) -> (r: Option<ActionRequest>)
        ensures
            r.is_some() == self.decoded().is_some(),
            r matches Some(q) ==> self.decoded() == Some(q@),
    {
        let target = match self.target.to_node_id() {
            Some(t) => t,
            None => return None,
        };
        if !self.data.has_value {
            return Some(ActionRequest { action: self.action, target, data: None });
        }
        match self.data.value.to_data() {
            Some(d) => Some(ActionRequest { action: self.action, target, data: Some(d) }),
            None => None,
        }
    }
}

/// A request read back from its boundary form is the request written, when
/// its payload can cross the boundary whole.
pub proof fn lemma_action_request_round_trip(q: ActionRequestView, b: action_request)
    requires
        q.target.spec_value() != 0,
        q.data matches Some(d) ==> d.encodable() && (d matches ActionDataView::SetTextSelection(
            s,
        ) ==> s.anchor.node.spec_value() != 0 && s.focus.node.spec_value() != 0),
        b.encodes(q),
    ensures
        b.decoded() == Some(q),
{
    lemma_auto_spec_u128_to_from_le_bytes();
    assert(spec_u128_to_le_bytes(q.target.spec_value()).len() == 16);
    assert(b.target.spec_value() == q.target.spec_value());
    if let Some(d) = q.data {
        lemma_action_data_round_trip(d, b.data.value);
    }
}

} // verus!
