use vstd::prelude::*;

verus! {

/// An optional value as it crosses the boundary: a presence flag and a
/// value slot. While `has_value` is false the slot carries no meaning and
/// readers must not look at it.
#[allow(non_camel_case_types)]
#[derive(Clone, Copy, Debug)]
pub struct opt<T> {
    pub has_value: bool,
    pub value: T,
}

/// The encoding of `value`, with `slot` filling the value slot when absent.
pub open spec fn encoded<T>(value: Option<T>, slot: T) -> opt<T> {
    match value {
        Some(v) => opt { has_value: true, value: v },
        None => opt { has_value: false, value: slot },
    }
}

impl<T> opt<T> {
    /// The value that an encoding stands for.
    pub open spec fn decoded(self) -> Option<T> {
        if self.has_value {
            Some(self.value)
        } else {
            None
        }
    }

    /// Two encodings that no reader can tell apart: the same presence flag,
    /// and the same value where one is present.
    pub open spec fn same_meaning(self, other: opt<T>) -> bool {
        &&& self.has_value == other.has_value
        &&& self.has_value ==> self.value == other.value
    }

    /// Encodes `value`; `slot` fills the value slot when it is absent.
    pub fn from_option(value: Option<T>, slot: T) -> (r: opt<T>)
        ensures
            r == encoded(value, slot),
    {
        match value {
            Some(v) => opt { has_value: true, value: v },
            None => opt { has_value: false, value: slot },
        }
    }

    /// Decodes the value, ignoring the slot when absent.
    pub fn into_option(self) -> (r: Option<T>)
        ensures
            r == self.decoded(),
    {
        if self.has_value {
            Some(self.value)
        } else {
            None
        }
    }
}

/// Decoding an encoded optional value gives the value back, present or absent.
pub proof fn lemma_opt_decode_encode<T>(value: Option<T>, slot: T)
    ensures
        encoded(value, slot).decoded() == value,
{
}

/// Encoding a decoded value gives an encoding with the same meaning, and the
/// very same encoding when an absent value's slot already holds the filler.
pub proof fn lemma_opt_encode_decode<T>(e: opt<T>, slot: T)
    ensures
        encoded(e.decoded(), slot).same_meaning(e),
        (e.has_value || e.value == slot) ==> encoded(e.decoded(), slot) == e,
{
}

} // verus!
