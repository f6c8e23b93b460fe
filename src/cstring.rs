//! Strings as they cross the boundary: UTF-8 bytes ended by a nul byte,
//! owned by whoever receives them. Absence is `None`, the null reference.

use vstd::prelude::*;
use vstd::utf8::*;

verus! {

broadcast use {encode_utf8_decode_utf8, encode_utf8_valid_utf8};

/// Whether the bytes hold no nul byte.
pub open spec fn has_no_nul(b: Seq<u8>) -> bool {
    forall|i: int| 0 <= i < b.len() ==> b[i] != 0
}

/// The boundary form of a string: its UTF-8 bytes and a closing nul, or
/// absent when the string itself holds a nul character, which such a
/// buffer cannot carry.
pub open spec fn c_string_of(s: Seq<char>) -> Option<Seq<u8>> {
    if has_no_nul(encode_utf8(s)) {
        Some(encode_utf8(s).push(0))
    } else {
        None
    }
}

/// The bytes that a boundary string holds.
pub open spec fn buffer_bytes(b: Option<Vec<u8>>) -> Option<Seq<u8>> {
    match b {
        Some(v) => Some(v@),
        None => None,
    }
}

/// The bytes of a buffer before its first nul, or all of them if it has none.
pub open spec fn before_nul(b: Seq<u8>) -> Seq<u8>
    decreases b.len(),
{
    if b.len() == 0 {
        b
    } else if b[0] == 0 {
        Seq::empty()
    } else {
        seq![b[0]] + before_nul(b.drop_first())
    }
}

/// What `String::from_utf8_lossy` makes of some bytes.
pub uninterp spec fn lossy_utf8(b: Seq<u8>) -> Seq<char>;

/// The characters that some bytes decode to: those they encode when they
/// are valid UTF-8, otherwise what replacing the invalid sequences gives.
pub open spec fn utf8_or_lossy(b: Seq<u8>) -> Seq<char> {
    if valid_utf8(b) {
        decode_utf8(b)
    } else {
        lossy_utf8(b)
    }
}

/// Relies on `String::from_utf8_lossy`: bytes that are valid UTF-8 decode to
/// the characters they encode; the result depends on the bytes alone.
#[verifier::external_body]
fn utf8_lossy(b: &[u8]) -> (r: String)
    ensures
        valid_utf8(b@) ==> r@ == decode_utf8(b@),
        !valid_utf8(b@) ==> r@ == lossy_utf8(b@),
{
    String::from_utf8_lossy(b).into_owned()
}

/// The characters that a boundary buffer stands for: the bytes before the
/// first nul, decoded with invalid sequences replaced.
pub open spec fn c_string_chars(b: Seq<u8>) -> Seq<char> {
    utf8_or_lossy(before_nul(b))
}

/// Encodes a string for the boundary: a fresh buffer that the receiver owns,
/// or `None` when the string holds a nul character.
pub fn encode_c_string(s: &str) -> (r: Option<Vec<u8>>)
    ensures
        buffer_bytes(r) == c_string_of(s@),
{
    let bytes = s.as_bytes();
    let mut out: Vec<u8> = Vec::new();
    let mut i: usize = 0;
    while i < bytes.len()
        invariant
            bytes@ == encode_utf8(s@),
            0 <= i <= bytes@.len(),
            out@ == bytes@.subrange(0, i as int),
            has_no_nul(out@),
        decreases bytes@.len() - i,
    {
        if bytes[i] == 0 {
            assert(!has_no_nul(bytes@));
            return None;
        }
        out.push(bytes[i]);
        i = i + 1;
        assert(out@ =~= bytes@.subrange(0, i as int));
    }
    assert(out@ =~= bytes@);
    out.push(0);
    Some(out)
}

/// Whether all the bytes before `i` are non-zero.
proof fn lemma_before_nul_prefix(b: Seq<u8>, i: int)
    requires
        0 <= i <= b.len(),
        has_no_nul(b.subrange(0, i)),
    ensures
        i < b.len() && b[i] == 0 ==> before_nul(b) == b.subrange(0, i),
        i == b.len() ==> before_nul(b) == b,
    decreases i,
{
    if i > 0 {
        assert(b[0] != 0) by {
            assert(b.subrange(0, i)[0] == b[0]);
        }
        let t = b.drop_first();
        assert(has_no_nul(t.subrange(0, i - 1))) by {
            assert forall|k: int| 0 <= k < i - 1 implies #[trigger] t.subrange(0, i - 1)[k] != 0 by {
                assert(t.subrange(0, i - 1)[k] == b.subrange(0, i)[k + 1]);
            }
        }
        lemma_before_nul_prefix(t, i - 1);
        assert(seq![b[0]] + t.subrange(0, i - 1) =~= b.subrange(0, i));
        assert(seq![b[0]] + t =~= b);
    } else {
        if b.len() == 0 {
        } else {
            assert(b.subrange(0, 0) =~= Seq::<u8>::empty());
        }
    }
}

/// Decodes a boundary string: the bytes before the first nul, with invalid
/// UTF-8 replaced.
pub fn decode_c_string(b: &[u8]) -> (r: String)
    ensures
        r@ == c_string_chars(b@),
{
    let mut end: usize = 0;
    while end < b.len() && b[end] != 0
        invariant
            0 <= end <= b@.len(),
            has_no_nul(b@.subrange(0, end as int)),
        decreases b@.len() - end,
    {
        end = end + 1;
        assert(has_no_nul(b@.subrange(0, end as int))) by {
            assert forall|k: int| 0 <= k < end implies #[trigger] b@.subrange(0, end as int)[k] != 0 by {
                if k < end - 1 {
                    assert(b@.subrange(0, end as int)[k] == b@.subrange(0, end - 1)[k]);
                }
            }
        }
    }
    proof {
        lemma_before_nul_prefix(b@, end as int);
        assert(b@.subrange(0, b@.len() as int) =~= b@);
    }
    let mut prefix: Vec<u8> = Vec::new();
    let mut i: usize = 0;
    while i < end
        invariant
            0 <= i <= end <= b@.len(),
            prefix@ == b@.subrange(0, i as int),
        decreases end - i,
    {
        prefix.push(b[i]);
        i = i + 1;
        assert(prefix@ =~= b@.subrange(0, i as int));
    }
    assert(prefix@ == before_nul(b@));
    utf8_lossy(prefix.as_slice())
}

/// Releases a boundary string; whoever received the buffer owns it, and
/// giving it up ends its life.
pub fn accesskit_string_free(string: Option<Vec<u8>>) {
}

/// A string read back from its boundary form is the string written.
pub proof fn lemma_c_string_round_trip(s: Seq<char>)
    requires
        c_string_of(s).is_some(),
    ensures
        before_nul(c_string_of(s).unwrap()) == encode_utf8(s),
        c_string_chars(c_string_of(s).unwrap()) == s,
{
    let b = encode_utf8(s);
    let c = b.push(0);
    assert(c.subrange(0, b.len() as int) =~= b);
    lemma_before_nul_prefix(c, b.len() as int);
}

/// An empty string is present on the boundary as a lone nul byte, which is
/// not the null reference that stands for absence; it reads back as empty.
pub proof fn lemma_empty_string_present()
    ensures
        c_string_of(Seq::<char>::empty()) == Some(seq![0u8]),
        c_string_chars(seq![0u8]) == Seq::<char>::empty(),
{
    assert(encode_utf8(Seq::<char>::empty()) =~= Seq::<u8>::empty());
    assert(Seq::<u8>::empty().push(0) =~= seq![0u8]);
    lemma_c_string_round_trip(Seq::<char>::empty());
}

} // verus!
