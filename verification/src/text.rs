//! Small operations on text that the rest of the library shares.

use vstd::prelude::*;
use vstd::string::StrSliceExecFns;
use vstd::string::StringSliceAdditionalSpecFns;
use vstd::utf8::encode_utf8_decode_utf8;

verus! {

/// Two texts with the same bytes are the same text.
pub proof fn lemma_bytes_decide_text(a: Seq<char>, b: Seq<char>)
    requires
        vstd::utf8::encode_utf8(a) == vstd::utf8::encode_utf8(b),
    ensures
        a == b,
{
    encode_utf8_decode_utf8(a);
    encode_utf8_decode_utf8(b);
}

/// Tells whether two texts are equal.
pub fn same_text(a: &str, b: &str) -> (same: bool)
    ensures
        same == (a@ == b@),
{
    let left = a.as_bytes();
    let right = b.as_bytes();
    if left.len() != right.len() {
        return false;
    }
    let mut i: usize = 0;
    while i < left.len()
        invariant
            left@ == a.spec_bytes(),
            right@ == b.spec_bytes(),
            left@.len() == right@.len(),
            i <= left@.len(),
            forall|j: int| 0 <= j < i ==> left@[j] == right@[j],
        decreases left@.len() - i,
    {
        if left[i] != right[i] {
            return false;
        }
        i += 1;
    }
    proof {
        assert(left@ =~= right@);
        lemma_bytes_decide_text(a@, b@);
    }
    true
}

/// What follows a tag at the start of a text, if the text starts with it.
pub fn strip_prefix<'a>(text: &'a str, tag: &str) -> (rest: Option<&'a str>)
    ensures
        match rest {
            Some(tail) => text@ == tag@ + tail@,
            None => !tag@.is_prefix_of(text@),
        },
{
    let n = text.unicode_len();
    let m = tag.unicode_len();
    if m > n {
        return None;
    }
    let mut i: usize = 0;
    while i < m
        invariant
            n == text@.len(),
            m == tag@.len(),
            i <= m <= n,
            forall|j: int| 0 <= j < i ==> text@[j] == tag@[j],
        decreases m - i,
    {
        if text.get_char(i) != tag.get_char(i) {
            assert(text@.subrange(0, m as int)[i as int] != tag@[i as int]);
            return None;
        }
        i += 1;
    }
    let tail = text.substring_char(m, n);
    assert(text@ =~= tag@ + tail@);
    Some(tail)
}

} // verus!
