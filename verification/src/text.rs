//! Helpers on text, stated over the sequence of characters.

use vstd::prelude::*;
use vstd::string::{StrSliceExecFns, StringExecFns};

verus! {

/// Two character sequences with the same UTF-8 encoding are the same.
proof fn lemma_same_encoding_same_text(a: Seq<char>, b: Seq<char>)
    ensures
        vstd::utf8::encode_utf8(a) == vstd::utf8::encode_utf8(b) ==> a == b,
{
    vstd::utf8::encode_utf8_decode_utf8(a);
    vstd::utf8::encode_utf8_decode_utf8(b);
}

/// Whether two texts hold the same characters.
pub fn same_text(a: &str, b: &str) -> (same: bool)
    ensures
        same == (a@ == b@),
{
    let left: &[u8] = a.as_bytes();
    let right: &[u8] = b.as_bytes();
    proof {
        lemma_same_encoding_same_text(a@, b@);
    }
    if left.len() != right.len() {
        return false;
    }
    let mut i: usize = 0;
    while i < left.len()
        invariant
            i <= left@.len(),
            left@.len() == right@.len(),
            left@ == vstd::utf8::encode_utf8(a@),
            right@ == vstd::utf8::encode_utf8(b@),
            forall|j: int| 0 <= j < i ==> left@[j] == right@[j],
        decreases left@.len() - i,
    {
        if left[i] != right[i] {
            return false;
        }
        i += 1;
    }
    assert(left@ =~= right@);
    true
}

/// What is left of `text` behind `prefix`, if `text` starts with it.
pub fn strip_prefix<'a>(text: &'a str, prefix: &str) -> (rest: Option<&'a str>)
    ensures
        match rest {
            Some(r) => text@ == prefix@ + r@,
            None => !prefix@.is_prefix_of(text@),
        },
{
    let n: usize = prefix.unicode_len();
    let total: usize = text.unicode_len();
    if total < n {
        return None;
    }
    let head: &str = text.substring_char(0, n);
    if same_text(head, prefix) {
        let tail: &str = text.substring_char(n, total);
        assert(text@ =~= prefix@ + tail@);
        Some(tail)
    } else {
        assert(!prefix@.is_prefix_of(text@));
        None
    }
}

/// `first` followed by `second`.
pub fn joined(first: &str, second: &str) -> (text: String)
    ensures
        text@ == first@ + second@,
{
    let mut text: String = first.to_owned();
    text.append(second);
    text
}

} // verus!
