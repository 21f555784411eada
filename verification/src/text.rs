//! Comparisons of texts, made on their UTF-8 bytes.

use vstd::prelude::*;
use vstd::utf8::{encode_utf8, encode_utf8_decode_utf8};

verus! {

/// Two texts with the same UTF-8 bytes are the same text.
pub proof fn same_bytes_same_text(a: Seq<char>, b: Seq<char>)
    requires
        encode_utf8(a) == encode_utf8(b),
    ensures
        a == b,
{
    encode_utf8_decode_utf8(a);
    encode_utf8_decode_utf8(b);
}

/// Whether `hay` begins with `needle`.
pub fn bytes_start_with(hay: &[u8], needle: &[u8]) -> (r: bool)
    ensures
        r == needle@.is_prefix_of(hay@),
{
    if needle.len() > hay.len() {
        return false;
    }
    let mut i: usize = 0;
    while i < needle.len()
        invariant
            0 <= i <= needle@.len() <= hay@.len(),
            forall|j: int| 0 <= j < i ==> needle@[j] == hay@[j],
        decreases needle@.len() - i,
    {
        if needle[i] != hay[i] {
            assert(hay@.subrange(0, needle@.len() as int)[i as int] != needle@[i as int]);
            return false;
        }
        i = i + 1;
    }
    assert(hay@.subrange(0, needle@.len() as int) =~= needle@);
    true
}

/// Whether `a` and `b` are the same text.
pub fn same_text(a: &str, b: &str) -> (r: bool)
    ensures
        r == (a@ == b@),
{
    let x = a.as_bytes();
    let y = b.as_bytes();
    if x.len() != y.len() {
        return false;
    }
    let same = bytes_start_with(x, y);
    proof {
        if same {
            assert(x@.subrange(0, y@.len() as int) =~= x@);
            same_bytes_same_text(a@, b@);
        }
    }
    same
}

} // verus!
