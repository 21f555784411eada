//! The syntactic gate on usernames: only strings shaped like an e-mail
//! address with a single `@` are accepted at signup.

use vstd::prelude::*;
use vstd::utf8::{encode_utf8, is_ascii_chars, is_ascii_chars_encode_utf8};

verus! {

/// The byte `@`.
pub const AT_SIGN: u8 = 64;

/// The byte `.`.
pub const FULL_STOP: u8 = 46;

/// `at` is the position of the only `@` in `bytes`.
pub open spec fn sole_at_sign(bytes: Seq<u8>, at: int) -> bool {
    &&& 0 <= at < bytes.len()
    &&& bytes[at] == AT_SIGN
    &&& forall|j: int| 0 <= j < bytes.len() && bytes[j] == AT_SIGN ==> j == at
}

/// What is asked of the part behind the `@`: more than three bytes, a `.`
/// among them, and none at either end.
pub open spec fn domain_shaped(domain: Seq<u8>) -> bool {
    &&& domain.len() > 3
    &&& domain.contains(FULL_STOP)
    &&& domain.first() != FULL_STOP
    &&& domain.last() != FULL_STOP
}

/// The shape rule on the UTF-8 bytes of a username: more than five bytes,
/// exactly one `@`, something in front of it, and a well-shaped domain
/// behind it.
pub open spec fn email_shaped(bytes: Seq<u8>) -> bool {
    &&& bytes.len() > 5
    &&& exists|at: int|
        0 < at && #[trigger] sole_at_sign(bytes, at) && domain_shaped(bytes.skip(at + 1))
}

/// The shape rule read on characters: more than five of them, exactly one
/// `@`, something in front of it, and behind it more than three characters
/// with a `.` among them and none at either end.
pub open spec fn text_shaped(text: Seq<char>) -> bool {
    &&& text.len() > 5
    &&& exists|at: int|
        {
            &&& 0 < at < text.len()
            &&& #[trigger] text[at] == '@'
            &&& forall|j: int| 0 <= j < text.len() && text[j] == '@' ==> j == at
            &&& text.len() - at - 1 > 3
            &&& exists|k: int| at < k < text.len() && text[k] == '.'
            &&& text[at + 1] != '.'
            &&& text[text.len() - 1] != '.'
        }
}

/// For a username of ASCII characters, where a character is a byte, the
/// shape rule on the bytes is the rule on the characters.
pub proof fn ascii_username_is_judged_by_its_characters(text: Seq<char>)
    requires
        is_ascii_chars(text),
    ensures
        email_shaped(encode_utf8(text)) == text_shaped(text),
{
    let bytes = encode_utf8(text);
    is_ascii_chars_encode_utf8(text);
    assert forall|i: int| 0 <= i < text.len() implies (bytes[i] == AT_SIGN) == (text[i] == '@')
        && (bytes[i] == FULL_STOP) == (text[i] == '.') by {
        assert(text[i] as u8 == bytes[i]);
    }
    if email_shaped(bytes) {
        let at = choose|at: int|
            0 < at && #[trigger] sole_at_sign(bytes, at) && domain_shaped(bytes.skip(at + 1));
        let domain = bytes.skip(at + 1);
        let k = choose|k: int| 0 <= k < domain.len() && domain[k] == FULL_STOP;
        assert(bytes[at + 1 + k] == FULL_STOP);
        assert(domain.first() == bytes[at + 1]);
        assert(domain.last() == bytes[bytes.len() - 1]);
        assert(text[at] == '@');
        assert(text[at + 1 + k] == '.');
        assert(text_shaped(text));
    }
    if text_shaped(text) {
        let at = choose|at: int|
            {
                &&& 0 < at < text.len()
                &&& #[trigger] text[at] == '@'
                &&& forall|j: int| 0 <= j < text.len() && text[j] == '@' ==> j == at
                &&& text.len() - at - 1 > 3
                &&& exists|k: int| at < k < text.len() && text[k] == '.'
                &&& text[at + 1] != '.'
                &&& text[text.len() - 1] != '.'
            };
        let k = choose|k: int| at < k < text.len() && text[k] == '.';
        let domain = bytes.skip(at + 1);
        assert(domain[k - at - 1] == FULL_STOP);
        assert(domain.first() == bytes[at + 1]);
        assert(domain.last() == bytes[bytes.len() - 1]);
        assert(sole_at_sign(bytes, at));
        assert(email_shaped(bytes));
    }
}

/// Whether `email` passes the shape rule. Lengths are counted in bytes of
/// the UTF-8 encoding.
pub fn is_valid_email(email: &str) -> (ok: bool)
    ensures
        ok == email_shaped(encode_utf8(email@)),
{
    let bytes = email.as_bytes();
    let n: usize = bytes.len();
    let mut seen: usize = 0;
    let mut at: usize = 0;
    let mut dot: bool = false;
    let mut i: usize = 0;
    while i < n
        invariant
            n == bytes@.len(),
            0 <= i <= n,
            seen <= i,
            seen == 0 ==> forall|j: int| 0 <= j < i ==> bytes@[j] != AT_SIGN,
            seen == 1 ==> 0 <= at < i && bytes@[at as int] == AT_SIGN && forall|j: int|
                0 <= j < i && bytes@[j] == AT_SIGN ==> j == at,
            seen >= 2 ==> exists|j: int, k: int|
                0 <= j < k < i && bytes@[j] == AT_SIGN && bytes@[k] == AT_SIGN,
            seen == 1 ==> (dot <==> exists|j: int| at < j < i && bytes@[j] == FULL_STOP),
        decreases n - i,
    {
        let b: u8 = bytes[i];
        if b == AT_SIGN {
            if seen == 0 {
                at = i;
                dot = false;
            }
            seen = seen + 1;
        } else if b == FULL_STOP && seen == 1 {
            dot = true;
        }
        i = i + 1;
    }
    if seen != 1 {
        proof {
            assert forall|a: int| !sole_at_sign(bytes@, a) by {}
        }
        return false;
    }
    assert(sole_at_sign(bytes@, at as int));
    let ghost domain = bytes@.skip(at as int + 1);
    proof {
        assert forall|a: int| sole_at_sign(bytes@, a) implies a == at by {}
        if dot {
            let j = choose|j: int| at < j < n && bytes@[j] == FULL_STOP;
            assert(domain[j - at - 1] == FULL_STOP);
        }
        if domain.contains(FULL_STOP) {
            let k = choose|k: int| 0 <= k < domain.len() && domain[k] == FULL_STOP;
            assert(bytes@[k + at + 1] == FULL_STOP);
        }
        assert(dot == domain.contains(FULL_STOP));
    }
    if n <= 5 || at == 0 || n - at - 1 <= 3 || !dot {
        return false;
    }
    assert(domain.first() == bytes@[at as int + 1]);
    assert(domain.last() == bytes@[n as int - 1]);
    bytes[at + 1] != FULL_STOP && bytes[n - 1] != FULL_STOP
}

} // verus!
