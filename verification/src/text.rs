//! Character-level helpers on `String` and `&str`, stated over the
//! `Seq<char>` views that vstd gives to both.
use vstd::prelude::*;
use vstd::utf8::encode_utf8;

verus! {

/// Number of bytes of the UTF-8 encoding of `s`: what `str::len` returns.
pub open spec fn byte_len(s: Seq<char>) -> nat {
    encode_utf8(s).len()
}

/// Whether `c` is one of the ASCII digits `0`..`9`.
pub open spec fn is_digit(c: char) -> bool {
    48 <= (c as u32) <= 57
}

/// `String::push`, which appends `c` at the end of the string.
#[verifier::external_body]
pub(crate) fn push_char(s: &mut String, c: char)
    ensures
        final(s)@ == old(s)@.push(c),
{
    s.push(c);
}

/// Takes the last character off `s` and returns it, or returns `None` and
/// leaves `s` as it is when it is empty (what `String::pop` does).
pub(crate) fn pop_char(s: &mut String) -> (r: Option<char>)
    ensures
        old(s)@.len() == 0 ==> r is None && final(s)@ == old(s)@,
        old(s)@.len() > 0 ==> r == Some(old(s)@.last()) && final(s)@ == old(s)@.drop_last(),
{
    let n = s.as_str().unicode_len();
    if n == 0 {
        return None;
    }
    let c = s.as_str().get_char(n - 1);
    let rest = String::from_str(s.as_str().substring_char(0, n - 1));
    *s = rest;
    Some(c)
}

/// `String::insert` at byte position 0, which puts `c` in front of the
/// string (position 0 is always a character boundary, so it cannot panic).
#[verifier::external_body]
pub(crate) fn insert_front(s: &mut String, c: char)
    ensures
        final(s)@ == seq![c] + old(s)@,
{
    s.insert(0, c);
}

/// Takes the first character off a non-empty `s` and returns it (what
/// `String::remove(0)` does).
pub(crate) fn remove_front(s: &mut String) -> (r: char)
    requires
        old(s)@.len() > 0,
    ensures
        r == old(s)@[0],
        final(s)@ == old(s)@.drop_first(),
{
    let n = s.as_str().unicode_len();
    let c = s.as_str().get_char(0);
    let rest = String::from_str(s.as_str().substring_char(1, n));
    assert(rest@ =~= old(s)@.drop_first());
    *s = rest;
    c
}

/// Whether two strings hold the same characters.
pub fn same_text(a: &str, b: &str) -> (r: bool)
    ensures
        r == (a@ == b@),
{
    let n = a.unicode_len();
    if n != b.unicode_len() {
        return false;
    }
    let mut i: usize = 0;
    while i < n
        invariant
            n == a@.len(),
            n == b@.len(),
            i <= n,
            forall|j: int| 0 <= j < i ==> a@[j] == b@[j],
        decreases n - i,
    {
        if a.get_char(i) != b.get_char(i) {
            return false;
        }
        i = i + 1;
    }
    assert(a@ =~= b@);
    true
}

/// Whether `s` holds the character `c` anywhere.
pub fn has_char(s: &str, c: char) -> (r: bool)
    ensures
        r == s@.contains(c),
{
    let n = s.unicode_len();
    let mut i: usize = 0;
    while i < n
        invariant
            n == s@.len(),
            i <= n,
            forall|j: int| 0 <= j < i ==> s@[j] != c,
        decreases n - i,
    {
        if s.get_char(i) == c {
            return true;
        }
        i = i + 1;
    }
    false
}

/// Whether `s` begins with the character `c`.
pub fn starts_with_char(s: &str, c: char) -> (r: bool)
    ensures
        r == (s@.len() > 0 && s@[0] == c),
{
    if s.unicode_len() == 0 {
        false
    } else {
        s.get_char(0) == c
    }
}

/// Whether `s` is exactly the one-character string made of `c`.
pub fn is_single(s: &str, c: char) -> (r: bool)
    ensures
        r == (s@ == seq![c]),
{
    let n = s.unicode_len();
    if n != 1 {
        proof {
            if s@ == seq![c] {
                assert(s@.len() == 1);
            }
        }
        return false;
    }
    let r = s.get_char(0) == c;
    proof {
        if r {
            assert(s@ =~= seq![c]);
        }
    }
    r
}

/// A new `String` holding the characters of `s`.
pub fn owned(s: &str) -> (r: String)
    ensures
        r@ == s@,
{
    String::from_str(s)
}

} // verus!
