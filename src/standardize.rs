use vstd::prelude::*;
use vstd::string::*;

verus! {

/// `c` with an ASCII upper-case letter turned into its lower-case form; any
/// other character unchanged.
pub open spec fn ascii_lower(c: char) -> char {
    if 'A' <= c && c <= 'Z' {
        ((c as u32) + 32) as char
    } else {
        c
    }
}

/// Whether `char::is_alphanumeric` holds of `c` (Unicode's Alphabetic or
/// Numeric property).
pub uninterp spec fn alphanumeric(c: char) -> bool;

/// The normalised form of a name: ASCII letters lowered, then every character
/// that is not alphanumeric dropped (`char::is_alphanumeric`, which on ASCII
/// holds of exactly the letters and digits).
pub open spec fn flatten(s: Seq<char>) -> Seq<char>
    decreases s.len(),
{
    if s.len() == 0 {
        Seq::empty()
    } else {
        let c = ascii_lower(s.last());
        if kept(c) {
            flatten(s.drop_last()).push(c)
        } else {
            flatten(s.drop_last())
        }
    }
}

/// Whether `c` is an ASCII letter or digit.
pub open spec fn ascii_alnum(c: char) -> bool {
    ('a' <= c && c <= 'z') || ('A' <= c && c <= 'Z') || ('0' <= c && c <= '9')
}

/// Whether normalisation keeps `c`: an ASCII character is kept where it is
/// a letter or digit, any other where it is alphanumeric.
pub open spec fn kept(c: char) -> bool {
    if (c as u32) < 128 {
        ascii_alnum(c)
    } else {
        alphanumeric(c)
    }
}

fn to_ascii_lower(c: char) -> (r: char)
    ensures
        r == ascii_lower(c),
{
    if 'A' <= c && c <= 'Z' {
        let b: u8 = (c as u8) + 32;
        b as char
    } else {
        c
    }
}

/// Relies on `char::is_alphanumeric`: among ASCII characters, exactly the
/// letters and digits are alphanumeric.
#[verifier::external_body]
fn is_alphanumeric(c: char) -> (r: bool)
    ensures
        r == alphanumeric(c),
        (c as u32) < 128 ==> (r <==> ('a' <= c <= 'z' || 'A' <= c <= 'Z' || '0' <= c <= '9')),
{
    c.is_alphanumeric()
}

/// Relies on `String::push`: appends one character.
#[verifier::external_body]
fn push_char(s: &mut String, c: char)
    ensures
        final(s)@ == old(s)@.push(c),
{
    s.push(c)
}

/// Whether two strings hold the same characters.
pub fn str_eq(a: &str, b: &str) -> (r: bool)
    ensures
        r == (a@ == b@),
{
    let n = a.unicode_len();
    if n != b.unicode_len() {
        return false;
    }
    let mut i: usize = 0;
    while i < n
        invariant
            n == a@.len(),
            n == b@.len(),
            i <= n,
            a@.subrange(0, i as int) == b@.subrange(0, i as int),
        decreases n - i,
    {
        if a.get_char(i) != b.get_char(i) {
            assert(a@[i as int] != b@[i as int]);
            return false;
        }
        assert(a@.subrange(0, i + 1) == a@.subrange(0, i as int).push(a@[i as int]));
        assert(b@.subrange(0, i + 1) == b@.subrange(0, i as int).push(b@[i as int]));
        i = i + 1;
    }
    assert(a@ == a@.subrange(0, n as int));
    assert(b@ == b@.subrange(0, n as int));
    true
}

/// Normalises a name for comparison: ASCII letters are lowered and every
/// character that is not alphanumeric is dropped.
pub fn flatten_str(s: &str) -> (r: String)
    ensures
        r@ == flatten(s@),
{
    let n = s.unicode_len();
    let mut out = String::new();
    let mut i: usize = 0;
    while i < n
        invariant
            n == s@.len(),
            i <= n,
            out@ == flatten(s@.subrange(0, i as int)),
        decreases n - i,
    {
        let c = to_ascii_lower(s.get_char(i));
        assert(s@.subrange(0, i + 1).drop_last() == s@.subrange(0, i as int));
        if is_alphanumeric(c) {
            push_char(&mut out, c);
        }
        i = i + 1;
    }
    assert(s@.subrange(0, n as int) == s@);
    out
}

} // verus!

