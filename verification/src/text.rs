//! Small operations on strings, stated over their characters.

use vstd::prelude::*;
use vstd::string::StringSliceAdditionalSpecFns;

verus! {

/// `String::push` of std, which appends one character to the string.
#[verifier::external_body]
pub(crate) fn push_char(text: &mut String, c: char)
    ensures
        final(text)@ == old(text)@.push(c),
{
    text.push(c);
}

/// Whether `text` starts with `prefix`.
pub fn starts_with(text: &str, prefix: &str) -> (r: bool)
    ensures
        r == prefix@.is_prefix_of(text@),
{
    let n: usize = prefix.unicode_len();
    if text.unicode_len() < n {
        return false;
    }
    let mut i: usize = 0;
    while i < n
        invariant
            i <= n,
            n == prefix@.len(),
            n <= text@.len(),
            forall|k: int| 0 <= k < i ==> text@[k] == prefix@[k],
        decreases n - i,
    {
        if text.get_char(i) != prefix.get_char(i) {
            assert(text@.subrange(0, n as int)[i as int] != prefix@[i as int]);
            return false;
        }
        i += 1;
    }
    assert(text@.subrange(0, n as int) =~= prefix@);
    true
}

/// Whether the two strings are the same text.
pub fn text_eq(a: &str, b: &str) -> (r: bool)
    ensures
        r == (a@ == b@),
{
    let x = a.as_bytes();
    let y = b.as_bytes();
    proof {
        vstd::utf8::encode_utf8_decode_utf8(a@);
        vstd::utf8::encode_utf8_decode_utf8(b@);
    }
    if x.len() != y.len() {
        return false;
    }
    let mut i: usize = 0;
    while i < x.len()
        invariant
            i <= x.len(),
            x@.len() == y@.len(),
            x@ == vstd::utf8::encode_utf8(a@),
            y@ == vstd::utf8::encode_utf8(b@),
            forall|k: int| 0 <= k < i ==> x@[k] == y@[k],
        decreases x.len() - i,
    {
        if x[i] != y[i] {
            return false;
        }
        i += 1;
    }
    assert(x@ =~= y@);
    true
}

/// `needle` stands in `text` at position `at`.
pub open spec fn occurs_at(text: Seq<u8>, needle: Seq<u8>, at: int) -> bool {
    0 <= at && at + needle.len() <= text.len() && text.subrange(at, at + needle.len()) == needle
}

/// `needle` stands somewhere in `text`.
pub open spec fn occurs_in(text: Seq<u8>, needle: Seq<u8>) -> bool {
    exists|at: int| occurs_at(text, needle, at)
}

/// Whether the bytes of `text` hold the bytes of `needle`.
fn bytes_at(text: &[u8], needle: &[u8], at: usize) -> (r: bool)
    requires
        at + needle@.len() <= text@.len(),
    ensures
        r == occurs_at(text@, needle@, at as int),
{
    let mut i: usize = 0;
    while i < needle.len()
        invariant
            i <= needle.len(),
            at + needle@.len() <= text@.len(),
            text@.len() == text.len(),
            forall|k: int| 0 <= k < i ==> text@[at + k] == needle@[k],
        decreases needle.len() - i,
    {
        if text[at + i] != needle[i] {
            assert(text@.subrange(at as int, at + needle@.len())[i as int] != needle@[i as int]);
            return false;
        }
        i += 1;
    }
    assert(text@.subrange(at as int, at + needle@.len()) =~= needle@);
    true
}

/// Whether `text` holds `needle`, both taken in their UTF-8 form.
pub fn contains(text: &str, needle: &str) -> (r: bool)
    ensures
        r == occurs_in(text.spec_bytes(), needle.spec_bytes()),
{
    let hay = text.as_bytes();
    let pin = needle.as_bytes();
    if pin.len() > hay.len() {
        return false;
    }
    let last: usize = hay.len() - pin.len();
    let mut at: usize = 0;
    loop
        invariant
            at <= last,
            last == hay@.len() - pin@.len(),
            hay@ == text.spec_bytes(),
            pin@ == needle.spec_bytes(),
            forall|k: int| 0 <= k < at ==> !occurs_at(hay@, pin@, k),
        decreases last - at,
    {
        if bytes_at(hay, pin, at) {
            return true;
        }
        if at == last {
            return false;
        }
        at += 1;
    }
}

/// The two strings one behind the other.
pub fn join(first: &str, second: &str) -> (r: String)
    ensures
        r@ == first@ + second@,
{
    let mut r = first.to_owned();
    r.append(second);
    r
}

/// The lower-case form of an ASCII capital letter; any other character as
/// it is.
pub open spec fn ascii_lower(c: char) -> char {
    if 'A' <= c && c <= 'Z' {
        ((c as u8) + 32) as char
    } else {
        c
    }
}

/// The lower-case form of an ASCII capital letter; any other character as
/// it is.
pub fn to_ascii_lower(c: char) -> (r: char)
    ensures
        r == ascii_lower(c),
{
    if 'A' <= c && c <= 'Z' {
        ((c as u8) + 32) as char
    } else {
        c
    }
}

} // verus!
