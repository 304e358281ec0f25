//! Basic transliteration utilities (stubs).
use vstd::prelude::*;

verus! {

/// Relies on `String::push`: appends exactly the given character.
#[verifier::external_body]
fn push_char(s: &mut String, c: char)
    ensures
        final(s)@ == old(s)@.push(c),
{
    s.push(c)
}

/// Placeholder transliteration: the input reversed, then the marker
/// `"\u{00B7}ar"`.
pub fn latin_to_arabic_stub(input: &str) -> (r: String)
    ensures
        r@.len() == input@.len() + 3,
        forall|i: int| 0 <= i < input@.len() ==> r@[i] == input@[input@.len() - 1 - i],
        r@[input@.len() as int] == '\u{00B7}',
        r@[input@.len() as int + 1] == 'a',
        r@[input@.len() as int + 2] == 'r',
{
    let n = input.unicode_len();
    let mut out = String::new();
    let mut i: usize = 0;
    while i < n
        invariant
            i <= n,
            n == input@.len(),
            out@.len() == i,
            forall|j: int| 0 <= j < i ==> out@[j] == input@[n - 1 - j],
        decreases n - i,
    {
        let c = input.get_char(n - 1 - i);
        push_char(&mut out, c);
        i = i + 1;
    }
    push_char(&mut out, '\u{00B7}');
    push_char(&mut out, 'a');
    push_char(&mut out, 'r');
    out
}

/// What the vowel encoding makes of one character: a lower-case vowel
/// becomes `'\u{2234}'`, anything else stays itself.
pub open spec fn sga_char(c: char) -> char {
    if c == 'a' || c == 'e' || c == 'i' || c == 'o' || c == 'u' {
        '\u{2234}'
    } else {
        c
    }
}

/// Placeholder encoding: every lower-case vowel is replaced by
/// `'\u{2234}'`, character for character.
pub fn sga_encode_stub(input: &str) -> (r: String)
    ensures
        r@.len() == input@.len(),
        forall|i: int| 0 <= i < input@.len() ==> r@[i] == sga_char(input@[i]),
{
    let n = input.unicode_len();
    let mut out = String::new();
    let mut i: usize = 0;
    while i < n
        invariant
            i <= n,
            n == input@.len(),
            out@.len() == i,
            forall|j: int| 0 <= j < i ==> out@[j] == sga_char(input@[j]),
        decreases n - i,
    {
        let c = input.get_char(i);
        if c == 'a' || c == 'e' || c == 'i' || c == 'o' || c == 'u' {
            push_char(&mut out, '\u{2234}');
        } else {
            push_char(&mut out, c);
        }
        i = i + 1;
    }
    out
}

} // verus!
