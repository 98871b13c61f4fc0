//! Characters and strings: the few operations the game needs on them.

use vstd::prelude::*;

verus! {

/// Whether `c` is one of the ASCII capitals.
pub open spec fn is_ascii_capital(c: char) -> bool {
    'A' <= c <= 'Z'
}

/// The lower-case form of `c`: an ASCII capital becomes the matching small
/// letter, every other character is itself.
pub open spec fn lower(c: char) -> char {
    if is_ascii_capital(c) {
        ((c as u8) + 32) as char
    } else {
        c
    }
}

/// The sequence `s` with every character in lower case.
pub open spec fn lower_seq(s: Seq<char>) -> Seq<char> {
    Seq::new(s.len(), |i: int| lower(s[i]))
}

/// What `char::is_alphabetic` answers for `c`: whether `c` has the Unicode
/// property Alphabetic.
pub uninterp spec fn alphabetic(c: char) -> bool;

/// `char::is_alphabetic` of the standard library. Its answer is the Unicode
/// property Alphabetic of the character, which this library does not spell
/// out: the contract only gives the answer its name.
pub assume_specification[ char::is_alphabetic ](c: char) -> (b: bool)
    ensures
        b == alphabetic(c),
;

/// `String::push` of the standard library: the character is appended to the
/// end of the string and nothing else changes.
#[verifier::external_body]
pub(crate) fn push_char(s: &mut String, c: char)
    ensures
        final(s)@ == old(s)@.push(c),
{
    s.push(c)
}

/// Lower-cases one character.
pub fn to_lower(c: char) -> (r: char)
    ensures
        r == lower(c),
{
    if 'A' <= c && c <= 'Z' {
        ((c as u8) + 32) as char
    } else {
        c
    }
}

/// Whether `needle` occurs in `s`.
pub fn str_contains(s: &str, needle: char) -> (found: bool)
    ensures
        found == s@.contains(needle),
{
    let mut found = false;
    let chars = s.chars();
    for c in it: chars
        invariant
            it.seq() == s@,
            found == s@.take(it.index()).contains(needle),
    {
        proof {
            lemma_take_push_contains(s@, it.index(), needle);
        }
        if c == needle {
            found = true;
        }
    }
    assert(s@.take(s@.len() as int) =~= s@);
    found
}

/// Whether `needle` occurs in `v`.
pub fn vec_contains(v: &Vec<char>, needle: char) -> (found: bool)
    ensures
        found == v@.contains(needle),
{
    let mut i: usize = 0;
    while i < v.len()
        invariant
            i <= v.len(),
            !v@.take(i as int).contains(needle),
        decreases v.len() - i,
    {
        if v[i] == needle {
            return true;
        }
        proof {
            lemma_take_push_contains(v@, i as int, needle);
        }
        i += 1;
    }
    assert(v@.take(v@.len() as int) =~= v@);
    false
}

/// The characters of `chars` as a string.
pub fn string_from_chars(chars: &Vec<char>) -> (s: String)
    ensures
        s@ == chars@,
{
    let mut s = String::new();
    let mut i: usize = 0;
    while i < chars.len()
        invariant
            i <= chars.len(),
            s@ == chars@.take(i as int),
        decreases chars.len() - i,
    {
        push_char(&mut s, chars[i]);
        i += 1;
    }
    s
}

/// The string `s` with every character in lower case.
pub fn to_lower_string(s: &str) -> (r: String)
    ensures
        r@ == lower_seq(s@),
{
    let mut r = String::new();
    let chars = s.chars();
    for c in it: chars
        invariant
            it.seq() == s@,
            r@ == lower_seq(s@.take(it.index())),
    {
        push_char(&mut r, to_lower(c));
    }
    r
}

/// Lower case is final: the lower-case form of a character is no capital,
/// and taking it again changes nothing. So two characters that differ in
/// case only have the same lower-case form.
pub proof fn lemma_lower_is_idempotent(c: char)
    ensures
        !is_ascii_capital(lower(c)),
        lower(lower(c)) == lower(c),
        is_ascii_capital(c) ==> 'a' <= lower(c) <= 'z' && lower(c) as int == c as int + 32,
{
}

/// One more element of `s` taken: it holds `x` exactly if the shorter
/// prefix did or the new element is `x`.
pub proof fn lemma_take_push_contains<T>(s: Seq<T>, i: int, x: T)
    requires
        0 <= i < s.len(),
    ensures
        s.take(i + 1).contains(x) <==> s.take(i).contains(x) || s[i] == x,
{
    if s[i] == x {
        assert(s.take(i + 1)[i] == x);
    }
}

} // verus!
