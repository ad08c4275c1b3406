//! Naming conventions for generated items: PascalCase and camelCase built from
//! words separated by white space.

use vstd::prelude::*;
use vstd::string::*;

verus! {

/// The Unicode `White_Space` property, which `char::is_whitespace` tests.
pub open spec fn is_white_space(c: char) -> bool {
    let u = c as u32;
    ||| 0x09 <= u <= 0x0d
    ||| u == 0x20
    ||| u == 0x85
    ||| u == 0xa0
    ||| u == 0x1680
    ||| 0x2000 <= u <= 0x200a
    ||| u == 0x2028
    ||| u == 0x2029
    ||| u == 0x202f
    ||| u == 0x205f
    ||| u == 0x3000
}

/// What `char::to_uppercase` yields for `c`.
pub uninterp spec fn upper_of(c: char) -> Seq<char>;

/// What `str::to_lowercase` yields for the characters `s`.
pub uninterp spec fn lower_of(s: Seq<char>) -> Seq<char>;

/// Relies on `char::to_uppercase`: the upper case mapping of one character.
#[verifier::external_body]
fn upper(c: char) -> (r: String)
    ensures
        r@ == upper_of(c),
{
    c.to_uppercase().collect::<String>()
}

/// Relies on `str::to_lowercase`: the lower case mapping of a string.
#[verifier::external_body]
fn lower(s: &str) -> (r: String)
    ensures
        r@ == lower_of(s@),
{
    s.to_lowercase()
}

fn white_space(c: char) -> (r: bool)
    ensures
        r == is_white_space(c),
{
    let u = c as u32;
    (0x09 <= u && u <= 0x0d) || u == 0x20 || u == 0x85 || u == 0xa0 || u == 0x1680 || (0x2000
        <= u && u <= 0x200a) || u == 0x2028 || u == 0x2029 || u == 0x202f || u == 0x205f || u
        == 0x3000
}

/// Position `i` holds the first character of a word.
pub open spec fn starts_word(cs: Seq<char>, i: int) -> bool {
    !is_white_space(cs[i]) && (i == 0 || is_white_space(cs[i - 1]))
}

/// What position `i` contributes to the PascalCase form: nothing for white
/// space, the upper case of a word's first character, any other character as
/// it is.
pub open spec fn pascal_piece(cs: Seq<char>, i: int) -> Seq<char> {
    if is_white_space(cs[i]) {
        Seq::empty()
    } else if starts_word(cs, i) {
        upper_of(cs[i])
    } else {
        seq![cs[i]]
    }
}

/// The PascalCase form of the first `n` characters.
pub open spec fn pascal_prefix(cs: Seq<char>, n: int) -> Seq<char>
    decreases n,
{
    if n <= 0 {
        Seq::empty()
    } else {
        pascal_prefix(cs, n - 1) + pascal_piece(cs, n - 1)
    }
}

/// The words of `cs` joined, each with its first character in upper case.
pub open spec fn pascal(cs: Seq<char>) -> Seq<char> {
    pascal_prefix(cs, cs.len() as int)
}

/// The first position at or after `i` that is not white space (or the end).
pub open spec fn next_word(cs: Seq<char>, i: int) -> int
    decreases cs.len() - i,
{
    if i >= cs.len() || !is_white_space(cs[i]) {
        i
    } else {
        next_word(cs, i + 1)
    }
}

/// The first position at or after `i` that is white space (or the end).
pub open spec fn word_end(cs: Seq<char>, i: int) -> int
    decreases cs.len() - i,
{
    if i >= cs.len() || is_white_space(cs[i]) {
        i
    } else {
        word_end(cs, i + 1)
    }
}

/// The first word in lower case, then the other words as in PascalCase.
pub open spec fn camel(cs: Seq<char>) -> Seq<char> {
    let a = next_word(cs, 0);
    if a >= cs.len() {
        Seq::empty()
    } else {
        let b = word_end(cs, a);
        lower_of(cs.subrange(a, b)) + pascal(cs.subrange(b, cs.len() as int))
    }
}

/// Joins the white-space separated words of `s`, each with its first character
/// in upper case: `"user profile"` gives `"UserProfile"`.
pub fn to_pascal_case(s: &str) -> (r: String)
    ensures
        r@ == pascal(s@),
{
    let n = s.unicode_len();
    let mut out = String::new();
    let mut i: usize = 0;
    while i < n
        invariant
            n == s@.len(),
            i <= n,
            out@ == pascal_prefix(s@, i as int),
        decreases n - i,
    {
        let c = s.get_char(i);
        if !white_space(c) {
            let first = i == 0 || white_space(s.get_char(i - 1));
            if first {
                let up = upper(c);
                out.append(up.as_str());
            } else {
                let one = s.substring_char(i, i + 1);
                assert(one@ =~= seq![c]);
                out.append(one);
            }
        }
        i = i + 1;
    }
    out
}

/// Like [`to_pascal_case`], but the first word is put in lower case as a
/// whole: `"User profile"` gives `"userProfile"`.
pub fn to_camel_case(s: &str) -> (r: String)
    ensures
        r@ == camel(s@),
{
    let n = s.unicode_len();
    let mut a: usize = 0;
    while a < n && white_space(s.get_char(a))
        invariant
            n == s@.len(),
            a <= n,
            next_word(s@, 0) == next_word(s@, a as int),
        decreases n - a,
    {
        a = a + 1;
    }
    if a >= n {
        return String::new();
    }
    let mut b: usize = a;
    while b < n && !white_space(s.get_char(b))
        invariant
            n == s@.len(),
            a <= b <= n,
            word_end(s@, a as int) == word_end(s@, b as int),
        decreases n - b,
    {
        b = b + 1;
    }
    let mut out = lower(s.substring_char(a, b));
    let rest = to_pascal_case(s.substring_char(b, n));
    out.append(rest.as_str());
    out
}

} // verus!
