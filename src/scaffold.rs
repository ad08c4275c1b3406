//! Names of generated resource types: snake_case or kebab-case identifiers
//! turned into PascalCase.

use vstd::prelude::*;
use crate::strings::push_char;
use vstd::string::*;

verus! {

/// `_` and `-` separate the parts of an identifier.
pub open spec fn is_separator(c: char) -> bool {
    c == '_' || c == '-'
}

/// `char::to_ascii_uppercase`: ASCII lower case letters become upper case,
/// every other character stays.
pub open spec fn ascii_upper(c: char) -> char {
    if 'a' <= c && c <= 'z' {
        ((c as u32) - 32) as char
    } else {
        c
    }
}

/// What position `i` contributes: nothing for a separator, the ASCII upper
/// case of a part's first character, any other character as it is.
pub open spec fn ident_piece(cs: Seq<char>, i: int) -> Seq<char> {
    if is_separator(cs[i]) {
        Seq::empty()
    } else if i == 0 || is_separator(cs[i - 1]) {
        seq![ascii_upper(cs[i])]
    } else {
        seq![cs[i]]
    }
}

/// The PascalCase form of the first `n` characters of an identifier.
pub open spec fn ident_pascal(cs: Seq<char>, n: int) -> Seq<char>
    decreases n,
{
    if n <= 0 {
        Seq::empty()
    } else {
        ident_pascal(cs, n - 1) + ident_piece(cs, n - 1)
    }
}

fn to_ascii_upper(c: char) -> (r: char)
    ensures
        r == ascii_upper(c),
{
    if 'a' <= c && c <= 'z' {
        let u = (c as u32) - 32;
        assert(0x41 <= u <= 0x5a);
        (u as u8) as char
    } else {
        c
    }
}

/// Drops the separators of `s` and puts the first character of each part in
/// ASCII upper case: `"blog_post"` gives `"BlogPost"`.
pub fn to_pascal_case(s: &str) -> (r: String)
    ensures
        r@ == ident_pascal(s@, s@.len() as int),
{
    let n = s.unicode_len();
    let mut out = String::new();
    let mut capitalize_next = true;
    let mut i: usize = 0;
    while i < n
        invariant
            n == s@.len(),
            i <= n,
            out@ == ident_pascal(s@, i as int),
            capitalize_next == (i == 0 || is_separator(s@[i - 1])),
        decreases n - i,
    {
        let c = s.get_char(i);
        if c == '_' || c == '-' {
            capitalize_next = true;
        } else if capitalize_next {
            push_char(&mut out, to_ascii_upper(c));
            capitalize_next = false;
        } else {
            push_char(&mut out, c);
        }
        i = i + 1;
    }
    out
}

} // verus!
