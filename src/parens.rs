//! Locating the parenthesis that closes an already opened one.

use vstd::prelude::*;
use vstd::string::*;
use vstd::utf8::*;

verus! {

/// How a single character changes the nesting depth.
pub open spec fn depth_step(c: char) -> int {
    if c == '(' {
        1
    } else if c == ')' {
        -1
    } else {
        0
    }
}

/// Nesting depth after reading `cs[1..=i]`, counting `cs[0]` as the opening
/// parenthesis.
pub open spec fn depth(cs: Seq<char>, i: int) -> int
    decreases i,
{
    if i <= 0 {
        1
    } else {
        depth(cs, i - 1) + depth_step(cs[i])
    }
}

/// `i` is the first position after the opening one where the depth drops to zero.
pub open spec fn closes_at(cs: Seq<char>, i: int) -> bool {
    &&& 1 <= i < cs.len()
    &&& depth(cs, i) == 0
    &&& forall|j: int| 1 <= j < i ==> depth(cs, j) > 0
}

/// The characters of `content` from byte offset `start` on.
pub open spec fn chars_from(content: &str, start: int) -> Seq<char> {
    decode_utf8(content.spec_bytes().subrange(start, content.spec_bytes().len() as int))
}

proof fn lemma_encoding_not_shorter(cs: Seq<char>)
    ensures
        encode_utf8(cs).len() >= cs.len(),
    decreases cs.len(),
{
    if cs.len() > 0 {
        lemma_encoding_not_shorter(cs.drop_first());
    }
}

/// Finds the parenthesis closing the one at byte offset `start_pos` of
/// `content`, scanning the characters after it. The answer is `start_pos` plus
/// the character offset of the closing parenthesis from `start_pos`.
pub fn find_matching_parenthesis(content: &str, start_pos: usize) -> (r: Option<usize>)
    requires
        start_pos <= content.spec_bytes().len(),
        is_char_boundary(content.spec_bytes(), start_pos as int),
    ensures
        match r {
            Some(p) => p >= start_pos && closes_at(chars_from(content, start_pos as int), p - start_pos),
            None => forall|i: int|
                1 <= i < chars_from(content, start_pos as int).len() ==> depth(
                    chars_from(content, start_pos as int),
                    i,
                ) != 0,
        },
{
    let total = content.as_bytes().len();
    let (_head, tail) = content.split_at(start_pos);
    let ghost cs = chars_from(content, start_pos as int);
    proof {
        encode_utf8_valid_utf8(content@);
        encode_utf8_decode_utf8(tail@);
        assert(tail.spec_bytes() == encode_utf8(tail@));
        assert(tail@ == cs);
        lemma_encoding_not_shorter(tail@);
        assert(tail.spec_bytes().len() == total - start_pos);
    }
    let n = tail.unicode_len();
    let mut count: usize = 1;
    let mut i: usize = 1;
    while i < n
        invariant
            tail@ == cs,
            cs == chars_from(content, start_pos as int),
            n == cs.len(),
            1 <= i,
            start_pos + n <= total,
            count as int == depth(cs, i - 1),
            1 <= count <= i,
            forall|j: int| 1 <= j < i ==> depth(cs, j) > 0,
        decreases n - i,
    {
        let c = tail.get_char(i);
        if c == '(' {
            count = count + 1;
        } else if c == ')' {
            count = count - 1;
            if count == 0 {
                assert(depth(cs, i as int) == 0);
                return Some(start_pos + i);
            }
        }
        i = i + 1;
    }
    None
}

} // verus!
