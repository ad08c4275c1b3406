//! Patching generated source files: declaring a new module once, and wiring a
//! resource's routes into the route table.

use vstd::prelude::*;
use vstd::string::*;
use crate::parens::{closes_at, depth};

verus! {

/// `p` occurs in `s` at position `i`.
pub open spec fn occurs_at(s: Seq<char>, p: Seq<char>, i: int) -> bool {
    0 <= i && i + p.len() <= s.len() && s.subrange(i, i + p.len()) == p
}

/// `p` occurs somewhere in `s`.
pub open spec fn occurs(s: Seq<char>, p: Seq<char>) -> bool {
    exists|i: int| occurs_at(s, p, i)
}

fn occurs_at_exec(s: &str, p: &str, i: usize) -> (r: bool)
    requires
        i + p@.len() <= s@.len(),
    ensures
        r == occurs_at(s@, p@, i as int),
{
    let n = s.unicode_len();
    let m = p.unicode_len();
    let mut j: usize = 0;
    while j < m
        invariant
            n == s@.len(),
            m == p@.len(),
            i + m <= s@.len(),
            j <= m,
            forall|k: int| 0 <= k < j ==> s@[i + k] == p@[k],
        decreases m - j,
    {
        if s.get_char(i + j) != p.get_char(j) {
            assert(s@.subrange(i as int, i + m)[j as int] != p@[j as int]);
            return false;
        }
        j = j + 1;
    }
    assert(s@.subrange(i as int, i + m) =~= p@);
    true
}

/// The first position at or after `from` where `p` occurs in `s`.
pub fn find_from(s: &str, p: &str, from: usize) -> (r: Option<usize>)
    ensures
        match r {
            Some(i) => from <= i && occurs_at(s@, p@, i as int) && forall|k: int|
                from <= k < i ==> !occurs_at(s@, p@, k),
            None => forall|k: int| from <= k ==> !occurs_at(s@, p@, k),
        },
{
    let n = s.unicode_len();
    let m = p.unicode_len();
    if m > n || from > n - m {
        return None;
    }
    if m == 0 {
        assert(s@.subrange(from as int, from as int) =~= p@);
        return Some(from);
    }
    let mut i: usize = from;
    while i <= n - m
        invariant
            n == s@.len(),
            m == p@.len(),
            1 <= m <= n,
            i <= n - m + 1,
            from <= i,
            forall|k: int| from <= k < i ==> !occurs_at(s@, p@, k),
        decreases n - i,
    {
        if occurs_at_exec(s, p, i) {
            return Some(i);
        }
        i = i + 1;
    }
    None
}

/// The last position where `p` occurs in `s`.
pub fn rfind(s: &str, p: &str) -> (r: Option<usize>)
    ensures
        match r {
            Some(i) => occurs_at(s@, p@, i as int) && forall|k: int|
                i < k ==> !occurs_at(s@, p@, k),
            None => !occurs(s@, p@),
        },
{
    let n = s.unicode_len();
    let m = p.unicode_len();
    if m > n {
        return None;
    }
    let mut i: usize = n - m;
    loop
        invariant
            n == s@.len(),
            m == p@.len(),
            m <= n,
            i <= n - m,
            forall|k: int| i < k ==> !occurs_at(s@, p@, k),
        decreases i,
    {
        if occurs_at_exec(s, p, i) {
            return Some(i);
        }
        if i == 0 {
            return None;
        }
        i = i - 1;
    }
}

/// `line` is not yet in `content`: the content with a new line holding it.
pub open spec fn with_line(content: Seq<char>, line: Seq<char>) -> Option<Seq<char>> {
    if occurs(content, line) {
        None
    } else {
        Some(content + seq!['\n'] + line)
    }
}

/// Declares `pub mod <module>;` at the end of a module file that does not
/// declare it yet; `None` where it does.
pub fn with_module(content: &str, module: &str) -> (r: Option<String>)
    ensures
        match r {
            Some(s) => with_line(content@, "pub mod "@ + module@ + ";"@) == Some(s@),
            None => with_line(content@, "pub mod "@ + module@ + ";"@) is None,
        },
{
    let mut line = String::new();
    line.append("pub mod ");
    line.append(module);
    line.append(";");
    match find_from(content, line.as_str(), 0) {
        Some(_) => None,
        None => {
            let mut out = String::new();
            out.append(content);
            out.append("\n");
            proof {
                reveal_strlit("\n");
                assert(forall|k: int| #[trigger] occurs_at(content@, line@, k) ==> 0 <= k);
            }
            out.append(line.as_str());
            Some(out)
        },
    }
}

/// `i` is the first position at or after `from` where `p` occurs in `s`.
pub open spec fn is_first_from(s: Seq<char>, p: Seq<char>, from: int, i: int) -> bool {
    from <= i && occurs_at(s, p, i) && forall|k: int| from <= k < i ==> !occurs_at(s, p, k)
}

/// The first position at or after `from` where `p` occurs in `s`.
pub open spec fn first_from(s: Seq<char>, p: Seq<char>, from: int) -> Option<int> {
    if exists|i: int| is_first_from(s, p, from, i) {
        Some(choose|i: int| is_first_from(s, p, from, i))
    } else {
        None
    }
}

/// The last position where `p` occurs in `s`.
pub open spec fn last_of(s: Seq<char>, p: Seq<char>) -> Option<int> {
    if occurs(s, p) {
        Some(choose|i: int| occurs_at(s, p, i) && forall|k: int| i < k ==> !occurs_at(s, p, k))
    } else {
        None
    }
}

/// The position in `s` of the parenthesis closing the one counted as opened
/// at `start`.
pub open spec fn closing_from(s: Seq<char>, start: int) -> Option<int> {
    let t = s.subrange(start, s.len() as int);
    if exists|i: int| closes_at(t, i) {
        Some(start + choose|i: int| closes_at(t, i))
    } else {
        None
    }
}

/// `t` inserted into `s` before position `at`.
pub open spec fn inserted(s: Seq<char>, at: int, t: Seq<char>) -> Seq<char> {
    s.subrange(0, at) + t + s.subrange(at, s.len() as int)
}

/// How the routes of resource `r` are named in the route table.
pub open spec fn route_ref(r: Seq<char>) -> Seq<char> {
    r + "_routes::"@ + r + "_routes"@
}

/// The import of resource `r`'s routes, with its line break.
pub open spec fn route_import(r: Seq<char>) -> Seq<char> {
    "use crate::routes::"@ + r + "_routes;\n"@
}

/// The call that adds resource `r`'s routes to the API scope.
pub open spec fn route_configure(r: Seq<char>) -> Seq<char> {
    "\n            .configure("@ + route_ref(r) + ")"@
}

/// Step one: the import goes on the line after the last `use `, if that line
/// has an end.
pub open spec fn with_import(s: Seq<char>, r: Seq<char>) -> Seq<char> {
    match last_of(s, "use "@) {
        Some(u) => match first_from(s, "\n"@, u) {
            Some(nl) => inserted(s, nl + 1, route_import(r)),
            None => s,
        },
        None => s,
    }
}

/// Step two: the configure call goes before the first `)` from the closing
/// parenthesis that the scan started at `web::scope("/api")` finds.
pub open spec fn with_configure(s: Seq<char>, r: Seq<char>) -> Seq<char> {
    match first_from(s, "web::scope(\"/api\")"@, 0) {
        Some(sp) => match closing_from(s, sp) {
            Some(e) => match first_from(s, ")"@, e) {
                Some(q) => inserted(s, q, route_configure(r)),
                None => s,
            },
            None => s,
        },
        None => s,
    }
}

/// The route table with resource `r` wired in, where the table has public
/// routes and does not mention `r`'s routes yet; otherwise unchanged.
pub open spec fn patched_routes(s: Seq<char>, r: Seq<char>) -> Seq<char> {
    if occurs(s, "pub fn public_routes"@) && !occurs(s, route_ref(r)) {
        with_configure(with_import(s, r), r)
    } else {
        s
    }
}

fn first_occurrence(s: &str, p: &str, from: usize) -> (r: Option<usize>)
    ensures
        match r {
            Some(i) => first_from(s@, p@, from as int) == Some(i as int),
            None => first_from(s@, p@, from as int) is None,
        },
{
    let r = find_from(s, p, from);
    match r {
        Some(i) => {
            assert(is_first_from(s@, p@, from as int, i as int));
            let ghost j = choose|j: int| is_first_from(s@, p@, from as int, j);
            assert(j == i as int) by {
                if j < i {
                    assert(!occurs_at(s@, p@, j));
                } else if j > i {
                    assert(!occurs_at(s@, p@, i as int));
                }
            }
        },
        None => {
            assert(forall|j: int| !is_first_from(s@, p@, from as int, j));
        },
    }
    r
}

fn last_occurrence(s: &str, p: &str) -> (r: Option<usize>)
    ensures
        match r {
            Some(i) => last_of(s@, p@) == Some(i as int),
            None => last_of(s@, p@) is None,
        },
{
    let r = rfind(s, p);
    match r {
        Some(i) => {
            assert(occurs(s@, p@));
            let ghost j = choose|j: int|
                occurs_at(s@, p@, j) && forall|k: int| j < k ==> !occurs_at(s@, p@, k);
            assert(j == i as int) by {
                if j < i {
                    assert(!occurs_at(s@, p@, i as int));
                } else if j > i {
                    assert(!occurs_at(s@, p@, j));
                }
            }
        },
        None => {},
    }
    r
}

/// The character position of the parenthesis closing the one counted as
/// opened at character position `start`.
fn closing_position(s: &str, start: usize) -> (r: Option<usize>)
    requires
        start <= s@.len(),
    ensures
        match r {
            Some(e) => closing_from(s@, start as int) == Some(e as int),
            None => closing_from(s@, start as int) is None,
        },
{
    let n = s.unicode_len();
    let t = s.substring_char(start, n);
    let ghost cs = t@;
    let mut count: usize = 1;
    let mut i: usize = 1;
    while i < n - start
        invariant
            n == s@.len(),
            start <= n,
            t@ == cs,
            cs == s@.subrange(start as int, n as int),
            1 <= i,
            count as int == depth(cs, i - 1),
            1 <= count <= i,
            forall|j: int| 1 <= j < i ==> depth(cs, j) > 0,
        decreases n - start - i,
    {
        let c = t.get_char(i);
        if c == '(' {
            count = count + 1;
        } else if c == ')' {
            count = count - 1;
            if count == 0 {
                assert(closes_at(cs, i as int));
                let ghost j = choose|j: int| closes_at(cs, j);
                assert(j == i as int) by {
                    if j < i {
                        assert(depth(cs, j) > 0);
                    } else if j > i {
                        assert(depth(cs, i as int) > 0);
                    }
                }
                return Some(start + i);
            }
        }
        i = i + 1;
    }
    assert(forall|j: int| !closes_at(cs, j)) by {
        assert(forall|j: int| 1 <= j < cs.len() ==> depth(cs, j) > 0);
    }
    None
}

/// `t` inserted into `s` before character position `at`.
fn insert_at(s: &str, at: usize, t: &str) -> (r: String)
    requires
        at <= s@.len(),
    ensures
        r@ == inserted(s@, at as int, t@),
{
    let n = s.unicode_len();
    let mut out = String::new();
    out.append(s.substring_char(0, at));
    out.append(t);
    out.append(s.substring_char(at, n));
    out
}

/// `p` occurs in `s`.
pub fn contains(s: &str, p: &str) -> (r: bool)
    ensures
        r == occurs(s@, p@),
{
    match find_from(s, p, 0) {
        Some(_) => true,
        None => false,
    }
}

/// Wires resource `resource`'s routes into the route table `content`: an
/// import after the last `use` line and a `.configure(..)` call in the API
/// scope, unless the table has no public routes or already mentions them.
pub fn patch_routes(content: &str, resource: &str) -> (r: String)
    ensures
        r@ == patched_routes(content@, resource@),
{
    let mut reference = String::new();
    reference.append(resource);
    reference.append("_routes::");
    reference.append(resource);
    reference.append("_routes");
    if !contains(content, "pub fn public_routes") || contains(content, reference.as_str()) {
        return content.to_owned();
    }
    proof {
        reveal_strlit("\n");
    }
    let with_use = match last_occurrence(content, "use ") {
        Some(u) => match first_occurrence(content, "\n", u) {
            Some(nl) => {
                let total = content.unicode_len();
                assert(is_first_from(content@, "\n"@, u as int, nl as int));
                assert(nl < total);
                let mut import = String::new();
                import.append("use crate::routes::");
                import.append(resource);
                import.append("_routes;\n");
                insert_at(content, nl + 1, import.as_str())
            },
            None => content.to_owned(),
        },
        None => content.to_owned(),
    };
    assert(with_use@ == with_import(content@, resource@));
    let s1 = with_use.as_str();
    let scope = first_occurrence(s1, "web::scope(\"/api\")", 0);
    match scope {
        Some(sp) => match closing_position(s1, sp) {
            Some(e) => match first_occurrence(s1, ")", e) {
                Some(q) => {
                    let mut call = String::new();
                    call.append("\n            .configure(");
                    call.append(reference.as_str());
                    call.append(")");
                    insert_at(s1, q, call.as_str())
                },
                None => with_use,
            },
            None => with_use,
        },
        None => with_use,
    }
}

} // verus!
