//! Character-level text utilities: whitespace, substring matching, and
//! the searches that the tolerant extractors are built on.

use vstd::prelude::*;

verus! {

/// Whether a character counts as whitespace, both for trimming a
/// reference and for the tolerant key/value scan.
pub open spec fn is_space_char(c: char) -> bool {
    c == ' ' || c == '\t' || c == '\r' || c == '\n'
}

/// Executable twin of [`is_space_char`].
pub fn char_is_space(c: char) -> (r: bool)
    ensures
        r == is_space_char(c),
{
    c == ' ' || c == '\t' || c == '\r' || c == '\n'
}

/// The pattern `p` occurs in `s` at position `i`.
pub open spec fn match_at(s: Seq<char>, p: Seq<char>, i: int) -> bool {
    0 <= i && i + p.len() <= s.len() && s.subrange(i, i + p.len()) == p
}

/// Executable twin of [`match_at`].
pub fn match_at_exec(v: &Vec<char>, p: &Vec<char>, i: usize) -> (r: bool)
    ensures
        r == match_at(v@, p@, i as int),
{
    if i > v.len() || v.len() - i < p.len() {
        assert(!match_at(v@, p@, i as int));
        return false;
    }
    let mut j: usize = 0;
    while j < p.len()
        invariant
            i + p.len() <= v.len(),
            j <= p.len(),
            forall|k: int| 0 <= k < j ==> v@[i + k] == p@[k],
        decreases p.len() - j,
    {
        if v[i + j] != p[j] {
            assert(v@.subrange(i as int, i + p@.len())[j as int] != p@[j as int]);
            return false;
        }
        j += 1;
    }
    assert(v@.subrange(i as int, i + p@.len()) =~= p@);
    true
}

/// The first position at or after `i` that does not hold whitespace
/// (the length of `s` when only whitespace remains).
pub open spec fn skip_ws(s: Seq<char>, i: int) -> int
    decreases s.len() - i,
{
    if 0 <= i && i < s.len() && is_space_char(s[i]) {
        skip_ws(s, i + 1)
    } else {
        i
    }
}

/// Executable twin of [`skip_ws`].
pub fn skip_ws_exec(v: &Vec<char>, i: usize) -> (r: usize)
    requires
        i <= v@.len(),
    ensures
        r as int == skip_ws(v@, i as int),
        i <= r <= v@.len(),
{
    let mut j: usize = i;
    while j < v.len() && char_is_space(v[j])
        invariant
            i <= j <= v@.len(),
            skip_ws(v@, i as int) == skip_ws(v@, j as int),
        decreases v@.len() - j,
    {
        j += 1;
    }
    j
}

/// The least position at or after `from` where `p` occurs in `s`.
pub open spec fn find_at_from(s: Seq<char>, p: Seq<char>, from: int) -> Option<int>
    decreases s.len() - from,
{
    if from >= s.len() {
        None
    } else if match_at(s, p, from) {
        Some(from)
    } else {
        find_at_from(s, p, from + 1)
    }
}

/// Executable twin of [`find_at_from`].
pub fn find_at_from_exec(v: &Vec<char>, p: &Vec<char>, from: usize) -> (r: Option<usize>)
    ensures
        match r {
            Some(i) => find_at_from(v@, p@, from as int) == Some(i as int)
                && from <= i < v@.len() && match_at(v@, p@, i as int),
            None => find_at_from(v@, p@, from as int) is None,
        },
{
    let mut i: usize = from;
    while i < v.len()
        invariant
            from <= i,
            find_at_from(v@, p@, from as int) == find_at_from(v@, p@, i as int),
        decreases v@.len() - i,
    {
        if match_at_exec(v, p, i) {
            return Some(i);
        }
        i += 1;
    }
    None
}

/// Position `i` starts a line of `s`: the very beginning, or just after
/// a line feed.
pub open spec fn line_start(s: Seq<char>, i: int) -> bool {
    i == 0 || (0 < i <= s.len() && s[i - 1] == '\n')
}

/// The least line-anchored position at or after `from` where `p` occurs.
pub open spec fn find_line_at_from(s: Seq<char>, p: Seq<char>, from: int) -> Option<int>
    decreases s.len() - from,
{
    if from >= s.len() {
        None
    } else if line_start(s, from) && match_at(s, p, from) {
        Some(from)
    } else {
        find_line_at_from(s, p, from + 1)
    }
}

/// Executable twin of [`find_line_at_from`].
pub fn find_line_at_from_exec(v: &Vec<char>, p: &Vec<char>, from: usize) -> (r: Option<usize>)
    ensures
        match r {
            Some(i) => find_line_at_from(v@, p@, from as int) == Some(i as int)
                && from <= i < v@.len() && line_start(v@, i as int)
                && match_at(v@, p@, i as int),
            None => find_line_at_from(v@, p@, from as int) is None,
        },
{
    let mut i: usize = from;
    while i < v.len()
        invariant
            from <= i,
            find_line_at_from(v@, p@, from as int) == find_line_at_from(v@, p@, i as int),
        decreases v@.len() - i,
    {
        let anchored = if i == 0 {
            true
        } else {
            i <= v.len() && v[i - 1] == '\n'
        };
        if anchored && match_at_exec(v, p, i) {
            return Some(i);
        }
        i += 1;
    }
    None
}

/// The least position at or after `from` holding the character `c`.
pub open spec fn find_char_from(s: Seq<char>, c: char, from: int) -> Option<int>
    decreases s.len() - from,
{
    if from >= s.len() {
        None
    } else if s[from] == c {
        Some(from)
    } else {
        find_char_from(s, c, from + 1)
    }
}

/// Executable twin of [`find_char_from`].
pub fn find_char_from_exec(v: &Vec<char>, c: char, from: usize) -> (r: Option<usize>)
    ensures
        match r {
            Some(i) => find_char_from(v@, c, from as int) == Some(i as int)
                && from <= i < v@.len() && v@[i as int] == c,
            None => find_char_from(v@, c, from as int) is None,
        },
{
    let mut i: usize = from;
    while i < v.len()
        invariant
            from <= i,
            find_char_from(v@, c, from as int) == find_char_from(v@, c, i as int),
        decreases v@.len() - i,
    {
        if v[i] == c {
            return Some(i);
        }
        i += 1;
    }
    None
}

/// The characters of `s`, as an indexable vector.
pub fn chars_vec(s: &str) -> (r: Vec<char>)
    ensures
        r@ == s@,
{
    broadcast use vstd::string::axiom_spec_iter, vstd::string::next_postcondition;

    let mut it = s.chars();
    let mut r: Vec<char> = Vec::new();
    loop
        invariant
            vstd::std_specs::iter::IteratorSpec::obeys_prophetic_iter_laws(&it),
            vstd::std_specs::iter::IteratorSpec::decrease(&it) is Some,
            r@ + vstd::std_specs::iter::IteratorSpec::remaining(&it) == s@,
        ensures
            r@ == s@,
        decreases vstd::std_specs::iter::IteratorSpec::decrease(&it)->0,
    {
        match it.next() {
            Some(c) => {
                r.push(c);
            },
            None => {
                proof {
                    assert(r@ =~= s@);
                }
                break;
            },
        }
    }
    r
}

/// Appends `c` to `s`. Relies on `String::push`, which adds the one
/// character to the end of the string.
#[verifier::external_body]
pub fn push_char(s: &mut String, c: char)
    ensures
        final (s)@ == old(s)@ + seq![c],
{
    s.push(c);
}

/// Appends the characters `v[a..b]` to `out`.
pub fn push_char_range(out: &mut String, v: &Vec<char>, a: usize, b: usize)
    requires
        a <= b <= v@.len(),
    ensures
        final (out)@ == old(out)@ + v@.subrange(a as int, b as int),
{
    let mut i: usize = a;
    while i < b
        invariant
            a <= i <= b <= v@.len(),
            out@ == old(out)@ + v@.subrange(a as int, i as int),
        decreases b - i,
    {
        push_char(out, v[i]);
        proof {
            assert(v@.subrange(a as int, i + 1) =~= v@.subrange(a as int, i as int)
                + seq![v@[i as int]]);
        }
        i += 1;
    }
    proof {
        assert(out@ =~= old(out)@ + v@.subrange(a as int, b as int));
    }
}

} // verus!
