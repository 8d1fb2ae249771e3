//! Reference normalization and share-identifier extraction.

use vstd::prelude::*;

use crate::text::{
    chars_vec, char_is_space, find_at_from, find_at_from_exec, is_space_char, match_at,
    push_char_range, skip_ws,
};

verus! {

/// Why the pipeline refused an input outright.
#[derive(Clone, Copy, Debug, PartialEq, Eq, Structural)]
pub enum PipelineError {
    /// The reference was blank after trimming.
    EmptyInput,
}

/// The position after the last non-whitespace character of `s[..i]`
/// (0 when only whitespace stands before `i`).
pub open spec fn trim_end_idx(s: Seq<char>, i: int) -> int
    decreases i,
{
    if 0 < i <= s.len() && is_space_char(s[i - 1]) {
        trim_end_idx(s, i - 1)
    } else {
        i
    }
}

/// `s` without leading and trailing whitespace.
pub open spec fn trim_spec(s: Seq<char>) -> Seq<char> {
    let a = skip_ws(s, 0);
    let b = trim_end_idx(s, s.len() as int);
    if a < b {
        s.subrange(a, b)
    } else {
        Seq::empty()
    }
}

/// `s` without one leading `https://` or, failing that, one leading
/// `http://`; embedded scheme-like substrings elsewhere stay.
pub open spec fn strip_scheme(s: Seq<char>) -> Seq<char> {
    if match_at(s, "https://"@, 0) {
        s.subrange("https://"@.len() as int, s.len() as int)
    } else if match_at(s, "http://"@, 0) {
        s.subrange("http://"@.len() as int, s.len() as int)
    } else {
        s
    }
}

/// The normalized form of a raw reference: trimmed and scheme-stripped,
/// or nothing when the trimmed reference is empty.
pub open spec fn normalize_spec(raw: Seq<char>) -> Option<Seq<char>> {
    if trim_spec(raw).len() == 0 {
        None
    } else {
        Some(strip_scheme(trim_spec(raw)))
    }
}

/// Trims whitespace around the raw reference and strips at most one
/// leading scheme prefix; rejects a reference that is blank after
/// trimming.
pub fn normalize_reference(raw: &str) -> (r: Result<String, PipelineError>)
    ensures
        match r {
            Ok(n) => normalize_spec(raw@) == Some(n@),
            Err(e) => normalize_spec(raw@) is None && e is EmptyInput,
        },
{
    let v = chars_vec(raw);
    let a = trim_range_start(&v);
    let b = trim_range_end(&v);
    if a >= b {
        assert(trim_spec(raw@).len() == 0);
        return Err(PipelineError::EmptyInput);
    }
    assert(trim_spec(raw@) == v@.subrange(a as int, b as int));
    let https = chars_vec("https://");
    let http = chars_vec("http://");
    let start: usize = if crate::text::match_at_exec(&v, &https, a) && b - a >= https.len() {
        a + https.len()
    } else if crate::text::match_at_exec(&v, &http, a) && b - a >= http.len() {
        a + http.len()
    } else {
        a
    };
    proof {
        lemma_match_in_trimmed(v@, "https://"@, a as int, b as int);
        lemma_match_in_trimmed(v@, "http://"@, a as int, b as int);
    }
    let mut out = String::new();
    push_char_range(&mut out, &v, start, b);
    assert(out@ =~= strip_scheme(trim_spec(raw@)));
    Ok(out)
}

/// A pattern that occurs at the start of the trimmed range occurs at the
/// start of the trimmed sequence, and the other way round.
proof fn lemma_match_in_trimmed(s: Seq<char>, p: Seq<char>, a: int, b: int)
    requires
        0 <= a < b <= s.len(),
    ensures
        match_at(s.subrange(a, b), p, 0) <==> (match_at(s, p, a) && a + p.len() <= b),
        match_at(s.subrange(a, b), p, 0) ==> s.subrange(a, b).subrange(p.len() as int, b - a)
            =~= s.subrange(a + p.len(), b),
{
    let t = s.subrange(a, b);
    if match_at(t, p, 0) {
        assert(t.subrange(0, p.len() as int) =~= s.subrange(a, a + p.len()));
    }
    if match_at(s, p, a) && a + p.len() <= b {
        assert(t.subrange(0, p.len() as int) =~= s.subrange(a, a + p.len()));
    }
}

/// The start of the trimmed range of `v`.
fn trim_range_start(v: &Vec<char>) -> (a: usize)
    ensures
        a as int == skip_ws(v@, 0),
        a <= v@.len(),
{
    crate::text::skip_ws_exec(v, 0)
}

/// The end of the trimmed range of `v`.
fn trim_range_end(v: &Vec<char>) -> (b: usize)
    ensures
        b as int == trim_end_idx(v@, v@.len() as int),
        b <= v@.len(),
{
    let mut b: usize = v.len();
    while b > 0 && char_is_space(v[b - 1])
        invariant
            b <= v@.len(),
            trim_end_idx(v@, v@.len() as int) == trim_end_idx(v@, b as int),
        decreases b,
    {
        b -= 1;
    }
    b
}

/// A character that may stand in a share identifier: a lowercase
/// hexadecimal digit or a hyphen.
pub open spec fn is_id_char(c: char) -> bool {
    ('0' <= c && c <= '9') || ('a' <= c && c <= 'f') || c == '-'
}

/// Executable twin of [`is_id_char`].
pub fn char_is_id(c: char) -> (r: bool)
    ensures
        r == is_id_char(c),
{
    ('0' <= c && c <= '9') || ('a' <= c && c <= 'f') || c == '-'
}

/// The first position at or after `i` that does not hold an identifier
/// character.
pub open spec fn skip_id(s: Seq<char>, i: int) -> int
    decreases s.len() - i,
{
    if 0 <= i && i < s.len() && is_id_char(s[i]) {
        skip_id(s, i + 1)
    } else {
        i
    }
}

/// The start of the first share identifier at or after `from`: the first
/// `/share/` occurrence that at least one identifier character follows.
pub open spec fn find_share_from(s: Seq<char>, from: int) -> Option<int>
    decreases s.len() - from,
{
    match find_at_from(s, "/share/"@, from) {
        None => None,
        Some(i) => {
            let j = i + "/share/"@.len();
            if j < s.len() && is_id_char(s[j]) {
                Some(j)
            } else if from < i + 1 && i + 1 <= s.len() {
                find_share_from(s, i + 1)
            } else {
                None
            }
        },
    }
}

/// The share identifier of a normalized reference: the run of
/// hexadecimal digits and hyphens after the first matching `/share/`
/// segment, or nothing when no such segment occurs.
pub open spec fn share_id_spec(s: Seq<char>) -> Option<Seq<char>> {
    match find_share_from(s, 0) {
        None => None,
        Some(j) => Some(s.subrange(j, skip_id(s, j))),
    }
}

/// Pulls the share identifier out of a normalized reference, if present.
pub fn extract_share_id(normalized: &str) -> (r: Option<String>)
    ensures
        match r {
            Some(id) => share_id_spec(normalized@) == Some(id@),
            None => share_id_spec(normalized@) is None,
        },
{
    let v = chars_vec(normalized);
    let pat = chars_vec("/share/");
    let mut from: usize = 0;
    loop
        invariant
            pat@ == "/share/"@,
            v@ == normalized@,
            from <= v@.len(),
            find_share_from(v@, 0) == find_share_from(v@, from as int),
        decreases v@.len() - from,
    {
        match find_at_from_exec(&v, &pat, from) {
            None => {
                return None;
            },
            Some(i) => {
                let vl = v.len();
                proof {
                    assert(match_at(v@, pat@, i as int));
                    assert(i + pat@.len() <= vl);
                }
                let j = i + pat.len();
                if j < v.len() && char_is_id(v[j]) {
                    let e = skip_id_exec(&v, j);
                    let mut out = String::new();
                    push_char_range(&mut out, &v, j, e);
                    return Some(out);
                }
                from = i + 1;
            },
        }
    }
}

/// Executable twin of [`skip_id`].
fn skip_id_exec(v: &Vec<char>, i: usize) -> (r: usize)
    requires
        i <= v@.len(),
    ensures
        r as int == skip_id(v@, i as int),
        i <= r <= v@.len(),
{
    let mut j: usize = i;
    while j < v.len() && char_is_id(v[j])
        invariant
            i <= j <= v@.len(),
            skip_id(v@, i as int) == skip_id(v@, j as int),
        decreases v@.len() - j,
    {
        j += 1;
    }
    j
}

/// Normalizing is the identity on a reference that is already trimmed,
/// non-empty and free of a leading scheme prefix.
pub proof fn lemma_normalize_schemeless_identity(s: Seq<char>)
    requires
        s == trim_spec(s),
        s.len() > 0,
        !match_at(s, "https://"@, 0),
        !match_at(s, "http://"@, 0),
    ensures
        normalize_spec(s) == Some(s),
{
    assert(strip_scheme(s) == s);
}

} // verus!
