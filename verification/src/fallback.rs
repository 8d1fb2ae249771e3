//! The readability fallback extraction: a title from a rendered-text
//! page and a body trimmed to the first turn-boundary marker.

use vstd::prelude::*;

use crate::render::{default_title, doc_header};
use crate::text::{chars_vec, find_line_at_from, find_line_at_from_exec, match_at, push_char_range};

verus! {

/// Whether `c` is inline whitespace: a space or a tab.
pub open spec fn is_inline_space(c: char) -> bool {
    c == ' ' || c == '\t'
}

/// The first position at or after `i` that does not hold inline
/// whitespace.
pub open spec fn skip_inline_ws(s: Seq<char>, i: int) -> int
    decreases s.len() - i,
{
    if 0 <= i && i < s.len() && is_inline_space(s[i]) {
        skip_inline_ws(s, i + 1)
    } else {
        i
    }
}

/// The end of the line that position `i` stands on: the next carriage
/// return or line feed, or the end of `s`.
pub open spec fn line_end_from(s: Seq<char>, i: int) -> int
    decreases s.len() - i,
{
    if 0 <= i && i < s.len() {
        if s[i] == '\n' || s[i] == '\r' {
            i
        } else {
            line_end_from(s, i + 1)
        }
    } else {
        s.len() as int
    }
}

/// The title of a rendered page: the rest of the first line that opens
/// with `Title:`, inline whitespace after the colon skipped.
pub open spec fn fallback_title(body: Seq<char>) -> Option<Seq<char>> {
    match find_line_at_from(body, "Title:"@, 0) {
        None => None,
        Some(i) => {
            let a = skip_inline_ws(body, i + "Title:"@.len());
            Some(body.subrange(a, line_end_from(body, a)))
        },
    }
}

/// The fixed turn-boundary marker that opens the conversation in a
/// rendered page.
pub open spec fn boundary_marker() -> Seq<char> {
    "##### You said:"@
}

/// The fallback body: the fetched text from the first line-anchored
/// boundary marker on, or the whole text when the marker is absent.
pub open spec fn fallback_body(body: Seq<char>) -> Seq<char> {
    match find_line_at_from(body, boundary_marker(), 0) {
        Some(m) => body.skip(m),
        None => body,
    }
}

/// The fallback document: heading, the reference as given, then the
/// (possibly truncated) body verbatim.
pub open spec fn fallback_doc(body: Seq<char>, reference: Seq<char>) -> Seq<char> {
    doc_header(
        match fallback_title(body) {
            Some(t) => t,
            None => default_title(),
        },
        reference,
    ) + fallback_body(body)
}

/// Skips inline whitespace, executably.
fn skip_inline_ws_exec(v: &Vec<char>, i: usize) -> (r: usize)
    requires
        i <= v@.len(),
    ensures
        r as int == skip_inline_ws(v@, i as int),
        i <= r <= v@.len(),
{
    let mut j: usize = i;
    while j < v.len() && (v[j] == ' ' || v[j] == '\t')
        invariant
            i <= j <= v@.len(),
            skip_inline_ws(v@, i as int) == skip_inline_ws(v@, j as int),
        decreases v@.len() - j,
    {
        j += 1;
    }
    j
}

/// Finds the end of the current line, executably.
fn line_end_exec(v: &Vec<char>, i: usize) -> (r: usize)
    requires
        i <= v@.len(),
    ensures
        r as int == line_end_from(v@, i as int),
        i <= r <= v@.len(),
{
    let mut j: usize = i;
    while j < v.len() && v[j] != '\n' && v[j] != '\r'
        invariant
            i <= j <= v@.len(),
            line_end_from(v@, i as int) == line_end_from(v@, j as int),
        decreases v@.len() - j,
    {
        j += 1;
    }
    j
}

/// Derives the fallback document from a fetched rendered-text body and
/// the reference as the user gave it.
pub fn fallback_document(body: &str, reference: &str) -> (d: String)
    ensures
        d@ == fallback_doc(body@, reference@),
{
    let v = chars_vec(body);
    let title_pat = chars_vec("Title:");
    let mut out = String::new();
    out.append("# ");
    match find_line_at_from_exec(&v, &title_pat, 0) {
        Some(i) => {
            let vl = v.len();
            proof {
                assert(match_at(v@, title_pat@, i as int));
                assert(i + title_pat@.len() <= vl);
            }
            let a = skip_inline_ws_exec(&v, i + title_pat.len());
            let b = line_end_exec(&v, a);
            push_char_range(&mut out, &v, a, b);
        },
        None => {
            out.append("ChatGPT Conversation");
        },
    }
    out.append("\n\n");
    out.append("**Источник**: ");
    out.append(reference);
    out.append("\n\n");
    let marker = chars_vec("##### You said:");
    match find_line_at_from_exec(&v, &marker, 0) {
        Some(m) => {
            let vl = v.len();
            push_char_range(&mut out, &v, m, vl);
            proof {
                assert(v@.subrange(m as int, v@.len() as int) =~= v@.skip(m as int));
            }
        },
        None => {
            out.append(body);
        },
    }
    proof {
        assert(out@ =~= fallback_doc(body@, reference@));
    }
    out
}

} // verus!
