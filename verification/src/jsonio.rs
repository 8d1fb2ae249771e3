//! The two-tier decoding of captured spans: a strict parse of the
//! sub-span through `serde_json`, with a literal-text unescape as the
//! fallback tier.

use vstd::prelude::*;

verus! {

/// What `serde_json` makes of `s` read as a JSON array of plain text
/// strings: the strings it holds, or nothing when `s` is not such an
/// array. The result depends on `s` alone.
pub uninterp spec fn json_parts_of(s: Seq<char>) -> Option<Seq<Seq<char>>>;

/// What `serde_json` makes of `s` read as a single JSON string
/// literal: the decoded text, or nothing when `s` is not such a
/// literal. The result depends on `s` alone.
pub uninterp spec fn json_string_of(s: Seq<char>) -> Option<Seq<char>>;

/// Relies on `serde_json::from_str::<Vec<String>>`: whether `s` parses
/// as a JSON array of strings, and which strings it holds, are a
/// function of `s` alone.
#[verifier::external_body]
fn parse_string_array(s: &str) -> (r: Option<Vec<String>>)
    ensures
        match r {
            Some(v) => json_parts_of(s@) == Some(v.deep_view()),
            None => json_parts_of(s@) is None,
        },
{
    serde_json::from_str::<Vec<String>>(s).ok()
}

/// Relies on `serde_json::from_str::<String>`: whether `s` parses as
/// one JSON string literal, and the text it decodes to, are a function
/// of `s` alone.
#[verifier::external_body]
fn parse_string_literal(s: &str) -> (r: Option<String>)
    ensures
        match r {
            Some(v) => json_string_of(s@) == Some(v@),
            None => json_string_of(s@) is None,
        },
{
    serde_json::from_str::<String>(s).ok()
}

/// `s` wrapped in double quotes.
pub open spec fn quoted(s: Seq<char>) -> Seq<char> {
    "\""@ + s + "\""@
}

/// `s` wrapped in square brackets.
pub open spec fn bracketed(s: Seq<char>) -> Seq<char> {
    "["@ + s + "]"@
}

/// The unescape of a raw fragment: the decode of the fragment read as
/// a quoted JSON string literal, or the fragment unchanged when that
/// decode fails.
pub open spec fn unescape_spec(s: Seq<char>) -> Seq<char> {
    match json_string_of(quoted(s)) {
        Some(d) => d,
        None => s,
    }
}

/// Wraps a raw fragment as a single quoted string and decodes it as an
/// escaped text literal; on decode failure returns the fragment
/// unchanged.
pub fn json_unescape(fragment: &str) -> (r: String)
    ensures
        r@ == unescape_spec(fragment@),
{
    let mut q = String::new();
    q.append("\"");
    q.append(fragment);
    q.append("\"");
    proof {
        assert(q@ =~= quoted(fragment@));
    }
    match parse_string_literal(q.as_str()) {
        Some(d) => d,
        None => fragment.to_owned(),
    }
}

/// The tail of a blank-line join: each part from `i` on, preceded by a
/// blank line.
pub open spec fn join_tail(ps: Seq<Seq<char>>, i: int) -> Seq<char>
    decreases ps.len() - i,
{
    if i < ps.len() {
        "\n\n"@ + ps[i] + join_tail(ps, i + 1)
    } else {
        Seq::empty()
    }
}

/// All parts joined, with a blank line between each two.
pub open spec fn join_blank(ps: Seq<Seq<char>>) -> Seq<char> {
    if ps.len() == 0 {
        Seq::empty()
    } else {
        ps[0] + join_tail(ps, 1)
    }
}

/// Joins parts with a blank line between each two.
fn join_parts(ps: &Vec<String>) -> (r: String)
    ensures
        r@ == join_blank(ps.deep_view()),
{
    let mut out = String::new();
    if ps.len() == 0 {
        return out;
    }
    out.append(ps[0].as_str());
    let mut i: usize = 1;
    while i < ps.len()
        invariant
            1 <= i <= ps@.len(),
            out@ + join_tail(ps.deep_view(), i as int) == join_blank(ps.deep_view()),
        decreases ps@.len() - i,
    {
        let ghost before = out@;
        out.append("\n\n");
        out.append(ps[i].as_str());
        proof {
            assert(ps.deep_view()[i as int] == ps@[i as int]@);
            assert(out@ =~= before + ("\n\n"@ + ps.deep_view()[i as int]));
            assert(out@ + join_tail(ps.deep_view(), i + 1) =~= before + join_tail(
                ps.deep_view(),
                i as int,
            ));
        }
        i += 1;
    }
    proof {
        assert(out@ + join_tail(ps.deep_view(), ps@.len() as int) =~= out@);
    }
    out
}

/// The rendered text of one captured content-array span: the strict
/// parse of the re-bracketed span joined with blank lines, or, when
/// that parse fails, the span unescaped as one text fragment.
pub open spec fn turn_text_spec(raw: Seq<char>) -> Seq<char> {
    match json_parts_of(bracketed(raw)) {
        Some(ps) => join_blank(ps),
        None => unescape_spec(raw),
    }
}

/// Renders one captured content-array span as turn text.
pub fn turn_text(raw: &str) -> (r: String)
    ensures
        r@ == turn_text_spec(raw@),
{
    let mut b = String::new();
    b.append("[");
    b.append(raw);
    b.append("]");
    proof {
        assert(b@ =~= bracketed(raw@));
    }
    match parse_string_array(b.as_str()) {
        Some(ps) => join_parts(&ps),
        None => json_unescape(raw),
    }
}

} // verus!
