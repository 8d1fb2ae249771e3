//! The Markdown assembler, and the readability fallback extraction.

use vstd::prelude::*;

use crate::extract::{
    parse_transcript, title_of, turn_view, turns_of, turns_view, Role, Transcript,
};
use crate::text::{chars_vec, push_char};

verus! {

/// `s` with every CRLF pair collapsed to a line feed.
pub open spec fn crlf_norm(s: Seq<char>) -> Seq<char>
    decreases s.len(),
{
    if s.len() == 0 {
        Seq::empty()
    } else if s.len() >= 2 && s[0] == '\r' && s[1] == '\n' {
        seq!['\n'] + crlf_norm(s.skip(2))
    } else {
        seq![s[0]] + crlf_norm(s.skip(1))
    }
}

/// Rewrites every CRLF pair of `s` as a line feed.
pub fn normalize_newlines(s: &str) -> (r: String)
    ensures
        r@ == crlf_norm(s@),
{
    let v = chars_vec(s);
    let mut out = String::new();
    let mut i: usize = 0;
    proof {
        assert(s@.skip(0) =~= s@);
        assert(out@ + crlf_norm(s@) =~= crlf_norm(s@));
    }
    while i < v.len()
        invariant
            i <= v@.len(),
            v@ == s@,
            crlf_norm(s@) == out@ + crlf_norm(s@.skip(i as int)),
        decreases v@.len() - i,
    {
        let ghost before = out@;
        let ghost rest = s@.skip(i as int);
        if v[i] == '\r' && i + 1 < v.len() && v[i + 1] == '\n' {
            push_char(&mut out, '\n');
            proof {
                assert(rest.len() >= 2 && rest[0] == '\r' && rest[1] == '\n');
                assert(rest.skip(2) =~= s@.skip(i + 2));
                assert(out@ + crlf_norm(s@.skip(i + 2)) =~= before + crlf_norm(rest));
            }
            i += 2;
        } else {
            push_char(&mut out, v[i]);
            proof {
                assert(rest.len() >= 1 && rest[0] == s@[i as int]);
                assert(!(rest.len() >= 2 && rest[0] == '\r' && rest[1] == '\n'));
                assert(rest.skip(1) =~= s@.skip(i + 1));
                assert(out@ + crlf_norm(s@.skip(i + 1)) =~= before + crlf_norm(rest));
            }
            i += 1;
        }
    }
    proof {
        assert(s@.skip(v@.len() as int) =~= Seq::<char>::empty());
        assert(out@ + crlf_norm(s@.skip(v@.len() as int)) =~= out@);
    }
    out
}

/// The label of a role in the rendered document.
pub open spec fn role_label(is_user: bool) -> Seq<char> {
    if is_user {
        "Пользователь"@
    } else {
        "Ассистент"@
    }
}

/// One rendered turn: a block-quote line labeled with the role, the
/// turn's text CRLF-normalized, closed by a blank line.
pub open spec fn turn_block(m: (bool, Seq<char>)) -> Seq<char> {
    "> "@ + role_label(m.0) + ": "@ + crlf_norm(m.1) + "\n\n"@
}

/// The rendered turns from index `i` on, in order.
pub open spec fn turn_blocks_from(ms: Seq<(bool, Seq<char>)>, i: int) -> Seq<char>
    decreases ms.len() - i,
{
    if i < ms.len() {
        turn_block(ms[i]) + turn_blocks_from(ms, i + 1)
    } else {
        Seq::empty()
    }
}

/// The fixed placeholder title used when a body offers none.
pub open spec fn default_title() -> Seq<char> {
    "ChatGPT Conversation"@
}

/// The heading and source line that open every document.
pub open spec fn doc_header(title: Seq<char>, source: Seq<char>) -> Seq<char> {
    "# "@ + title + "\n\n"@ + "**Источник**: "@ + source + "\n\n"@
}

/// The document of a structured transcript: heading, source line, then
/// one block per turn.
pub open spec fn transcript_doc(
    title: Option<Seq<char>>,
    source: Seq<char>,
    ms: Seq<(bool, Seq<char>)>,
) -> Seq<char> {
    doc_header(
        match title {
            Some(t) => t,
            None => default_title(),
        },
        "https://"@ + source,
    ) + turn_blocks_from(ms, 0)
}

/// Writes the heading and source line.
fn push_header(out: &mut String, title: &Option<String>, source: &str)
    ensures
        final (out)@ == old(out)@ + doc_header(
            match *title {
                Some(t) => t@,
                None => default_title(),
            },
            source@,
        ),
{
    let ghost start = out@;
    out.append("# ");
    match title {
        Some(t) => out.append(t.as_str()),
        None => out.append("ChatGPT Conversation"),
    }
    out.append("\n\n");
    out.append("**Источник**: ");
    out.append(source);
    out.append("\n\n");
    proof {
        assert(out@ =~= start + doc_header(
            match *title {
                Some(t) => t@,
                None => default_title(),
            },
            source@,
        ));
    }
}

/// Renders a structured transcript into the final Markdown document.
pub fn render_transcript(t: &Transcript) -> (d: String)
    ensures
        d@ == transcript_doc(
            match t.title {
                Some(ti) => Some(ti@),
                None => None,
            },
            t.source@,
            turns_view(t.turns@),
        ),
{
    let ghost ms = turns_view(t.turns@);
    let mut out = String::new();
    let mut src = String::new();
    src.append("https://");
    src.append(t.source.as_str());
    push_header(&mut out, &t.title, src.as_str());
    let ghost header = out@;
    let mut i: usize = 0;
    while i < t.turns.len()
        invariant
            i <= t.turns@.len(),
            ms == turns_view(t.turns@),
            out@ + turn_blocks_from(ms, i as int) == header + turn_blocks_from(ms, 0),
        decreases t.turns@.len() - i,
    {
        let ghost before = out@;
        out.append("> ");
        let is_user = match t.turns[i].role {
            Role::User => true,
            Role::Assistant => false,
        };
        if is_user {
            out.append("Пользователь");
        } else {
            out.append("Ассистент");
        }
        out.append(": ");
        let text = normalize_newlines(t.turns[i].text.as_str());
        out.append(text.as_str());
        out.append("\n\n");
        proof {
            assert(ms[i as int] == turn_view(t.turns@[i as int]));
            assert(out@ =~= before + turn_block(ms[i as int]));
            assert(out@ + turn_blocks_from(ms, i + 1) =~= before + turn_blocks_from(ms, i as int));
        }
        i += 1;
    }
    proof {
        assert(out@ + turn_blocks_from(ms, t.turns@.len() as int) =~= out@);
        assert(out@ =~= transcript_doc(
            match t.title {
                Some(ti) => Some(ti@),
                None => None,
            },
            t.source@,
            ms,
        ));
    }
    out
}

/// The document derived from a structured body for a normalized
/// reference, when the body yields at least one role/content match.
pub open spec fn backend_doc(body: Seq<char>, source: Seq<char>) -> Seq<char> {
    transcript_doc(title_of(body), source, turns_of(body))
}

/// Scans a structured body and renders it as Markdown, or reports that
/// the body yields no structured result.
pub fn parse_backend_to_markdown(body: &str, normalized: &str) -> (r: Option<String>)
    ensures
        match r {
            Some(d) => turns_of(body@).len() > 0 && d@ == backend_doc(body@, normalized@),
            None => turns_of(body@).len() == 0,
        },
{
    match parse_transcript(body, normalized) {
        None => None,
        Some(t) => Some(render_transcript(&t)),
    }
}

} // verus!
