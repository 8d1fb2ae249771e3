//! The structured extractor: a tolerant scan of a semi-structured
//! response body for repeated role/content patterns.
//!
//! The scan is deliberately a substring scan, not a strict parse: the
//! body is not guaranteed to be well-formed, and a tolerant scan can
//! still salvage partially escaped, wrapped or truncated bodies. A
//! match is a `"role"` key whose quoted value is `user` or `assistant`,
//! followed anywhere later by a `"parts"` key whose value opens a
//! bracketed span; the span runs to the next closing bracket.

use vstd::prelude::*;

use crate::jsonio::{json_unescape, turn_text, turn_text_spec, unescape_spec};
use crate::text::{
    chars_vec, find_char_from, find_char_from_exec, match_at, match_at_exec, push_char_range,
    skip_ws, skip_ws_exec,
};

verus! {

/// Who a conversation turn belongs to. Any other role token in a body
/// is not a valid turn and is skipped.
#[derive(Clone, Copy, Debug, PartialEq, Eq, Structural)]
pub enum Role {
    User,
    Assistant,
}

/// One message of the conversation, attributed to a role.
pub struct Turn {
    pub role: Role,
    pub text: String,
}

/// An ordered conversation with its optional title and the reference
/// it came from.
pub struct Transcript {
    pub title: Option<String>,
    pub source: String,
    pub turns: Vec<Turn>,
}

/// The mathematical shape of a turn: whether it is a user turn, and
/// its text.
pub open spec fn turn_view(t: Turn) -> (bool, Seq<char>) {
    (t.role is User, t.text@)
}

/// The mathematical shape of a turn list.
pub open spec fn turns_view(ts: Seq<Turn>) -> Seq<(bool, Seq<char>)> {
    ts.map_values(|t: Turn| turn_view(t))
}

impl Transcript {
    /// A transcript produced by the structured extractor holds at
    /// least one turn; zero turns is extraction failure, never an
    /// empty-but-valid transcript.
    pub open spec fn wf(self) -> bool {
        self.turns@.len() >= 1
    }
}

/// Where the value of key `key` opens with `open` at position `i`: the
/// position just after the opening character, when `key`, optional
/// whitespace, a colon, optional whitespace and `open` stand at `i`.
pub open spec fn kv_open(s: Seq<char>, key: Seq<char>, open: char, i: int) -> Option<int> {
    if match_at(s, key, i) {
        let j = skip_ws(s, i + key.len());
        if j < s.len() && s[j] == ':' {
            let k = skip_ws(s, j + 1);
            if k < s.len() && s[k] == open {
                Some(k + 1)
            } else {
                None
            }
        } else {
            None
        }
    } else {
        None
    }
}

/// Executable twin of [`kv_open`].
fn kv_open_exec(v: &Vec<char>, key: &Vec<char>, open: char, i: usize) -> (r: Option<usize>)
    ensures
        match r {
            Some(m) => kv_open(v@, key@, open, i as int) == Some(m as int) && i < m <= v@.len(),
            None => kv_open(v@, key@, open, i as int) is None,
        },
{
    if !match_at_exec(v, key, i) {
        return None;
    }
    let vl = v.len();
    proof {
        assert(i + key@.len() <= vl);
    }
    let j = skip_ws_exec(v, i + key.len());
    if j >= v.len() {
        return None;
    }
    if v[j] != ':' {
        return None;
    }
    let k = skip_ws_exec(v, j + 1);
    if k >= v.len() {
        return None;
    }
    if v[k] != open {
        return None;
    }
    Some(k + 1)
}

/// The role head at `i`: whether the role is `user`, and the position
/// just after its closing quote.
pub open spec fn role_at(s: Seq<char>, i: int) -> Option<(bool, int)> {
    match kv_open(s, "\"role\""@, '"', i) {
        None => None,
        Some(m) => if match_at(s, "user\""@, m) {
            Some((true, m + "user\""@.len()))
        } else if match_at(s, "assistant\""@, m) {
            Some((false, m + "assistant\""@.len()))
        } else {
            None
        },
    }
}

/// Executable twin of [`role_at`].
fn role_at_exec(
    v: &Vec<char>,
    role_key: &Vec<char>,
    user_pat: &Vec<char>,
    asst_pat: &Vec<char>,
    i: usize,
) -> (r: Option<(bool, usize)>)
    requires
        role_key@ == "\"role\""@,
        user_pat@ == "user\""@,
        asst_pat@ == "assistant\""@,
    ensures
        match r {
            Some(p) => role_at(v@, i as int) == Some((p.0, p.1 as int)) && i < p.1 <= v@.len(),
            None => role_at(v@, i as int) is None,
        },
{
    match kv_open_exec(v, role_key, '"', i) {
        None => None,
        Some(m) => {
            let vl = v.len();
            if match_at_exec(v, user_pat, m) {
                proof {
                    assert(m + user_pat@.len() <= vl);
                }
                Some((true, m + user_pat.len()))
            } else if match_at_exec(v, asst_pat, m) {
                proof {
                    assert(m + asst_pat@.len() <= vl);
                }
                Some((false, m + asst_pat.len()))
            } else {
                None
            }
        },
    }
}

/// The least role-head position at or after `from`.
pub open spec fn find_role_from(s: Seq<char>, from: int) -> Option<int>
    decreases s.len() - from,
{
    if from >= s.len() {
        None
    } else if role_at(s, from) is Some {
        Some(from)
    } else {
        find_role_from(s, from + 1)
    }
}

/// The first role match at or after `from`: whether it is a user turn,
/// and the position just after its closing quote.
pub open spec fn role_from(s: Seq<char>, from: int) -> Option<(bool, int)> {
    match find_role_from(s, from) {
        None => None,
        Some(i) => role_at(s, i),
    }
}

/// Executable twin of [`role_from`].
fn find_role_exec(v: &Vec<char>, from: usize) -> (r: Option<(bool, usize)>)
    ensures
        match r {
            Some(p) => role_from(v@, from as int) == Some((p.0, p.1 as int)) && from < p.1
                <= v@.len(),
            None => role_from(v@, from as int) is None,
        },
{
    let role_key = chars_vec("\"role\"");
    let user_pat = chars_vec("user\"");
    let asst_pat = chars_vec("assistant\"");
    let mut i: usize = from;
    while i < v.len()
        invariant
            from <= i,
            role_key@ == "\"role\""@,
            user_pat@ == "user\""@,
            asst_pat@ == "assistant\""@,
            find_role_from(v@, from as int) == find_role_from(v@, i as int),
        decreases v@.len() - i,
    {
        match role_at_exec(v, &role_key, &user_pat, &asst_pat, i) {
            Some(p) => {
                return Some(p);
            },
            None => {
                i += 1;
            },
        }
    }
    None
}

/// The parts head at `i`: the position just after the opening bracket
/// of the content array.
pub open spec fn parts_at(s: Seq<char>, i: int) -> Option<int> {
    kv_open(s, "\"parts\""@, '[', i)
}

/// The least parts-head position at or after `from`.
pub open spec fn find_parts_from(s: Seq<char>, from: int) -> Option<int>
    decreases s.len() - from,
{
    if from >= s.len() {
        None
    } else if parts_at(s, from) is Some {
        Some(from)
    } else {
        find_parts_from(s, from + 1)
    }
}

/// The content start of the first parts head at or after `from`.
pub open spec fn parts_from(s: Seq<char>, from: int) -> Option<int> {
    match find_parts_from(s, from) {
        None => None,
        Some(i) => parts_at(s, i),
    }
}

/// Executable twin of [`parts_from`].
fn find_parts_exec(v: &Vec<char>, from: usize) -> (r: Option<usize>)
    ensures
        match r {
            Some(m) => parts_from(v@, from as int) == Some(m as int) && from < m <= v@.len(),
            None => parts_from(v@, from as int) is None,
        },
{
    let parts_key = chars_vec("\"parts\"");
    let mut i: usize = from;
    while i < v.len()
        invariant
            from <= i,
            parts_key@ == "\"parts\""@,
            find_parts_from(v@, from as int) == find_parts_from(v@, i as int),
        decreases v@.len() - i,
    {
        match kv_open_exec(v, &parts_key, '[', i) {
            Some(m) => {
                return Some(m);
            },
            None => {
                i += 1;
            },
        }
    }
    None
}

/// One role/content match at or after `from`: whether it is a user
/// turn, and the bounds of its captured content-array span.
pub open spec fn next_turn(s: Seq<char>, from: int) -> Option<(bool, int, int)> {
    match role_from(s, from) {
        None => None,
        Some(p) => match parts_from(s, p.1) {
            None => None,
            Some(m) => match find_char_from(s, ']', m) {
                None => None,
                Some(n) => Some((p.0, m, n)),
            },
        },
    }
}

/// Executable twin of [`next_turn`].
fn next_turn_exec(v: &Vec<char>, from: usize) -> (r: Option<(bool, usize, usize)>)
    ensures
        match r {
            Some(t) => next_turn(v@, from as int) == Some((t.0, t.1 as int, t.2 as int)) && from
                < t.1 <= t.2 < v@.len(),
            None => next_turn(v@, from as int) is None,
        },
{
    match find_role_exec(v, from) {
        None => None,
        Some(p) => match find_parts_exec(v, p.1) {
            None => None,
            Some(m) => match find_char_from_exec(v, ']', m) {
                None => None,
                Some(n) => Some((p.0, m, n)),
            },
        },
    }
}

/// All role/content matches from `from` on, in match order, each with
/// its raw captured span.
pub open spec fn scan_turns(s: Seq<char>, from: int) -> Seq<(bool, Seq<char>)>
    decreases s.len() - from,
{
    match next_turn(s, from) {
        None => Seq::empty(),
        Some(t) => seq![(t.0, s.subrange(t.1, t.2))] + (if from < t.2 + 1 <= s.len() {
            scan_turns(s, t.2 + 1)
        } else {
            Seq::empty()
        }),
    }
}

/// The turns extracted from a body, in match order: each match's role
/// with its rendered text.
pub open spec fn turns_of(body: Seq<char>) -> Seq<(bool, Seq<char>)> {
    scan_turns(body, 0).map_values(|m: (bool, Seq<char>)| (m.0, turn_text_spec(m.1)))
}

/// The least title-head position at or after `from`.
pub open spec fn find_title_from(s: Seq<char>, from: int) -> Option<int>
    decreases s.len() - from,
{
    if from >= s.len() {
        None
    } else if kv_open(s, "\"title\""@, '"', from) is Some {
        Some(from)
    } else {
        find_title_from(s, from + 1)
    }
}

/// The capture bounds of the body's title field: from just after its
/// opening quote to the next double quote.
pub open spec fn title_capture(s: Seq<char>) -> Option<(int, int)> {
    match find_title_from(s, 0) {
        None => None,
        Some(i) => match kv_open(s, "\"title\""@, '"', i) {
            None => None,
            Some(m) => match find_char_from(s, '"', m) {
                None => None,
                Some(n) => Some((m, n)),
            },
        },
    }
}

/// The title a body offers, unescaped; nothing when no quoted title
/// field occurs.
pub open spec fn title_of(body: Seq<char>) -> Option<Seq<char>> {
    match title_capture(body) {
        None => None,
        Some(c) => Some(unescape_spec(body.subrange(c.0, c.1))),
    }
}

/// Extracts the body's title field, if any, and unescapes it.
fn extract_title(v: &Vec<char>) -> (r: Option<String>)
    ensures
        match r {
            Some(t) => title_of(v@) == Some(t@),
            None => title_of(v@) is None,
        },
{
    let title_key = chars_vec("\"title\"");
    let mut i: usize = 0;
    while i < v.len()
        invariant
            title_key@ == "\"title\""@,
            find_title_from(v@, 0) == find_title_from(v@, i as int),
        decreases v@.len() - i,
    {
        match kv_open_exec(v, &title_key, '"', i) {
            Some(m) => {
                match find_char_from_exec(v, '"', m) {
                    Some(n) => {
                        let mut sp = String::new();
                        push_char_range(&mut sp, v, m, n);
                        return Some(json_unescape(sp.as_str()));
                    },
                    None => {
                        return None;
                    },
                }
            },
            None => {
                i += 1;
            },
        }
    }
    None
}

/// Scans a body for role/content matches and builds the transcript.
/// Zero matches yield no structured result, never an empty transcript.
pub fn parse_transcript(body: &str, source: &str) -> (r: Option<Transcript>)
    ensures
        match r {
            Some(t) => turns_of(body@).len() > 0 && t.wf() && turns_view(t.turns@) == turns_of(
                body@,
            ) && (match t.title {
                Some(ti) => title_of(body@) == Some(ti@),
                None => title_of(body@) is None,
            }) && t.source@ == source@,
            None => turns_of(body@).len() == 0,
        },
{
    let v = chars_vec(body);
    let mut turns: Vec<Turn> = Vec::new();
    let ghost mut spans: Seq<(bool, Seq<char>)> = Seq::empty();
    let mut from: usize = 0;
    proof {
        assert(spans + scan_turns(v@, 0) =~= scan_turns(v@, 0));
    }
    loop
        invariant
            from <= v@.len(),
            scan_turns(v@, 0) == spans + scan_turns(v@, from as int),
            turns@.len() == spans.len(),
            forall|i: int|
                0 <= i < spans.len() ==> turn_view(#[trigger] turns@[i]) == (
                spans[i].0,
                turn_text_spec(spans[i].1),
                ),
        ensures
            scan_turns(v@, 0) == spans,
            turns@.len() == spans.len(),
            forall|i: int|
                0 <= i < spans.len() ==> turn_view(#[trigger] turns@[i]) == (
                spans[i].0,
                turn_text_spec(spans[i].1),
                ),
        decreases v@.len() - from,
    {
        match next_turn_exec(&v, from) {
            None => {
                proof {
                    assert(scan_turns(v@, from as int) =~= Seq::<(bool, Seq<char>)>::empty());
                    assert(spans + scan_turns(v@, from as int) =~= spans);
                }
                break;
            },
            Some(t) => {
                let (u, a, b) = t;
                let mut sp = String::new();
                push_char_range(&mut sp, &v, a, b);
                let text = turn_text(sp.as_str());
                let role = if u {
                    Role::User
                } else {
                    Role::Assistant
                };
                turns.push(Turn { role, text });
                proof {
                    let m = (u, v@.subrange(a as int, b as int));
                    assert(scan_turns(v@, from as int) == seq![m] + scan_turns(v@, b + 1));
                    assert(spans + (seq![m] + scan_turns(v@, b + 1)) =~= (spans + seq![m])
                        + scan_turns(v@, b + 1));
                    spans = spans + seq![m];
                }
                from = b + 1;
            },
        }
    }
    if turns.len() == 0 {
        proof {
            assert(turns_of(body@).len() == scan_turns(body@, 0).len());
        }
        return None;
    }
    let title = extract_title(&v);
    let out = Transcript { title, source: source.to_owned(), turns };
    proof {
        assert(turns_view(out.turns@) =~= turns_of(body@));
    }
    Some(out)
}

} // verus!
