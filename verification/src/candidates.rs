//! Candidate retrieval URLs for the structured path, and the fallback
//! URL, each carrying a cache-defeating timestamp parameter.

use vstd::prelude::*;

use crate::text::{chars_vec, find_char_from, find_char_from_exec, push_char_range};

verus! {

/// The character of the decimal digit `d`.
pub open spec fn digit_char(d: nat) -> char
    recommends
        d < 10,
{
    ((48 + d) as u8) as char
}

/// The decimal digits of `n`, most significant first.
pub open spec fn dec_spec(n: nat) -> Seq<char>
    decreases n,
{
    if n < 10 {
        seq![digit_char(n)]
    } else {
        dec_spec(n / 10) + seq![digit_char(n % 10)]
    }
}

/// The decimal digits of `n`, as characters.
fn dec_chars(n: u64) -> (r: Vec<char>)
    ensures
        r@ == dec_spec(n as nat),
    decreases n,
{
    if n < 10 {
        let mut v: Vec<char> = Vec::new();
        v.push(((48 + n) as u8) as char);
        proof {
            assert(v@ =~= dec_spec(n as nat));
        }
        v
    } else {
        let mut v = dec_chars(n / 10);
        v.push(((48 + n % 10) as u8) as char);
        proof {
            assert(v@ =~= dec_spec(n as nat));
        }
        v
    }
}

/// `n` written in decimal.
pub fn dec_string(n: u64) -> (r: String)
    ensures
        r@ == dec_spec(n as nat),
{
    let v = dec_chars(n);
    let mut out = String::new();
    push_char_range(&mut out, &v, 0, v.len());
    proof {
        assert(v@.subrange(0, v@.len() as int) =~= v@);
    }
    out
}

/// One candidate URL of the structured path: the backend endpoint for
/// `id`, reached through the rendering proxy with the given inner
/// scheme, suffixed with the cache buster `ts`.
pub open spec fn candidate_url_spec(inner_https: bool, id: Seq<char>, ts: nat) -> Seq<char> {
    "https://r.jina.ai/"@ + (if inner_https {
        "https://"@
    } else {
        "http://"@
    }) + "chatgpt.com/backend-api/share/"@ + id + "?_ts="@ + dec_spec(ts)
}

/// Builds the two candidate URLs for `id`, in fixed order: the
/// http-inner variant first, the https-inner variant second, both with
/// the cache buster `ts`.
pub fn build_candidates(id: &str, ts: u64) -> (r: Vec<String>)
    ensures
        r@.len() == 2,
        r@[0]@ == candidate_url_spec(false, id@, ts as nat),
        r@[1]@ == candidate_url_spec(true, id@, ts as nat),
{
    let ts_s = dec_string(ts);
    let mut first = String::new();
    first.append("https://r.jina.ai/");
    first.append("http://");
    first.append("chatgpt.com/backend-api/share/");
    first.append(id);
    first.append("?_ts=");
    first.append(ts_s.as_str());
    proof {
        assert(first@ =~= candidate_url_spec(false, id@, ts as nat));
    }
    let mut second = String::new();
    second.append("https://r.jina.ai/");
    second.append("https://");
    second.append("chatgpt.com/backend-api/share/");
    second.append(id);
    second.append("?_ts=");
    second.append(ts_s.as_str());
    proof {
        assert(second@ =~= candidate_url_spec(true, id@, ts as nat));
    }
    let mut r: Vec<String> = Vec::new();
    r.push(first);
    r.push(second);
    r
}

/// The fallback URL: the normalized reference routed through the
/// rendering proxy with an `http://` inner scheme and a fresh cache
/// buster, joined with `&` when the reference already carries a query.
pub open spec fn fallback_url_spec(normalized: Seq<char>, ts: nat) -> Seq<char> {
    "https://r.jina.ai/http://"@ + normalized + (if find_char_from(normalized, '?', 0) is Some {
        "&"@
    } else {
        "?"@
    }) + "_ts="@ + dec_spec(ts)
}

/// Builds the fallback URL for a normalized reference.
pub fn build_fallback_url(normalized: &str, ts: u64) -> (r: String)
    ensures
        r@ == fallback_url_spec(normalized@, ts as nat),
{
    let v = chars_vec(normalized);
    let ts_s = dec_string(ts);
    let mut out = String::new();
    out.append("https://r.jina.ai/http://");
    out.append(normalized);
    match find_char_from_exec(&v, '?', 0) {
        Some(_) => out.append("&"),
        None => out.append("?"),
    }
    out.append("_ts=");
    out.append(ts_s.as_str());
    proof {
        assert(out@ =~= fallback_url_spec(normalized@, ts as nat));
    }
    out
}

/// The request headers that disable caching on every pipeline fetch.
pub fn no_cache_headers() -> (r: Vec<(String, String)>)
    ensures
        r@.len() == 2,
        r@[0].0@ == "Cache-Control"@ && r@[0].1@ == "no-cache"@,
        r@[1].0@ == "Pragma"@ && r@[1].1@ == "no-cache"@,
{
    let mut r: Vec<(String, String)> = Vec::new();
    r.push(("Cache-Control".to_owned(), "no-cache".to_owned()));
    r.push(("Pragma".to_owned(), "no-cache".to_owned()));
    r
}

} // verus!
