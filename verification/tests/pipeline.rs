use sharemark::candidates::{build_candidates, build_fallback_url, no_cache_headers};
use sharemark::extract::{parse_transcript, Role};
use sharemark::fallback::fallback_document;
use sharemark::jsonio::json_unescape;
use sharemark::log::App;
use sharemark::normalize::{extract_share_id, normalize_reference, PipelineError};
use sharemark::render::{normalize_newlines, parse_backend_to_markdown, render_transcript};

#[test]
fn normalize_strips_https_scheme() {
    let r = normalize_reference("https://chatgpt.com/share/abc-123").unwrap();
    assert_eq!(r, "chatgpt.com/share/abc-123");
}

#[test]
fn normalize_strips_http_scheme() {
    let r = normalize_reference("http://chatgpt.com/share/abc-123").unwrap();
    assert_eq!(r, "chatgpt.com/share/abc-123");
}

#[test]
fn normalize_schemeless_is_identity() {
    let r = normalize_reference("chatgpt.com/share/abc-123").unwrap();
    assert_eq!(r, "chatgpt.com/share/abc-123");
}

#[test]
fn normalize_trims_whitespace() {
    let r = normalize_reference("  https://chatgpt.com/share/x \n").unwrap();
    assert_eq!(r, "chatgpt.com/share/x");
}

#[test]
fn normalize_strips_at_most_one_scheme() {
    let r = normalize_reference("https://http://example.com").unwrap();
    assert_eq!(r, "http://example.com");
}

#[test]
fn normalize_rejects_blank_input() {
    assert_eq!(normalize_reference("   \t\n"), Err(PipelineError::EmptyInput));
    assert_eq!(normalize_reference(""), Err(PipelineError::EmptyInput));
}

#[test]
fn share_id_extracted_from_share_segment() {
    let id = extract_share_id("chatgpt.com/share/0123abcd-4567-89ef");
    assert_eq!(id.as_deref(), Some("0123abcd-4567-89ef"));
}

#[test]
fn share_id_absent_without_share_segment() {
    assert_eq!(extract_share_id("chatgpt.com/about"), None);
}

#[test]
fn share_id_stops_at_first_non_hex_character() {
    let id = extract_share_id("chatgpt.com/share/abcdefgh");
    assert_eq!(id.as_deref(), Some("abcdef"));
}

#[test]
fn share_id_needs_at_least_one_character() {
    assert_eq!(extract_share_id("chatgpt.com/share/XYZ"), None);
}

#[test]
fn share_id_search_continues_past_empty_segment() {
    let id = extract_share_id("x/share/Z/share/ab-12");
    assert_eq!(id.as_deref(), Some("ab-12"));
}

#[test]
fn normalize_twice_equals_once_on_example() {
    let once = normalize_reference("https://chatgpt.com/share/abc-123").unwrap();
    let twice = normalize_reference(&once).unwrap();
    assert_eq!(once, twice);
}

#[test]
fn candidates_come_in_fixed_order_with_cache_buster() {
    let c = build_candidates("deadbeef", 1700000001);
    assert_eq!(c.len(), 2);
    assert_eq!(
        c[0],
        "https://r.jina.ai/http://chatgpt.com/backend-api/share/deadbeef?_ts=1700000001"
    );
    assert_eq!(
        c[1],
        "https://r.jina.ai/https://chatgpt.com/backend-api/share/deadbeef?_ts=1700000001"
    );
}

#[test]
fn fallback_url_appends_fresh_query() {
    let u = build_fallback_url("chatgpt.com/share/x", 42);
    assert_eq!(u, "https://r.jina.ai/http://chatgpt.com/share/x?_ts=42");
}

#[test]
fn fallback_url_extends_existing_query() {
    let u = build_fallback_url("chatgpt.com/share/x?lang=en", 42);
    assert_eq!(u, "https://r.jina.ai/http://chatgpt.com/share/x?lang=en&_ts=42");
}

#[test]
fn no_cache_headers_disable_caching() {
    let h = no_cache_headers();
    assert_eq!(h.len(), 2);
    assert_eq!(h[0].0, "Cache-Control");
    assert_eq!(h[0].1, "no-cache");
    assert_eq!(h[1].0, "Pragma");
    assert_eq!(h[1].1, "no-cache");
}

#[test]
fn two_matches_preserve_order_and_roles() {
    let body = "{\"title\": \"Chat\", \"messages\": [{\"role\": \"user\", \"content\": {\"parts\": [\"Hello\"]}}, {\"role\": \"assistant\", \"content\": {\"parts\": [\"Hi there\"]}}]}";
    let t = parse_transcript(body, "chatgpt.com/share/x").unwrap();
    assert_eq!(t.turns.len(), 2);
    assert!(matches!(t.turns[0].role, Role::User));
    assert_eq!(t.turns[0].text, "Hello");
    assert!(matches!(t.turns[1].role, Role::Assistant));
    assert_eq!(t.turns[1].text, "Hi there");
    assert_eq!(t.title.as_deref(), Some("Chat"));
    assert_eq!(t.source, "chatgpt.com/share/x");
}

#[test]
fn two_turn_document_renders_exactly() {
    let body = "{\"role\":\"user\",\"parts\":[\"hi\"]},{\"role\":\"assistant\",\"parts\":[\"yo\"]}";
    let doc = parse_backend_to_markdown(body, "x").unwrap();
    assert_eq!(
        doc,
        "# ChatGPT Conversation\n\n**Источник**: https://x\n\n> Пользователь: hi\n\n> Ассистент: yo\n\n"
    );
}

#[test]
fn zero_matches_yield_no_structured_result() {
    assert!(parse_backend_to_markdown("{\"detail\": \"not found\"}", "x").is_none());
    assert!(parse_transcript("", "x").is_none());
}

#[test]
fn unknown_role_tokens_are_skipped() {
    let body = "{\"role\": \"system\", \"parts\": [\"setup\"]} {\"role\": \"user\", \"parts\": [\"question\"]}";
    let t = parse_transcript(body, "ref").unwrap();
    assert_eq!(t.turns.len(), 1);
    assert!(matches!(t.turns[0].role, Role::User));
    assert_eq!(t.turns[0].text, "question");
}

#[test]
fn multiple_parts_join_with_blank_line() {
    let body = "{\"role\": \"user\", \"parts\": [\"a\", \"b\"]}";
    let t = parse_transcript(body, "ref").unwrap();
    assert_eq!(t.turns[0].text, "a\n\nb");
}

#[test]
fn malformed_span_falls_back_to_unescape() {
    let body = "{\"role\": \"user\", \"parts\": [line one\\nline two]}";
    let t = parse_transcript(body, "ref").unwrap();
    assert_eq!(t.turns[0].text, "line one\nline two");
}

#[test]
fn title_field_is_unescaped() {
    let body = "{\"title\": \"Tab\\tTitle\", \"role\": \"user\", \"parts\": [\"x\"]}";
    let t = parse_transcript(body, "r").unwrap();
    assert_eq!(t.title.as_deref(), Some("Tab\tTitle"));
}

#[test]
fn unescape_decodes_escaped_fragment() {
    assert_eq!(json_unescape("abc\\ndef"), "abc\ndef");
}

#[test]
fn unescape_keeps_undecodable_fragment() {
    assert_eq!(json_unescape("not \" a literal"), "not \" a literal");
}

#[test]
fn crlf_pairs_render_as_line_feeds() {
    assert_eq!(normalize_newlines("line1\r\nline2"), "line1\nline2");
    let body = "{\"role\": \"user\", \"parts\": [\"line1\\r\\nline2\"]}";
    let doc = parse_backend_to_markdown(body, "ref").unwrap();
    assert!(doc.contains("> Пользователь: line1\nline2\n\n"));
    assert!(!doc.contains('\r'));
}

#[test]
fn render_uses_default_title_and_quotes_each_turn() {
    let body = "{\"role\": \"user\", \"parts\": [\"Hello\"]}";
    let t = parse_transcript(body, "chatgpt.com/share/deadbeef").unwrap();
    let doc = render_transcript(&t);
    assert_eq!(
        doc,
        "# ChatGPT Conversation\n\n**Источник**: https://chatgpt.com/share/deadbeef\n\n> Пользователь: Hello\n\n"
    );
}

#[test]
fn second_candidate_body_yields_single_user_turn() {
    // The first candidate answered with a non-success status, so the
    // caller skipped it; the second candidate's body carries one valid
    // user turn and no title field.
    let reference = "chatgpt.com/share/deadbeef";
    let candidates = build_candidates("deadbeef", 7);
    assert_eq!(candidates.len(), 2);
    let second_body = "{\"role\": \"user\", \"parts\": [\"only turn\"]}";
    let doc = parse_backend_to_markdown(second_body, reference).unwrap();
    assert_eq!(doc.matches("> ").count(), 1);
    assert_eq!(doc.matches("> Пользователь: only turn").count(), 1);
    assert!(doc.starts_with("# ChatGPT Conversation\n\n"));
}

#[test]
fn fallback_truncates_at_boundary_marker() {
    let mut body = String::new();
    for _ in 0..49 {
        body.push('x');
    }
    body.push('\n');
    body.push_str("##### You said:\nhello there");
    assert_eq!(body.find("##### You said:"), Some(50));
    let doc = fallback_document(&body, "chatgpt.com/share/x");
    assert_eq!(
        doc,
        "# ChatGPT Conversation\n\n**Источник**: chatgpt.com/share/x\n\n##### You said:\nhello there"
    );
}

#[test]
fn fallback_keeps_whole_body_without_marker() {
    let doc = fallback_document("just some text", "ref");
    assert_eq!(doc, "# ChatGPT Conversation\n\n**Источник**: ref\n\njust some text");
}

#[test]
fn fallback_reads_title_line() {
    let body = "Title:   My Shared Chat\nURL: something\n##### You said:\nhi";
    let doc = fallback_document(body, "ref");
    assert!(doc.starts_with("# My Shared Chat\n\n**Источник**: ref\n\n##### You said:\nhi"));
}

#[test]
fn log_appends_in_order() {
    let mut app = App::new();
    app.push_log("one");
    app.push_log("two");
    assert_eq!(app.logs.len(), 2);
    assert_eq!(app.logs[0], "one");
    assert_eq!(app.logs[1], "two");
}

#[test]
fn log_evicts_oldest_beyond_capacity() {
    let mut app = App::new();
    for i in 0..501 {
        app.push_log(&format!("line {}", i));
    }
    assert_eq!(app.logs.len(), 500);
    assert_eq!(app.logs[0], "line 1");
    assert_eq!(app.logs[499], "line 500");
}
