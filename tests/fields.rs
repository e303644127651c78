use reqcomposer::editor::{Edit, Editor};
use reqcomposer::request::Request;
use reqcomposer::validate::{is_blank, uri_verdict, validate_json, validate_uri};

fn field_with(title: &str, text: &str) -> Editor {
    let mut e = Editor::default(title);
    for c in text.chars() {
        if c == '\n' {
            e.insert_line_break();
        } else {
            e.insert_char(c);
        }
    }
    e
}

#[test]
fn new_field_is_empty() {
    let e = Editor::default("uri");
    assert_eq!(e.title, "uri");
    assert_eq!(e.lines(), vec![String::new()]);
    assert_eq!(e.cursor(), (0, 0));
    assert_eq!(e.text(), "");
}

#[test]
fn typing_inserts_at_cursor() {
    let e = field_with("body", "ab");
    assert_eq!(e.text(), "ab");
    assert_eq!(e.cursor(), (0, 2));
}

#[test]
fn line_break_splits_lines() {
    let mut e = field_with("body", "ab\ncd");
    assert_eq!(e.lines(), vec!["ab".to_string(), "cd".to_string()]);
    assert_eq!(e.text(), "ab\ncd");
    assert_eq!(e.cursor(), (1, 2));
    e.insert_line_break();
    assert_eq!(e.lines(), vec!["ab".to_string(), "cd".to_string(), String::new()]);
    assert_eq!(e.text(), "ab\ncd\n");
    assert_eq!(e.cursor(), (2, 0));
}

#[test]
fn delete_removes_char_before_cursor() {
    let mut e = field_with("uri", "abc");
    e.delete_before_cursor();
    assert_eq!(e.text(), "ab");
    assert_eq!(e.cursor(), (0, 2));
}

#[test]
fn delete_at_start_of_field_does_nothing() {
    let mut e = Editor::default("uri");
    e.delete_before_cursor();
    assert_eq!(e.lines(), vec![String::new()]);
    assert_eq!(e.cursor(), (0, 0));
}

#[test]
fn delete_at_line_start_joins_lines() {
    let mut e = field_with("body", "ab\n");
    assert_eq!(e.cursor(), (1, 0));
    e.delete_before_cursor();
    assert_eq!(e.lines(), vec!["ab".to_string()]);
    assert_eq!(e.cursor(), (0, 2));
}

#[test]
fn apply_matches_the_single_edits() {
    let mut e = Editor::default("body");
    e.apply(Edit::Insert('x'));
    e.apply(Edit::LineBreak);
    e.apply(Edit::Insert('y'));
    e.apply(Edit::DeleteBefore);
    assert_eq!(e.text(), "x\n");
    assert_eq!(e.cursor(), (1, 0));
}

#[test]
fn uri_examples() {
    assert!(!validate_uri(""));
    assert!(!validate_uri("   "));
    assert!(validate_uri("http://example.com/x"));
    assert!(!validate_uri("notaurl"));
    assert!(validate_uri("ftp://host/path"));
}

#[test]
fn uri_more_cases() {
    assert!(validate_uri("https://example.com"));
    assert!(!validate_uri("http://exa mple.com"));
    assert!(!validate_uri("gopher://host/path"));
    assert!(!validate_uri(" http://example.com"));
}

#[test]
fn uri_verdict_cases() {
    assert!(uri_verdict(false, Some(true)));
    assert!(!uri_verdict(true, Some(true)));
    assert!(!uri_verdict(false, Some(false)));
    assert!(!uri_verdict(false, None));
}

#[test]
fn blank_texts() {
    assert!(is_blank(""));
    assert!(is_blank("   "));
    assert!(is_blank(" \t\n "));
    assert!(!is_blank(" a "));
}

#[test]
fn json_examples() {
    assert!(!validate_json(""));
    assert!(validate_json("{}"));
    assert!(validate_json("{\"a\":1}"));
    assert!(!validate_json("{a:1}"));
}

#[test]
fn json_more_cases() {
    assert!(validate_json("[1, 2, {\"b\": null}]"));
    assert!(validate_json("true"));
    assert!(validate_json("\"s\""));
    assert!(!validate_json("{\"a\":1"));
    assert!(!validate_json("[1,]"));
}

#[test]
fn field_validation_reads_joined_text() {
    let e = field_with("uri", "http://a");
    assert!(e.validate_uri());
    let multi = field_with("uri", "http://a\nb");
    assert!(!multi.validate_uri());
    let j = field_with("body", "{\n\"a\": 1\n}");
    assert!(j.validate_json());
    let bad = field_with("body", "{a:1}");
    assert!(!bad.validate_json());
}

#[test]
fn assemble_without_payload_is_get() {
    let uri = field_with("uri", "http://example.com");
    let headers = Editor::default("headers");
    let body = Editor::default("body");
    let r = Request::assemble(&uri, &headers, &body);
    assert_eq!(r.uri, "http://example.com");
    assert_eq!(r.headers, None);
    assert_eq!(r.body, None);
    assert_eq!(r.method, "GET");
}

#[test]
fn assemble_with_body_is_post() {
    let uri = field_with("uri", "http://example.com");
    let headers = field_with("headers", "{\"k\":\"v\"}");
    let body = field_with("body", "{\n}");
    let r = Request::assemble(&uri, &headers, &body);
    assert_eq!(r.headers, Some("{\"k\":\"v\"}".to_string()));
    assert_eq!(r.body, Some("{\n}".to_string()));
    assert_eq!(r.method, "POST");
}
