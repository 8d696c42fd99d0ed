use yuri_core::{Headers, RewriteManager, RewriteRule};

fn rule(rule_type: &str, pattern: &str, replace: &str, location: &str, action: &str, enabled: bool) -> RewriteRule {
    RewriteRule {
        id: format!("{}-{}", rule_type, pattern),
        rule_type: rule_type.to_string(),
        match_pattern: pattern.to_string(),
        replace_with: replace.to_string(),
        location: location.to_string(),
        action: action.to_string(),
        enabled,
    }
}

fn manager(rules: Vec<RewriteRule>) -> RewriteManager {
    let mut m = RewriteManager::new();
    m.load_rules(rules);
    m
}

fn headers(fields: &[(&str, &str)]) -> Headers {
    let mut h = Headers::new();
    for (n, v) in fields {
        h.append(n.to_string(), v.as_bytes().to_vec());
    }
    h
}

fn fields(h: &Headers) -> Vec<(String, String)> {
    h.entries
        .iter()
        .map(|(n, v)| (n.clone(), String::from_utf8(v.clone()).unwrap()))
        .collect()
}

#[test]
fn url_rule_upgrades_scheme() {
    let m = manager(vec![rule("url", "^http://", "https://", "request", "replace", true)]);
    assert_eq!(m.apply_request_url("http://example.com/a"), "https://example.com/a");
}

#[test]
fn url_rule_replaces_every_match_with_groups() {
    let m = manager(vec![rule("url", "(\\d+)", "<$1>", "request", "replace", true)]);
    assert_eq!(m.apply_request_url("http://h/1/22"), "http://h/<1>/<22>");
}

#[test]
fn rules_of_other_kinds_locations_or_disabled_leave_input_unchanged() {
    let m = manager(vec![
        rule("url", "example", "other", "response", "replace", true),
        rule("url", "example", "other", "request", "replace", false),
        rule("body", "example", "other", "request", "replace", true),
        rule("header", "X-A", "1", "response", "add", true),
    ]);
    assert_eq!(m.apply_request_url("http://example.com/"), "http://example.com/");
    let mut h = headers(&[("x-b", "2")]);
    m.apply_request_headers(&mut h);
    assert_eq!(fields(&h), vec![("x-b".to_string(), "2".to_string())]);
    assert_eq!(m.apply_response_body(b"example".to_vec()), b"example".to_vec());
}

#[test]
fn empty_rule_set_is_identity() {
    let m = RewriteManager::new();
    assert_eq!(m.apply_request_url("http://a/b"), "http://a/b");
    assert_eq!(m.apply_request_body(vec![1, 2, 3]), vec![1, 2, 3]);
    let mut h = headers(&[("a", "1"), ("a", "2")]);
    m.apply_response_headers(&mut h);
    assert_eq!(fields(&h).len(), 2);
}

#[test]
fn invalid_pattern_is_skipped() {
    let m = manager(vec![
        rule("url", "(unclosed", "x", "request", "replace", true),
        rule("url", "a", "b", "request", "replace", true),
    ]);
    assert_eq!(m.apply_request_url("aaa"), "bbb");
}

#[test]
fn delete_rule_removes_every_occurrence() {
    let m = manager(vec![rule("header", "X-Debug", "ignored", "request", "delete", true)]);
    let mut h = headers(&[("x-debug", "1"), ("accept", "*/*"), ("x-debug", "2"), ("x-debug", "")]);
    m.apply_request_headers(&mut h);
    assert_eq!(fields(&h), vec![("accept".to_string(), "*/*".to_string())]);
}

#[test]
fn two_add_rules_keep_their_order() {
    let m = manager(vec![
        rule("header", "X-Trace", "1", "request", "add", true),
        rule("header", "X-Trace", "2", "request", "add", true),
    ]);
    let mut h = headers(&[("host", "example.com")]);
    m.apply_request_headers(&mut h);
    assert_eq!(
        fields(&h),
        vec![
            ("host".to_string(), "example.com".to_string()),
            ("x-trace".to_string(), "1".to_string()),
            ("x-trace".to_string(), "2".to_string()),
        ]
    );
}

#[test]
fn replace_rule_leaves_one_field() {
    let m = manager(vec![rule("header", "Server", "proxy", "response", "replace", true)]);
    let mut h = headers(&[("server", "a"), ("date", "today"), ("server", "b")]);
    m.apply_response_headers(&mut h);
    assert_eq!(
        fields(&h),
        vec![("date".to_string(), "today".to_string()), ("server".to_string(), "proxy".to_string())]
    );
}

#[test]
fn invalid_header_name_or_value_is_skipped() {
    let m = manager(vec![
        rule("header", "Bad Name", "1", "request", "add", true),
        rule("header", "X-Ok", "line\nbreak", "request", "add", true),
        rule("header", "X-Ok", "fine", "request", "unknown", true),
    ]);
    let mut h = headers(&[("a", "1")]);
    m.apply_request_headers(&mut h);
    assert_eq!(fields(&h), vec![("a".to_string(), "1".to_string())]);
}

#[test]
fn non_utf8_body_passes_unchanged() {
    let m = manager(vec![rule("body", ".*", "replaced", "request", "replace", true)]);
    let body = vec![0xff, 0xfe, b'f', b'o', b'o', 0x80];
    assert_eq!(m.apply_request_body(body.clone()), body);
}

#[test]
fn body_rules_chain_in_order() {
    let m = manager(vec![
        rule("body", "foo", "bar", "response", "replace", true),
        rule("body", "bar", "baz", "response", "replace", true),
    ]);
    assert_eq!(m.apply_response_body(b"foo".to_vec()), b"baz".to_vec());
}

#[test]
fn body_rules_in_reverse_order_do_not_chain() {
    let m = manager(vec![
        rule("body", "bar", "baz", "response", "replace", true),
        rule("body", "foo", "bar", "response", "replace", true),
    ]);
    assert_eq!(m.apply_response_body(b"foo".to_vec()), b"bar".to_vec());
}

#[test]
fn reload_replaces_whole_snapshot() {
    let mut m = manager(vec![rule("url", "a", "b", "request", "replace", true)]);
    m.load_rules(vec![rule("url", "a", "c", "request", "replace", true)]);
    assert_eq!(m.apply_request_url("a"), "c");
}

#[test]
fn headers_remove_all_keeps_the_rest_in_order() {
    let mut h = headers(&[("a", "1"), ("b", "2"), ("a", "3"), ("c", "4")]);
    h.remove_all(&"a".to_string());
    assert_eq!(
        fields(&h),
        vec![("b".to_string(), "2".to_string()), ("c".to_string(), "4".to_string())]
    );
}
