use yuri_core::{
    ControlError, Headers, InterceptedRequest, InterceptedResponse, ProxyControl, ProxyHandler, RewriteManager,
    RewriteRule,
};

fn rule(rule_type: &str, pattern: &str, replace: &str, location: &str, action: &str) -> RewriteRule {
    RewriteRule {
        id: "r".to_string(),
        rule_type: rule_type.to_string(),
        match_pattern: pattern.to_string(),
        replace_with: replace.to_string(),
        location: location.to_string(),
        action: action.to_string(),
        enabled: true,
    }
}

fn request(url: &str, fields: &[(&str, &[u8])], body: &[u8]) -> InterceptedRequest {
    let mut headers = Headers::new();
    for (n, v) in fields {
        headers.append(n.to_string(), v.to_vec());
    }
    InterceptedRequest { method: "GET".to_string(), url: url.to_string(), headers, body: body.to_vec() }
}

fn response(status: u16, body: &[u8]) -> InterceptedResponse {
    InterceptedResponse { status, headers: Headers::new(), body: body.to_vec() }
}

#[test]
fn single_exchange_is_recorded_and_announced() {
    let rules = RewriteManager::new();
    let mut handler = ProxyHandler::new();
    let captured = handler.capture_request(&rules, request("http://example.com/a", &[], b"hello"), "id-1".to_string(), 1000);
    assert_eq!(captured.record.id, "id-1");
    assert_eq!(captured.record.method, "GET");
    assert_eq!(captured.record.url, "http://example.com/a");
    assert_eq!(captured.record.protocol, "http");
    assert_eq!(captured.record.request_body, Some(b"hello".to_vec()));
    assert_eq!(captured.record.response_status, 0);
    assert_eq!(captured.record.response_headers, "");
    assert_eq!(captured.record.response_body, None);
    assert_eq!(captured.record.duration, 0);
    assert_eq!(captured.record.timestamp, 1000);
    assert_eq!(captured.event.id, "id-1");
    assert_eq!(captured.event.phase, "request");
    assert_eq!(captured.event.status, None);

    let answered = handler.capture_response(&rules, response(200, b"world"), 1250);
    let update = answered.update.expect("the response is matched");
    let event = answered.event.expect("the response is announced");
    assert_eq!(update.id, "id-1");
    assert_eq!(update.response_status, 200);
    assert_eq!(update.response_body, Some(b"world".to_vec()));
    assert_eq!(update.duration, 250);
    assert_eq!(event.id, "id-1");
    assert_eq!(event.phase, "response");
    assert_eq!(event.status, Some(200));
    assert_eq!(event.method, "");
    assert_eq!(event.url, "");

    let mut record = captured.record;
    record.complete(update);
    assert_eq!(record.response_status, 200);
    assert_eq!(record.response_body, Some(b"world".to_vec()));
    assert_eq!(record.duration, 250);
    assert_eq!(record.url, "http://example.com/a");
}

#[test]
fn responses_are_matched_oldest_first() {
    let rules = RewriteManager::new();
    let mut handler = ProxyHandler::new();
    handler.capture_request(&rules, request("http://a/", &[], b""), "first".to_string(), 10);
    handler.capture_request(&rules, request("http://b/", &[], b""), "second".to_string(), 20);
    let one = handler.capture_response(&rules, response(201, b""), 30);
    let two = handler.capture_response(&rules, response(202, b""), 30);
    let three = handler.capture_response(&rules, response(203, b""), 30);
    assert_eq!(one.update.unwrap().id, "first");
    assert_eq!(two.update.unwrap().id, "second");
    assert!(three.update.is_none());
    assert!(three.event.is_none());
    assert_eq!(three.response.status, 203);
}

#[test]
fn empty_body_is_stored_as_none_and_clock_skew_gives_zero() {
    let rules = RewriteManager::new();
    let mut handler = ProxyHandler::new();
    let c = handler.capture_request(&rules, request("http://a/", &[], b""), "x".to_string(), 500);
    assert_eq!(c.record.request_body, None);
    let r = handler.capture_response(&rules, response(204, b""), 400);
    let u = r.update.unwrap();
    assert_eq!(u.response_body, None);
    assert_eq!(u.duration, 0);
}

#[test]
fn grpc_is_recognised_by_content_type() {
    let rules = RewriteManager::new();
    let mut handler = ProxyHandler::new();
    let grpc = handler.capture_request(
        &rules,
        request("http://a/", &[("content-type", b"application/grpc+proto")], b""),
        "g".to_string(),
        0,
    );
    assert_eq!(grpc.record.protocol, "grpc");
    let json = handler.capture_request(
        &rules,
        request("http://a/", &[("content-type", b"application/json")], b""),
        "j".to_string(),
        0,
    );
    assert_eq!(json.record.protocol, "http");
    let binary = handler.capture_request(
        &rules,
        request("http://a/", &[("content-type", b"application/grpc\x01")], b""),
        "b".to_string(),
        0,
    );
    assert_eq!(binary.record.protocol, "http");
}

#[test]
fn request_is_rewritten_before_it_is_recorded() {
    let mut rules = RewriteManager::new();
    rules.load_rules(vec![
        rule("url", "^http://", "https://", "request", "replace"),
        rule("header", "Content-Type", "application/grpc", "request", "replace"),
        rule("body", "secret", "*****", "request", "replace"),
    ]);
    let mut handler = ProxyHandler::new();
    let c = handler.capture_request(
        &rules,
        request("http://example.com/a", &[("content-type", b"text/plain")], b"my secret"),
        "r".to_string(),
        0,
    );
    assert_eq!(c.request.url, "https://example.com/a");
    assert_eq!(c.record.url, "https://example.com/a");
    assert_eq!(c.record.protocol, "grpc");
    assert_eq!(c.request.body, b"my *****".to_vec());
    assert_eq!(c.record.request_body, Some(b"my *****".to_vec()));
    assert!(c.record.request_headers.contains("application/grpc"));
}

#[test]
fn url_that_is_no_uri_after_rewrite_is_kept() {
    let mut rules = RewriteManager::new();
    rules.load_rules(vec![rule("url", "example", "bad host", "request", "replace")]);
    let mut handler = ProxyHandler::new();
    let c = handler.capture_request(&rules, request("http://example.com/a", &[], b""), "u".to_string(), 0);
    assert_eq!(c.request.url, "http://example.com/a");
}

#[test]
fn response_is_rewritten() {
    let mut rules = RewriteManager::new();
    rules.load_rules(vec![
        rule("header", "X-Powered-By", "", "response", "delete"),
        rule("body", "old", "new", "response", "replace"),
    ]);
    let mut handler = ProxyHandler::new();
    let mut headers = Headers::new();
    headers.append("x-powered-by".to_string(), b"php".to_vec());
    let r = handler.capture_response(&rules, InterceptedResponse { status: 200, headers, body: b"old".to_vec() }, 0);
    assert!(r.response.headers.entries.is_empty());
    assert_eq!(r.response.body, b"new".to_vec());
}

#[test]
fn handle_request_assigns_fresh_ids() {
    let rules = RewriteManager::new();
    let mut handler = ProxyHandler::new();
    let a = handler.handle_request(&rules, request("http://a/", &[], b""));
    let b = handler.handle_request(&rules, request("http://a/", &[], b""));
    assert_eq!(a.record.id.len(), 36);
    assert_ne!(a.record.id, b.record.id);
    assert!(a.record.timestamp > 0);
    let r = handler.handle_response(&rules, response(200, b""));
    assert_eq!(r.update.unwrap().id, a.record.id);
}

#[test]
fn second_start_is_refused() {
    let mut control = ProxyControl::new();
    assert_eq!(control.start(8080), Ok(8080));
    assert_eq!(control.start(8081), Err(ControlError::AlreadyRunning));
    assert_eq!(ControlError::AlreadyRunning.message(), "Proxy already running");
    assert!(control.stop());
    assert!(!control.stop());
    assert_eq!(control.start(8081), Ok(8081));
}

#[test]
fn rewritten_url_is_normalised_as_a_uri() {
    let mut rules = RewriteManager::new();
    rules.load_rules(vec![rule("url", "/a$", "", "request", "replace")]);
    let mut handler = ProxyHandler::new();
    let c = handler.capture_request(&rules, request("http://example.com/a", &[], b""), "n".to_string(), 0);
    assert_eq!(c.request.url, "http://example.com/");
}

#[test]
fn duration_saturates_at_the_largest_value() {
    let rules = RewriteManager::new();
    let mut handler = ProxyHandler::new();
    handler.capture_request(&rules, request("http://a/", &[], b""), "s".to_string(), i64::MIN);
    let r = handler.capture_response(&rules, response(200, b""), i64::MAX);
    assert_eq!(r.update.unwrap().duration, i64::MAX);
}
