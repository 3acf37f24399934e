use task_api_guard::observe::{
    completion_message, is_sensitive_header, level_for_status, logical_path, redact_headers, LogLevel, TraceContext,
};

fn pairs(v: &[(&str, &str)]) -> Vec<(String, String)> {
    v.iter().map(|(a, b)| (a.to_string(), b.to_string())).collect()
}

#[test]
fn not_found_logs_a_warning_and_unavailable_an_error() {
    assert_eq!(level_for_status(404), LogLevel::Warn);
    assert_eq!(level_for_status(503), LogLevel::Error);
}

#[test]
fn level_bands() {
    assert_eq!(level_for_status(200), LogLevel::Info);
    assert_eq!(level_for_status(299), LogLevel::Info);
    assert_eq!(level_for_status(301), LogLevel::Info);
    assert_eq!(level_for_status(400), LogLevel::Warn);
    assert_eq!(level_for_status(499), LogLevel::Warn);
    assert_eq!(level_for_status(500), LogLevel::Error);
    assert_eq!(level_for_status(599), LogLevel::Error);
    assert_eq!(level_for_status(101), LogLevel::Debug);
    assert_eq!(level_for_status(600), LogLevel::Debug);
    assert_eq!(level_for_status(0), LogLevel::Debug);
}

#[test]
fn completion_messages() {
    assert_eq!(completion_message(200), "HTTP request completed successfully");
    assert_eq!(completion_message(302), "HTTP request redirected");
    assert_eq!(completion_message(404), "HTTP request client error");
    assert_eq!(completion_message(503), "HTTP request server error");
    assert_eq!(completion_message(101), "HTTP request completed");
}

#[test]
fn sensitive_header_names() {
    assert!(is_sensitive_header("authorization"));
    assert!(is_sensitive_header("Authorization"));
    assert!(is_sensitive_header("proxy-authorization"));
    assert!(is_sensitive_header("cookie"));
    assert!(is_sensitive_header("Set-Cookie"));
    assert!(is_sensitive_header("x-csrf-token"));
    assert!(!is_sensitive_header("content-type"));
    assert!(!is_sensitive_header("user-agent"));
    assert!(!is_sensitive_header(""));
}

#[test]
fn redaction_omits_sensitive_headers_and_keeps_order() {
    let h = pairs(&[
        ("host", "api.local"),
        ("authorization", "Bearer secret"),
        ("accept", "application/json"),
        ("cookie", "sid=1"),
        ("x-api-token", "t"),
        ("user-agent", "curl"),
    ]);
    assert_eq!(
        redact_headers(&h),
        pairs(&[("host", "api.local"), ("accept", "application/json"), ("user-agent", "curl")])
    );
    assert_eq!(redact_headers(&vec![]), vec![]);
}

#[test]
fn logical_path_prefers_route_pattern() {
    assert_eq!(logical_path(Some("/api/tasks/{id}"), "/api/tasks/42"), "/api/tasks/{id}");
    assert_eq!(logical_path(None, "/api/tasks/42"), "/api/tasks/42");
}

#[test]
fn trace_events_share_correlation_id() {
    let h = pairs(&[("authorization", "Bearer x"), ("accept", "*/*")]);
    let ctx = TraceContext::new(99, "GET".to_string(), "/api/tasks/1".to_string(), Some("/api/tasks/{id}"), "/api/tasks/1", "HTTP/1.1".to_string(), &h);
    assert_eq!(ctx.path, "/api/tasks/{id}");
    assert_eq!(ctx.headers, pairs(&[("accept", "*/*")]));
    let entry = ctx.entry_event();
    assert_eq!(entry.request_id, 99);
    assert_eq!(entry.message, "HTTP request started");
    assert_eq!(entry.headers, pairs(&[("accept", "*/*")]));
    assert_eq!(entry.version, Some("HTTP/1.1".to_string()));
    let done = ctx.completion_event(404, 12);
    assert_eq!(done.request_id, 99);
    assert_eq!(done.level, LogLevel::Warn);
    assert_eq!(done.duration_ms, Some(12));
    assert_eq!(done.message, "HTTP request client error");
    assert_eq!(done.path, "/api/tasks/{id}");
}

#[test]
fn begin_draws_fresh_ids() {
    let a = TraceContext::begin("GET".to_string(), "/".to_string(), None, "/", "HTTP/1.1".to_string(), &vec![]);
    let b = TraceContext::begin("GET".to_string(), "/".to_string(), None, "/", "HTTP/1.1".to_string(), &vec![]);
    assert_ne!(a.request_id, b.request_id);
    assert_eq!(a.entry_event().request_id, a.completion_event(200, 1).request_id);
}
