//! The observation stage: a correlation id per request, a redacted header
//! snapshot, the logical path, and leveled entry and completion events.

use vstd::prelude::*;
use crate::text::{contains, contains_seq, lower_of, lowercase};

verus! {

/// Severity of a log event.
#[derive(Clone, Copy, Debug, PartialEq, Eq, Structural)]
pub enum LogLevel {
    Debug,
    Info,
    Warn,
    Error,
}

/// The level of a completion event: informational for 2xx and 3xx, warning
/// for 4xx, error for 5xx, debug for any other status.
pub open spec fn level_of(status: u16) -> LogLevel {
    if 200 <= status <= 399 {
        LogLevel::Info
    } else if 400 <= status <= 499 {
        LogLevel::Warn
    } else if 500 <= status <= 599 {
        LogLevel::Error
    } else {
        LogLevel::Debug
    }
}

/// The message of a completion event for a status.
pub open spec fn completion_message_of(status: u16) -> Seq<char> {
    if 200 <= status <= 299 {
        "HTTP request completed successfully"@
    } else if 300 <= status <= 399 {
        "HTTP request redirected"@
    } else if 400 <= status <= 499 {
        "HTTP request client error"@
    } else if 500 <= status <= 599 {
        "HTTP request server error"@
    } else {
        "HTTP request completed"@
    }
}

/// The message of the entry event.
pub open spec fn entry_message() -> Seq<char> {
    "HTTP request started"@
}

/// Whether a header name is sensitive: its lower-case form contains
/// `authorization`, `cookie` or `token`.
pub open spec fn sensitive(name: Seq<char>) -> bool {
    contains_seq(lower_of(name), "authorization"@) || contains_seq(lower_of(name), "cookie"@)
        || contains_seq(lower_of(name), "token"@)
}

/// The headers that are kept in a snapshot: the non-sensitive ones, in
/// their order.
pub open spec fn kept_headers(h: Seq<(String, String)>) -> Seq<(String, String)>
    decreases h.len(),
{
    if h.len() == 0 {
        seq![]
    } else if sensitive(h.last().0@) {
        kept_headers(h.drop_last())
    } else {
        kept_headers(h.drop_last()).push(h.last())
    }
}

/// The path that events report: the matched route pattern when there is
/// one, else the raw path.
pub open spec fn logical_path_of(matched: Option<Seq<char>>, raw: Seq<char>) -> Seq<char> {
    match matched {
        Some(m) => m,
        None => raw,
    }
}

/// The level of the completion event for a status.
pub fn level_for_status(status: u16) -> (r: LogLevel)
    ensures
        r == level_of(status),
{
    if 200 <= status && status <= 399 {
        LogLevel::Info
    } else if 400 <= status && status <= 499 {
        LogLevel::Warn
    } else if 500 <= status && status <= 599 {
        LogLevel::Error
    } else {
        LogLevel::Debug
    }
}

/// The message of the completion event for a status.
pub fn completion_message(status: u16) -> (r: String)
    ensures
        r@ == completion_message_of(status),
{
    if 200 <= status && status <= 299 {
        String::from_str("HTTP request completed successfully")
    } else if 300 <= status && status <= 399 {
        String::from_str("HTTP request redirected")
    } else if 400 <= status && status <= 499 {
        String::from_str("HTTP request client error")
    } else if 500 <= status && status <= 599 {
        String::from_str("HTTP request server error")
    } else {
        String::from_str("HTTP request completed")
    }
}

/// Whether a header must be left out of the snapshot.
pub fn is_sensitive_header(name: &str) -> (r: bool)
    ensures
        r == sensitive(name@),
{
    let lower = lowercase(name);
    contains(lower.as_str(), "authorization") || contains(lower.as_str(), "cookie")
        || contains(lower.as_str(), "token")
}

/// A copy of a name-value pair.
fn copy_pair(p: &(String, String)) -> (r: (String, String))
    ensures
        r == *p,
{
    (p.0.clone(), p.1.clone())
}

/// The header snapshot: every sensitive header fully omitted, the others
/// kept with their values, in their order.
pub fn redact_headers(headers: &Vec<(String, String)>) -> (r: Vec<(String, String)>)
    ensures
        r@ == kept_headers(headers@),
{
    let mut kept: Vec<(String, String)> = Vec::new();
    let mut i: usize = 0;
    assert(headers@.take(0) =~= Seq::<(String, String)>::empty());
    while i < headers.len()
        invariant
            i <= headers@.len(),
            kept@ == kept_headers(headers@.take(i as int)),
        decreases headers@.len() - i,
    {
        let ghost before = headers@.take(i as int);
        assert(headers@.take(i + 1).drop_last() =~= before);
        assert(headers@.take(i + 1).last() == headers@[i as int]);
        if !is_sensitive_header(headers[i].0.as_str()) {
            kept.push(copy_pair(&headers[i]));
        }
        i = i + 1;
    }
    assert(headers@.take(i as int) =~= headers@);
    kept
}

/// The path that events report.
pub fn logical_path(matched: Option<&str>, raw: &str) -> (r: String)
    ensures
        r@ == logical_path_of(
            match matched {
                Some(m) => Some(m@),
                None => None,
            },
            raw@,
        ),
{
    match matched {
        Some(m) => String::from_str(m),
        None => String::from_str(raw),
    }
}

/// Relies on `uuid::Uuid::new_v4`: a random identifier. Nothing is known
/// of the value.
#[verifier::external_body]
fn random_request_id() -> (r: u128) {
    uuid::Uuid::new_v4().as_u128()
}

/// What the observation stage records at request entry.
#[derive(Debug)]
pub struct TraceContext {
    pub request_id: u128,
    pub method: String,
    pub uri: String,
    pub path: String,
    pub version: String,
    pub headers: Vec<(String, String)>,
}

/// A structured log event.
#[derive(Debug)]
pub struct LogEvent {
    pub level: LogLevel,
    pub request_id: u128,
    pub method: String,
    pub uri: String,
    pub path: String,
    pub version: Option<String>,
    pub headers: Vec<(String, String)>,
    pub status: Option<u16>,
    pub duration_ms: Option<u64>,
    pub message: String,
}

impl TraceContext {
    /// The context of a request with correlation id `request_id`: the
    /// logical path, and the header snapshot with sensitive headers omitted.
    pub fn new(
        request_id: u128,
        method: String,
        uri: String,
        matched_path: Option<&str>,
        raw_path: &str,
        version: String,
        headers: &Vec<(String, String)>,
    ) -> (r: TraceContext)
        ensures
            r.request_id == request_id,
            r.method == method,
            r.uri == uri,
            r.path@ == logical_path_of(
                match matched_path {
                    Some(m) => Some(m@),
                    None => None,
                },
                raw_path@,
            ),
            r.version == version,
            r.headers@ == kept_headers(headers@),
    {
        let path = logical_path(matched_path, raw_path);
        let headers = redact_headers(headers);
        TraceContext { request_id, method, uri, path, version, headers }
    }

    /// The context of a request under a fresh random correlation id.
    pub fn begin(
        method: String,
        uri: String,
        matched_path: Option<&str>,
        raw_path: &str,
        version: String,
        headers: &Vec<(String, String)>,
    ) -> (r: TraceContext)
        ensures
            r.method == method,
            r.uri == uri,
            r.path@ == logical_path_of(
                match matched_path {
                    Some(m) => Some(m@),
                    None => None,
                },
                raw_path@,
            ),
            r.version == version,
            r.headers@ == kept_headers(headers@),
    {
        let id = random_request_id();
        TraceContext::new(id, method, uri, matched_path, raw_path, version, headers)
    }

    /// The event emitted before the inner stages run: informational, with
    /// the request's fields and its header snapshot.
    pub fn entry_event(&self) -> (r: LogEvent)
        ensures
            r.level == LogLevel::Info,
            r.request_id == self.request_id,
            r.method == self.method,
            r.uri == self.uri,
            r.path == self.path,
            r.version == Some(self.version),
            r.headers@ == self.headers@,
            r.status is None,
            r.duration_ms is None,
            r.message@ == entry_message(),
    {
        let mut headers: Vec<(String, String)> = Vec::new();
        let mut i: usize = 0;
        while i < self.headers.len()
            invariant
                i <= self.headers@.len(),
                headers@ == self.headers@.take(i as int),
            decreases self.headers@.len() - i,
        {
            headers.push(copy_pair(&self.headers[i]));
            assert(headers@ =~= self.headers@.take(i + 1));
            i = i + 1;
        }
        assert(self.headers@.take(i as int) =~= self.headers@);
        LogEvent {
            level: LogLevel::Info,
            request_id: self.request_id,
            method: self.method.clone(),
            uri: self.uri.clone(),
            path: self.path.clone(),
            version: Some(self.version.clone()),
            headers,
            status: None,
            duration_ms: None,
            message: String::from_str("HTTP request started"),
        }
    }

    /// The event emitted once the inner stages answered with `status`
    /// after `duration_ms` milliseconds, at the level of the status band.
    pub fn completion_event(&self, status: u16, duration_ms: u64) -> (r: LogEvent)
        ensures
            r.level == level_of(status),
            r.request_id == self.request_id,
            r.method == self.method,
            r.uri == self.uri,
            r.path == self.path,
            r.version is None,
            r.headers@.len() == 0,
            r.status == Some(status),
            r.duration_ms == Some(duration_ms),
            r.message@ == completion_message_of(status),
    {
        LogEvent {
            level: level_for_status(status),
            request_id: self.request_id,
            method: self.method.clone(),
            uri: self.uri.clone(),
            path: self.path.clone(),
            version: None,
            headers: Vec::new(),
            status: Some(status),
            duration_ms: Some(duration_ms),
            message: completion_message(status),
        }
    }
}

} // verus!
