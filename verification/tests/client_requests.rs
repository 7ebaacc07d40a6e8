//! The client wrappers driven against a recording backend: URL resolution,
//! authentication injection, and error propagation.

use std::cell::RefCell;
use std::rc::Rc;

use rspotify_http::client::Spotify;
use rspotify_http::http::BaseHTTPClient;
use rspotify_http::http::ClientError;
use rspotify_http::http::ClientResult;
use rspotify_http::http::Form;
use rspotify_http::http::Headers;
use rspotify_http::http::Query;
use rspotify_http::oauth2::Token;

const PREFIX: &str = "https://api.example.com/v1/";

#[derive(Debug, Clone, PartialEq)]
struct Recorded {
    method: String,
    url: String,
    headers: Option<Vec<(String, String)>>,
    body: String,
}

/// A backend that records every call and answers with a canned body, or
/// with a canned error when one is set.
struct RecordingBackend {
    calls: Rc<RefCell<Vec<Recorded>>>,
    failure: Option<ClientError>,
}

impl RecordingBackend {
    fn new() -> (Self, Rc<RefCell<Vec<Recorded>>>) {
        let calls = Rc::new(RefCell::new(Vec::new()));
        (
            RecordingBackend { calls: Rc::clone(&calls), failure: None },
            calls,
        )
    }

    fn failing(error: ClientError) -> (Self, Rc<RefCell<Vec<Recorded>>>) {
        let calls = Rc::new(RefCell::new(Vec::new()));
        (
            RecordingBackend { calls: Rc::clone(&calls), failure: Some(error) },
            calls,
        )
    }

    fn record(
        &self,
        method: &str,
        url: &str,
        headers: Option<&Headers>,
        body: String,
    ) -> ClientResult<String> {
        self.calls.borrow_mut().push(Recorded {
            method: method.to_string(),
            url: url.to_string(),
            headers: headers.map(|h| h.entries().clone()),
            body,
        });
        match &self.failure {
            Some(e) => Err(e.clone()),
            None => Ok(String::from("response body")),
        }
    }
}

fn pairs_body(payload: &Headers) -> String {
    payload
        .entries()
        .iter()
        .map(|(k, v)| format!("{}={}", k, v))
        .collect::<Vec<_>>()
        .join("&")
}

impl BaseHTTPClient for RecordingBackend {
    fn get(&self, url: &str, headers: Option<&Headers>, payload: &Query) -> ClientResult<String> {
        self.record("GET", url, headers, pairs_body(payload))
    }

    fn post(
        &self,
        url: &str,
        headers: Option<&Headers>,
        payload: &serde_json::Value,
    ) -> ClientResult<String> {
        self.record("POST", url, headers, serde_json::to_string(payload).unwrap())
    }

    fn post_form(
        &self,
        url: &str,
        headers: Option<&Headers>,
        payload: &Form,
    ) -> ClientResult<String> {
        self.record("POST_FORM", url, headers, pairs_body(payload))
    }

    fn put(
        &self,
        url: &str,
        headers: Option<&Headers>,
        payload: &serde_json::Value,
    ) -> ClientResult<String> {
        self.record("PUT", url, headers, serde_json::to_string(payload).unwrap())
    }

    fn delete(
        &self,
        url: &str,
        headers: Option<&Headers>,
        payload: &serde_json::Value,
    ) -> ClientResult<String> {
        self.record("DELETE", url, headers, serde_json::to_string(payload).unwrap())
    }
}

fn client_with_token(backend: RecordingBackend, token: &str) -> Spotify<RecordingBackend> {
    Spotify::new(
        backend,
        String::from(PREFIX),
        Some(Token::new(String::from(token))),
    )
}

fn client_without_token(backend: RecordingBackend) -> Spotify<RecordingBackend> {
    Spotify::new(backend, String::from(PREFIX), None)
}

fn empty_object() -> serde_json::Value {
    serde_json::Value::Object(serde_json::Map::new())
}

#[test]
fn endpoint_url_prefixes_relative_route() {
    let (backend, _calls) = RecordingBackend::new();
    let client = client_without_token(backend);
    assert_eq!(client.endpoint_url("me"), "https://api.example.com/v1/me");
}

#[test]
fn endpoint_url_keeps_absolute_url() {
    let (backend, _calls) = RecordingBackend::new();
    let client = client_without_token(backend);
    assert_eq!(
        client.endpoint_url("https://other.example.com/x"),
        "https://other.example.com/x"
    );
}

#[test]
fn endpoint_url_resolves_only_once() {
    let (backend, _calls) = RecordingBackend::new();
    let client = client_without_token(backend);
    let once = client.endpoint_url("me");
    let twice = client.endpoint_url(&once);
    assert_eq!(once, twice);
}

#[test]
fn auth_headers_with_token() {
    let (backend, _calls) = RecordingBackend::new();
    let client = client_with_token(backend, "tok");
    let headers = client.auth_headers().unwrap();
    assert_eq!(headers.get("authorization").map(String::as_str), Some("Bearer tok"));
    assert_eq!(headers.entries().len(), 1);
}

#[test]
fn auth_headers_without_token() {
    let (backend, _calls) = RecordingBackend::new();
    let client = client_without_token(backend);
    assert!(matches!(client.auth_headers(), Err(ClientError::AuthUnavailable)));
}

#[test]
fn get_token_reads_current_token() {
    let (backend, _calls) = RecordingBackend::new();
    let client = client_with_token(backend, "tok");
    assert_eq!(client.get_token().unwrap().access_token, "tok");
}

#[test]
fn endpoint_verbs_without_token_fail_and_stay_local() {
    let (backend, calls) = RecordingBackend::new();
    let client = client_without_token(backend);

    assert!(matches!(
        client.endpoint_get("me", &Query::new()),
        Err(ClientError::AuthUnavailable)
    ));
    assert!(matches!(
        client.endpoint_post("me", &empty_object()),
        Err(ClientError::AuthUnavailable)
    ));
    assert!(matches!(
        client.endpoint_put("me", &empty_object()),
        Err(ClientError::AuthUnavailable)
    ));
    assert!(matches!(
        client.endpoint_delete("me", &empty_object()),
        Err(ClientError::AuthUnavailable)
    ));
    // no request ever reached the backend
    assert_eq!(calls.borrow().len(), 0);
}

#[test]
fn endpoint_get_makes_one_authenticated_call() {
    let (backend, calls) = RecordingBackend::new();
    let client = client_with_token(backend, "tok");

    let body = client.endpoint_get("me", &Query::new()).unwrap();
    assert_eq!(body, "response body");

    let calls = calls.borrow();
    assert_eq!(calls.len(), 1);
    assert_eq!(calls[0].method, "GET");
    assert_eq!(calls[0].url, "https://api.example.com/v1/me");
    let headers = calls[0].headers.as_ref().unwrap();
    assert_eq!(
        headers,
        &vec![(String::from("authorization"), String::from("Bearer tok"))]
    );
}

#[test]
fn endpoint_post_put_delete_carry_bearer_header() {
    let (backend, calls) = RecordingBackend::new();
    let client = client_with_token(backend, "tok");

    client.endpoint_post("a", &empty_object()).unwrap();
    client.endpoint_put("b", &empty_object()).unwrap();
    client.endpoint_delete("c", &empty_object()).unwrap();

    let calls = calls.borrow();
    assert_eq!(calls.len(), 3);
    let expected = [
        ("POST", "https://api.example.com/v1/a"),
        ("PUT", "https://api.example.com/v1/b"),
        ("DELETE", "https://api.example.com/v1/c"),
    ];
    for (call, (method, url)) in calls.iter().zip(expected.iter()) {
        assert_eq!(call.method, *method);
        assert_eq!(call.url, *url);
        let headers = call.headers.as_ref().unwrap();
        assert_eq!(
            headers,
            &vec![(String::from("authorization"), String::from("Bearer tok"))]
        );
    }
}

#[test]
fn basic_post_sends_literal_empty_object() {
    let (backend, calls) = RecordingBackend::new();
    let client = client_without_token(backend);

    client.post("path", None, &empty_object()).unwrap();

    let calls = calls.borrow();
    assert_eq!(calls.len(), 1);
    assert_eq!(calls[0].url, "https://api.example.com/v1/path");
    assert_eq!(calls[0].body, "{}");
    assert!(calls[0].headers.is_none());
}

#[test]
fn basic_get_passes_query_through() {
    let (backend, calls) = RecordingBackend::new();
    let client = client_without_token(backend);

    let mut query = Query::new();
    query.insert(String::from("limit"), String::from("10"));
    client.get("tracks", None, &query).unwrap();

    let calls = calls.borrow();
    assert_eq!(calls.len(), 1);
    assert_eq!(calls[0].method, "GET");
    assert_eq!(calls[0].url, "https://api.example.com/v1/tracks");
    assert_eq!(calls[0].body, "limit=10");
}

#[test]
fn post_form_passes_fields_through() {
    let (backend, calls) = RecordingBackend::new();
    let client = client_without_token(backend);

    let mut form = Form::new();
    form.insert(String::from("grant_type"), String::from("client_credentials"));
    client.post_form("token", None, &form).unwrap();

    let calls = calls.borrow();
    assert_eq!(calls.len(), 1);
    assert_eq!(calls[0].method, "POST_FORM");
    assert_eq!(calls[0].url, "https://api.example.com/v1/token");
    assert_eq!(calls[0].body, "grant_type=client_credentials");
}

#[test]
fn caller_headers_are_handed_over_unchanged() {
    let (backend, calls) = RecordingBackend::new();
    let client = client_without_token(backend);

    let mut extra = Headers::new();
    extra.insert(String::from("x-extra"), String::from("yes"));
    client.get("me", Some(&extra), &Query::new()).unwrap();

    let calls = calls.borrow();
    assert_eq!(calls.len(), 1);
    let headers = calls[0].headers.as_ref().unwrap();
    assert_eq!(headers, &vec![(String::from("x-extra"), String::from("yes"))]);
}

#[test]
fn backend_errors_propagate_unchanged() {
    let (backend, calls) =
        RecordingBackend::failing(ClientError::StatusCode(404, String::from("not found")));
    let client = client_with_token(backend, "tok");

    let result = client.endpoint_get("missing", &Query::new());
    assert_eq!(
        result,
        Err(ClientError::StatusCode(404, String::from("not found")))
    );
    assert_eq!(calls.borrow().len(), 1);
}

#[test]
fn transport_and_body_errors_propagate() {
    let (backend, _calls) =
        RecordingBackend::failing(ClientError::Transport(String::from("connection refused")));
    let client = client_without_token(backend);
    assert_eq!(
        client.get("me", None, &Query::new()),
        Err(ClientError::Transport(String::from("connection refused")))
    );

    let (backend, _calls) =
        RecordingBackend::failing(ClientError::Body(String::from("invalid utf-8")));
    let client = client_without_token(backend);
    assert_eq!(
        client.post("me", None, &empty_object()),
        Err(ClientError::Body(String::from("invalid utf-8")))
    );
}
