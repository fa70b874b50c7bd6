//! Reduction of one poll cycle: endpoint outcomes to a single result.

use aleph_tui::fetch::{
    bearer_header, combine_fetch, do_fetch, eval_metadata, eval_status, fetch_error_message,
    metadata_url, status_url, u16_to_string, user_agent, FetchError, HttpOutcome,
};
use aleph_tui::json::JsonError;
use aleph_tui::models::{DeserializationError, Metadata, Status};

fn ok_status_body() -> String {
    r#"{"results": [], "total": 0}"#.to_string()
}

fn ok_metadata_body() -> String {
    r#"{"status": "ok", "maintenance": false, "app": {"title": "Aleph"}}"#.to_string()
}

#[test]
fn test_do_fetch_success() {
    let r = do_fetch(
        HttpOutcome::Response { code: 200, body: ok_status_body() },
        HttpOutcome::Response { code: 200, body: ok_metadata_body() },
    );
    assert!(r.error.is_none());
    assert_eq!(r.status.total, 0);
    assert!(r.status.results.is_empty());
    assert_eq!(r.metadata.status, "ok");
    assert_eq!(r.metadata.app.title.as_deref(), Some("Aleph"));
}

#[test]
fn test_do_fetch_unauthorized() {
    let r = do_fetch(
        HttpOutcome::Response { code: 401, body: "Unauthorized".to_string() },
        HttpOutcome::Response { code: 200, body: ok_metadata_body() },
    );
    let msg = r.error.expect("a 401 answer must fail the fetch");
    assert!(msg.contains("401"));
    assert_eq!(r.status.total, 0);
}

#[test]
fn test_do_fetch_transport_error() {
    let r = do_fetch(
        HttpOutcome::TransportError("connection refused".to_string()),
        HttpOutcome::Response { code: 200, body: ok_metadata_body() },
    );
    let msg = r.error.unwrap();
    assert!(msg.contains("network error"));
    assert!(msg.contains("connection refused"));
}

#[test]
fn test_do_fetch_half_success_discards_payloads() {
    // The status payload is fine, the metadata one is not: the whole
    // cycle counts as failed and carries empty payloads.
    let r = do_fetch(
        HttpOutcome::Response { code: 200, body: ok_status_body() },
        HttpOutcome::Response { code: 503, body: "down".to_string() },
    );
    let msg = r.error.unwrap();
    assert!(msg.contains("503"));
    assert!(r.status.results.is_empty());
    assert!(r.metadata.status.is_empty());
}

#[test]
fn test_do_fetch_bad_json() {
    let r = do_fetch(
        HttpOutcome::Response { code: 200, body: "<html>".to_string() },
        HttpOutcome::Response { code: 200, body: ok_metadata_body() },
    );
    assert!(r.error.unwrap().contains("invalid JSON"));
}

#[test]
fn test_do_fetch_wrong_shape() {
    let r = do_fetch(
        HttpOutcome::Response { code: 200, body: r#"{"results": [], "total": true}"#.to_string() },
        HttpOutcome::Response { code: 200, body: ok_metadata_body() },
    );
    let msg = r.error.unwrap();
    assert!(msg.contains("unexpected payload"));
    assert!(msg.contains("total"));
}

#[test]
fn test_eval_status_codes() {
    assert!(matches!(
        eval_status(HttpOutcome::Response { code: 299, body: ok_status_body() }),
        Ok(_)
    ));
    assert!(matches!(
        eval_status(HttpOutcome::Response { code: 300, body: ok_status_body() }),
        Err(FetchError::HttpStatus(300))
    ));
    assert!(matches!(
        eval_status(HttpOutcome::Response { code: 199, body: ok_status_body() }),
        Err(FetchError::HttpStatus(199))
    ));
    assert!(matches!(
        eval_metadata(HttpOutcome::TransportError("timed out".to_string())),
        Err(FetchError::Transport(_))
    ));
}

#[test]
fn test_combine_prefers_status_error() {
    let st: Result<Status, FetchError> = Err(FetchError::HttpStatus(500));
    let md: Result<Metadata, FetchError> = Err(FetchError::HttpStatus(503));
    let r = combine_fetch(st, md);
    assert_eq!(r.error.unwrap(), "unexpected HTTP status 500");
}

#[test]
fn test_request_strings() {
    assert_eq!(status_url("https://aleph.example.org"), "https://aleph.example.org/api/2/status");
    assert_eq!(
        metadata_url("https://aleph.example.org"),
        "https://aleph.example.org/api/2/metadata"
    );
    assert_eq!(bearer_header("abc123"), "Bearer abc123");
    assert_eq!(user_agent("1.2.3"), "aleph-tui/1.2.3");
}

#[test]
fn test_u16_rendering() {
    assert_eq!(u16_to_string(0), "0");
    assert_eq!(u16_to_string(7), "7");
    assert_eq!(u16_to_string(401), "401");
    assert_eq!(u16_to_string(65535), "65535");
    assert_eq!(u16_to_string(10000), "10000");
}

#[test]
fn test_error_messages() {
    assert_eq!(
        fetch_error_message(&FetchError::Transport("no route".to_string())),
        "network error: no route"
    );
    assert_eq!(
        fetch_error_message(&FetchError::HttpStatus(404)),
        "unexpected HTTP status 404"
    );
    assert_eq!(
        fetch_error_message(&FetchError::Payload(DeserializationError::Syntax(
            "eof".to_string()
        ))),
        "invalid JSON: eof"
    );
    assert_eq!(
        fetch_error_message(&FetchError::Payload(DeserializationError::Structure(
            JsonError::MissingField("todo".to_string())
        ))),
        "unexpected payload: missing member todo"
    );
    assert_eq!(
        fetch_error_message(&FetchError::Payload(DeserializationError::Structure(
            JsonError::NotAnObject
        ))),
        "unexpected payload: payload is not an object"
    );
    assert_eq!(
        fetch_error_message(&FetchError::Payload(DeserializationError::Structure(
            JsonError::WrongType("total".to_string())
        ))),
        "unexpected payload: wrong type for member total"
    );
    assert_eq!(
        fetch_error_message(&FetchError::Payload(DeserializationError::Structure(
            JsonError::BadDuration("took".to_string())
        ))),
        "unexpected payload: invalid duration in member took"
    );
}
