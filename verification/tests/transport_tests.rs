use tailsnip::error::AppError;
use tailsnip::transport::{
    client_build_failure, decode_failure, fallback_status_message, is_success_status,
    map_error_response, map_request_error, normalize_scheme, write_response_outcome,
    RequestFailure, TransportClient,
};
use tailsnip::types::ApiStatusResponse;

#[test]
fn fallback_messsage_for_unauthorized_status_is_clear() {
    let status = 401;
    let message = fallback_status_message(status);
    assert_eq!(message, "authentication failed");
}

#[test]
fn fallback_message_for_service_unavailable_status_is_clear() {
    let status = 503;
    let message = fallback_status_message(status);
    assert_eq!(message, "remote clipboard is unavailable");
}

#[test]
fn fallback_messages_for_other_statuses() {
    assert_eq!(
        fallback_status_message(500),
        "remote daemon encountered an internal error"
    );
    assert_eq!(fallback_status_message(404), "unexpected http status 404");
    assert_eq!(fallback_status_message(0), "unexpected http status 0");
}

#[test]
fn client_builds_for_valid_address() {
    let client = TransportClient::new("127.0.0.1:3947", "testtoken".to_string(), None);
    assert!(client.is_ok());
}

#[test]
fn client_supports_https_scheme() {
    let client =
        TransportClient::new_with_scheme("127.0.0.1:3947", "testtoken".to_string(), "https")
            .unwrap();
    assert_eq!(client.base_url(), "https://127.0.0.1:3947");
}

#[test]
fn client_rejects_invalid_scheme() {
    let err = TransportClient::new_with_scheme("127.0.0.1:3947", "testtoken".to_string(), "ftp")
        .err()
        .unwrap();
    assert!(matches!(err, AppError::Transport(msg) if msg.contains("invalid transport scheme")));
}

#[test]
fn scheme_is_case_insensitive_and_normalized() {
    assert_eq!(normalize_scheme("HTTP").unwrap(), "http");
    assert_eq!(normalize_scheme("HttpS").unwrap(), "https");
    assert_eq!(
        normalize_scheme(normalize_scheme("hTtPs").unwrap().as_str()).unwrap(),
        "https"
    );
    assert_eq!(
        normalize_scheme("ftp").err().unwrap().message(),
        "transport error: invalid transport scheme 'ftp'; expected 'http' or 'https'"
    );
    let client = TransportClient::new(
        "127.0.0.1:1",
        "t".to_string(),
        Some("HTTPS".to_string()),
    )
    .unwrap();
    assert_eq!(client.base_url(), "https://127.0.0.1:1");
}

#[test]
fn urls_and_header() {
    let client = TransportClient::new("100.64.0.10:3947", "tok".to_string(), None).unwrap();
    assert_eq!(client.base_url(), "http://100.64.0.10:3947");
    assert_eq!(client.read_url(), "http://100.64.0.10:3947/clipboard/read");
    assert_eq!(client.write_url(), "http://100.64.0.10:3947/clipboard/write");
    assert_eq!(client.authorization_value(), "Bearer tok");
}

#[test]
fn request_errors_are_classified() {
    let timeout = map_request_error(RequestFailure {
        timed_out: true,
        connect_failed: true,
        detail: "x".into(),
    });
    assert!(matches!(timeout, AppError::TransportTimeout(m) if m == "request exceeded timeout"));
    let unreachable = map_request_error(RequestFailure {
        timed_out: false,
        connect_failed: true,
        detail: "refused".into(),
    });
    assert!(
        matches!(unreachable, AppError::TransportUnreachable(m) if m.contains("connection failed"))
    );
    let other = map_request_error(RequestFailure {
        timed_out: false,
        connect_failed: false,
        detail: "weird".into(),
    });
    assert!(matches!(other, AppError::Transport(m) if m == "request failed: weird"));
}

#[test]
fn error_responses_are_classified() {
    assert!(matches!(
        map_error_response(401, Some("invalid authentication token".into())),
        AppError::TransportAuth(m) if m.contains("invalid authentication token")
    ));
    assert!(matches!(
        map_error_response(503, Some("clipboard backend unavailable".into())),
        AppError::RemoteFailure(m) if m == "clipboard backend unavailable"
    ));
    assert!(matches!(
        map_error_response(500, None),
        AppError::RemoteFailure(m) if m == "remote daemon encountered an internal error"
    ));
    assert!(matches!(
        map_error_response(401, None),
        AppError::TransportAuth(m) if m == "authentication failed"
    ));
    assert!(matches!(
        map_error_response(418, None),
        AppError::Transport(m) if m == "remote request failed with status 418: unexpected http status 418"
    ));
}

#[test]
fn success_statuses() {
    assert!(is_success_status(200));
    assert!(is_success_status(204));
    assert!(!is_success_status(199));
    assert!(!is_success_status(300));
}

#[test]
fn write_bodies_decide_the_outcome() {
    assert!(write_response_outcome(ApiStatusResponse {
        ok: true,
        message: "clipboard updated".into()
    })
    .is_ok());
    assert!(matches!(
        write_response_outcome(ApiStatusResponse { ok: false, message: "nope".into() }),
        Err(AppError::RemoteFailure(m)) if m == "nope"
    ));
    assert_eq!(
        decode_failure(true, "eof").message(),
        "transport error: failed to decode clipboard read response: eof"
    );
    assert_eq!(
        decode_failure(false, "eof").message(),
        "transport error: failed to decode clipboard write response: eof"
    );
    assert_eq!(
        client_build_failure("tls").message(),
        "transport error: failed to build http client: tls"
    );
}
