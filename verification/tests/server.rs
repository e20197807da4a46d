use microhttp::parser::ParseError;
use microhttp::server::{
    dispatch_step, handle_request, log_line, write_all_step, AcceptOutcome, DispatchAction,
    ServerError, ServerState, LISTEN_BACKLOG, READ_BUFFER_LEN,
};

#[test]
fn valid_get_yields_complete_ok_response() {
    let (response, parsed) = handle_request(b"GET / HTTP/1.1\r\n\r\n");
    assert!(response.starts_with("HTTP/1.1 200 OK"));
    assert!(response.contains("Hello, World!"));
    assert!(response.contains("\r\n\r\n"));
    assert_eq!(parsed, Ok(("GET".to_string(), "/".to_string())));
}

#[test]
fn no_bytes_yield_bad_request() {
    let (response, parsed) = handle_request(b"");
    assert!(response.starts_with("HTTP/1.1 400 Bad Request"));
    assert_eq!(parsed, Err(ParseError::EmptyRequest));
}

#[test]
fn single_malformed_token_yields_bad_request() {
    let (response, parsed) = handle_request(b"garbage");
    assert!(response.starts_with("HTTP/1.1 400 Bad Request"));
    assert_eq!(parsed, Err(ParseError::MalformedRequestLine));
}

#[test]
fn invalid_utf8_is_decoded_lossily_not_rejected() {
    // The invalid byte becomes U+FFFD inside the path token; the line still
    // holds three tokens, so the request parses.
    let (response, parsed) = handle_request(b"GET /a\xffb HTTP/1.1\r\n\r\n");
    assert!(response.starts_with("HTTP/1.1 200 OK"));
    let (method, path) = parsed.unwrap();
    assert_eq!(method, "GET");
    assert_eq!(path, "/a\u{fffd}b");
}

#[test]
fn request_log_line_is_exact() {
    assert_eq!(log_line("GET", "/index.html"), "Request: GET /index.html");
}

#[test]
fn accept_success_spawns_and_keeps_listening() {
    assert_eq!(
        dispatch_step(ServerState::Listening, AcceptOutcome::Connected),
        (ServerState::Listening, DispatchAction::SpawnHandler)
    );
}

#[test]
fn accept_failure_logs_and_keeps_listening() {
    assert_eq!(
        dispatch_step(ServerState::Listening, AcceptOutcome::Failed),
        (ServerState::Listening, DispatchAction::LogAcceptError)
    );
}

#[test]
fn stopped_server_stays_stopped() {
    assert_eq!(
        dispatch_step(ServerState::Stopped, AcceptOutcome::Connected),
        (ServerState::Stopped, DispatchAction::Idle)
    );
    assert_eq!(
        dispatch_step(ServerState::Stopped, AcceptOutcome::Failed),
        (ServerState::Stopped, DispatchAction::Idle)
    );
}

#[test]
fn write_all_step_accumulates_until_done() {
    assert_eq!(write_all_step(0, 10, 25), (10, false));
    assert_eq!(write_all_step(10, 15, 25), (25, true));
    assert_eq!(write_all_step(0, 0, 0), (0, true));
}

#[test]
fn error_descriptions_are_fixed() {
    assert_eq!(ServerError::BindError.describe(), "Failed to bind");
    assert_eq!(ServerError::AcceptError.describe(), "Error accepting connection");
    assert_eq!(ServerError::ReadError.describe(), "Error reading from stream");
    assert_eq!(ServerError::WriteError.describe(), "Error writing response");
    assert_eq!(ServerError::UnsupportedAddressFamily.describe(), "Unsupported address family");
}

#[test]
fn configured_limits_match_the_design() {
    assert_eq!(LISTEN_BACKLOG, 128);
    assert_eq!(READ_BUFFER_LEN, 1024);
}
