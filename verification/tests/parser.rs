use microhttp::parser::{parse_request, ParseError};

#[test]
fn valid_request_line_returns_method_and_path() {
    let r = parse_request("GET /index.html HTTP/1.1\r\nHost: localhost\r\n\r\n").unwrap();
    assert_eq!(r.0, "GET");
    assert_eq!(r.1, "/index.html");
}

#[test]
fn method_and_path_are_returned_verbatim() {
    let r = parse_request("get /A%20B/%7e?q=1 HTTP/1.1").unwrap();
    assert_eq!(r.0, "get");
    assert_eq!(r.1, "/A%20B/%7e?q=1");
}

#[test]
fn post_request_line_parses() {
    let r = parse_request("POST /submit HTTP/1.1\r\nContent-Length: 0\r\n\r\n").unwrap();
    assert_eq!(r.0, "POST");
    assert_eq!(r.1, "/submit");
}

#[test]
fn empty_input_is_empty_request() {
    assert_eq!(parse_request(""), Err(ParseError::EmptyRequest));
}

#[test]
fn one_token_is_malformed() {
    assert_eq!(parse_request("GET"), Err(ParseError::MalformedRequestLine));
}

#[test]
fn two_tokens_are_malformed() {
    assert_eq!(parse_request("GET /"), Err(ParseError::MalformedRequestLine));
}

#[test]
fn blank_first_line_is_malformed() {
    assert_eq!(parse_request("\r\nGET / HTTP/1.1"), Err(ParseError::MalformedRequestLine));
}

#[test]
fn whitespace_only_first_line_is_malformed() {
    assert_eq!(parse_request("   \t  \r\n"), Err(ParseError::MalformedRequestLine));
}

#[test]
fn runs_of_whitespace_separate_tokens() {
    let r = parse_request("GET \t  /spaced   HTTP/1.1").unwrap();
    assert_eq!(r.0, "GET");
    assert_eq!(r.1, "/spaced");
}

#[test]
fn only_the_first_line_is_parsed() {
    let r = parse_request("HEAD /top HTTP/1.1\nGET /other HTTP/1.1\n").unwrap();
    assert_eq!(r.0, "HEAD");
    assert_eq!(r.1, "/top");
}

#[test]
fn trailing_carriage_return_is_stripped() {
    // Without stripping, the third token would be "HTTP/1.1\r".
    let r = parse_request("GET / HTTP/1.1\r\n").unwrap();
    assert_eq!(r.0, "GET");
    assert_eq!(r.1, "/");
}

#[test]
fn extra_tokens_are_ignored() {
    let r = parse_request("GET / HTTP/1.1 junk trailing").unwrap();
    assert_eq!(r.0, "GET");
    assert_eq!(r.1, "/");
}
