//! The response writer: each of the two supported statuses is rendered as a
//! fixed HTTP/1.1 response whose `Content-Length` header carries the exact
//! byte length of the body.

use vstd::prelude::*;
use vstd::string::StringSliceAdditionalSpecFns;
use vstd::utf8::{encode_utf8, is_ascii_chars, is_ascii_chars_encode_utf8};
use crate::text::{dec_chars, u64_to_dec};

verus! {

/// The two statuses this server can answer with.
#[derive(Clone, Copy, PartialEq, Eq, Structural, Debug)]
pub enum Status {
    /// `200 OK`, carrying the greeting page.
    Okay,
    /// `400 Bad Request`, carrying the error page; every parse failure maps
    /// here, whatever its reason.
    BadRequest,
}

/// The status line of the response, `"\r\n"` included.
pub open spec fn status_line_chars(s: Status) -> Seq<char> {
    match s {
        Status::Okay => "HTTP/1.1 200 OK\r\n"@,
        Status::BadRequest => "HTTP/1.1 400 Bad Request\r\n"@,
    }
}

/// The fixed headers up to and including `"Content-Length: "`.
pub open spec fn headers_prefix_chars() -> Seq<char> {
    "Content-Type: text/html; charset=utf-8\r\nConnection: close\r\nContent-Length: "@
}

/// The blank line that separates the headers from the body.
pub open spec fn header_end_chars() -> Seq<char> {
    "\r\n\r\n"@
}

/// The HTML body sent with each status.
pub open spec fn body_chars(s: Status) -> Seq<char> {
    match s {
        Status::Okay => "<!DOCTYPE html>\n<html>\n<head>\n    <title>Hello World</title>\n</head>\n<body>\n    <h1>Hello, World!</h1>\n</body>\n</html>"@,
        Status::BadRequest => "<!DOCTYPE html>\n<html>\n<head>\n    <title>Bad Request</title>\n</head>\n<body>\n    <h1>400 Bad Request</h1>\n</body>\n</html>"@,
    }
}

/// The length of the body in bytes (of its UTF-8 encoding), the value the
/// `Content-Length` header must carry.
pub open spec fn body_byte_len(s: Status) -> nat {
    encode_utf8(body_chars(s)).len()
}

/// The whole response for `s`: status line, fixed headers, the decimal byte
/// length of the body, a blank line, and the body.
pub open spec fn render_chars(s: Status) -> Seq<char> {
    status_line_chars(s) + headers_prefix_chars() + dec_chars(body_byte_len(s))
        + header_end_chars() + body_chars(s)
}

/// The `Content-Length` field of every rendered response is the decimal
/// representation of the exact byte length of the body that follows the
/// blank line, for both statuses; and since both bodies are ASCII, that byte
/// length coincides with their length in characters.
pub proof fn lemma_content_length_is_body_byte_len(s: Status)
    ensures
        render_chars(s) == status_line_chars(s) + headers_prefix_chars() + dec_chars(
            body_byte_len(s),
        ) + header_end_chars() + body_chars(s),
        body_byte_len(s) == encode_utf8(body_chars(s)).len(),
        body_byte_len(s) == body_chars(s).len(),
{
    reveal_strlit(
        "<!DOCTYPE html>\n<html>\n<head>\n    <title>Hello World</title>\n</head>\n<body>\n    <h1>Hello, World!</h1>\n</body>\n</html>",
    );
    reveal_strlit(
        "<!DOCTYPE html>\n<html>\n<head>\n    <title>Bad Request</title>\n</head>\n<body>\n    <h1>400 Bad Request</h1>\n</body>\n</html>",
    );
    assert(is_ascii_chars(body_chars(s)));
    is_ascii_chars_encode_utf8(body_chars(s));
}

/// Renders the full response for `s`. The result is a function of the status
/// alone, so repeated calls with the same status yield byte-identical output.
pub fn render(status: Status) -> (r: String)
    ensures
        r@ == render_chars(status),
{
    let body: &'static str = match status {
        Status::Okay => "<!DOCTYPE html>\n<html>\n<head>\n    <title>Hello World</title>\n</head>\n<body>\n    <h1>Hello, World!</h1>\n</body>\n</html>",
        Status::BadRequest => "<!DOCTYPE html>\n<html>\n<head>\n    <title>Bad Request</title>\n</head>\n<body>\n    <h1>400 Bad Request</h1>\n</body>\n</html>",
    };
    proof {
        assert(body@ == body_chars(status));
        assert(body.spec_bytes() == encode_utf8(body_chars(status)));
    }
    let body_bytes = body.as_bytes();
    let body_len = body_bytes.len();
    proof {
        assert(body_bytes@ == encode_utf8(body_chars(status)));
    }

    let status_line: &'static str = match status {
        Status::Okay => "HTTP/1.1 200 OK\r\n",
        Status::BadRequest => "HTTP/1.1 400 Bad Request\r\n",
    };
    let mut r = String::from_str(status_line);
    r.append("Content-Type: text/html; charset=utf-8\r\nConnection: close\r\nContent-Length: ");
    let digits = u64_to_dec(body_len as u64);
    r.append(digits.as_str());
    r.append("\r\n\r\n");
    r.append(body);
    proof {
        assert(body_len as nat == body_byte_len(status));
        assert(status_line@ == status_line_chars(status));
        assert(digits@ == dec_chars(body_byte_len(status)));
        assert(r@ =~= render_chars(status));
    }
    r
}

} // verus!
