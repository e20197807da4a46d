//! The per-connection pipeline and the decision logic of the accept and
//! write loops. The surrounding application performs the socket calls and
//! hands the raw bytes in; everything from bytes to response is decided here.

use vstd::prelude::*;
use vstd::utf8::{decode_utf8, valid_utf8};
use crate::parser::{parse_request, request_tokens, ParseError};
use crate::response::{render, render_chars, Status};

verus! {

/// The operation-level failures of the server, each raised at one
/// operating-system boundary; none of them is fatal to the process except a
/// failure to acquire the listening socket.
#[derive(Clone, Copy, PartialEq, Eq, Structural, Debug)]
pub enum ServerError {
    /// Creating, configuring, binding or marking the listening socket failed.
    BindError,
    /// Accepting a connection failed; the listener stays usable.
    AcceptError,
    /// Reading from an accepted connection failed; that connection is abandoned.
    ReadError,
    /// Writing to an accepted connection failed; that connection is abandoned.
    WriteError,
    /// The configured listen address is not IPv4.
    UnsupportedAddressFamily,
}

impl ServerError {
    /// The log text for this failure, one fixed line head per variant.
    pub fn describe(&self) -> (r: String)
        ensures
            self is BindError ==> r@ == "Failed to bind"@,
            self is AcceptError ==> r@ == "Error accepting connection"@,
            self is ReadError ==> r@ == "Error reading from stream"@,
            self is WriteError ==> r@ == "Error writing response"@,
            self is UnsupportedAddressFamily ==> r@ == "Unsupported address family"@,
    {
        match self {
            ServerError::BindError => String::from_str("Failed to bind"),
            ServerError::AcceptError => String::from_str("Error accepting connection"),
            ServerError::ReadError => String::from_str("Error reading from stream"),
            ServerError::WriteError => String::from_str("Error writing response"),
            ServerError::UnsupportedAddressFamily => String::from_str(
                "Unsupported address family",
            ),
        }
    }
}

/// The backlog the listening socket is created with.
pub const LISTEN_BACKLOG: i32 = 128;

/// The size of the read buffer for one request; longer requests are
/// truncated, a known limitation of this server.
pub const READ_BUFFER_LEN: usize = 1024;

/// What `String::from_utf8_lossy` yields on the given bytes; the result
/// depends on the bytes alone.
pub uninterp spec fn lossy_chars(b: Seq<u8>) -> Seq<char>;

/// Relies on `String::from_utf8_lossy`: invalid UTF-8 sequences are replaced
/// with the replacement character, and valid UTF-8 is decoded unchanged.
#[verifier::external_body]
fn lossy_decode(bytes: &[u8]) -> (r: String)
    ensures
        r@ == lossy_chars(bytes@),
        valid_utf8(bytes@) ==> r@ == decode_utf8(bytes@),
{
    String::from_utf8_lossy(bytes).into_owned()
}

/// The status a request decodes to: `Okay` exactly when its first line holds
/// at least three white-space-separated tokens.
pub open spec fn request_status(s: Seq<char>) -> Status {
    if s.len() > 0 && request_tokens(s).len() >= 3 {
        Status::Okay
    } else {
        Status::BadRequest
    }
}

/// Turns the raw bytes of one request into the response to send back and the
/// parse outcome (kept for the request log). The request text is the lossy
/// UTF-8 decoding of the bytes; any parse failure yields the `BadRequest`
/// response, with no distinction between failure reasons on the wire.
pub fn handle_request(input: &[u8]) -> (r: (String, Result<(String, String), ParseError>))
    ensures
        ({
            let s = lossy_chars(input@);
            &&& r.0@ == render_chars(request_status(s))
            &&& (s.len() == 0 ==> r.1 == Err::<(String, String), ParseError>(
                ParseError::EmptyRequest,
            ))
            &&& (s.len() > 0 && request_tokens(s).len() < 3 ==> r.1 == Err::<
                (String, String),
                ParseError,
            >(ParseError::MalformedRequestLine))
            &&& (s.len() > 0 && request_tokens(s).len() >= 3 ==> (r.1 matches Ok(mp)
                && mp.0@ == request_tokens(s)[0] && mp.1@ == request_tokens(s)[1]))
        }),
{
    let text = lossy_decode(input);
    let parsed = parse_request(text.as_str());
    let status = match &parsed {
        Ok(_) => Status::Okay,
        Err(_) => Status::BadRequest,
    };
    let body = render(status);
    (body, parsed)
}

/// The console line logged for one successfully parsed request.
pub fn log_line(method: &str, path: &str) -> (r: String)
    ensures
        r@ == "Request: "@ + method@ + " "@ + path@,
{
    let mut r = String::from_str("Request: ");
    r.append(method);
    r.append(" ");
    r.append(path);
    r
}

/// The state of the connection dispatch loop.
#[derive(Clone, Copy, PartialEq, Eq, Structural, Debug)]
pub enum ServerState {
    /// Holding a listening socket and accepting connections.
    Listening,
    /// Shut down; nothing is accepted any more.
    Stopped,
}

/// What one call of `accept` came back with.
#[derive(Clone, Copy, PartialEq, Eq, Structural, Debug)]
pub enum AcceptOutcome {
    /// A connection was accepted.
    Connected,
    /// The accept call failed.
    Failed,
}

/// What the dispatch loop does next.
#[derive(Clone, Copy, PartialEq, Eq, Structural, Debug)]
pub enum DispatchAction {
    /// Hand the accepted connection to an independent processing unit.
    SpawnHandler,
    /// Log the accept failure and keep listening.
    LogAcceptError,
    /// Do nothing: the loop has ended.
    Idle,
}

/// One transition of the dispatch loop: an accept failure never stops the
/// loop, and a stopped loop never acts again.
pub fn dispatch_step(state: ServerState, outcome: AcceptOutcome) -> (r: (
    ServerState,
    DispatchAction,
))
    ensures
        state == ServerState::Listening && outcome == AcceptOutcome::Connected ==> r == (
            ServerState::Listening,
            DispatchAction::SpawnHandler,
        ),
        state == ServerState::Listening && outcome == AcceptOutcome::Failed ==> r == (
            ServerState::Listening,
            DispatchAction::LogAcceptError,
        ),
        state == ServerState::Stopped ==> r == (ServerState::Stopped, DispatchAction::Idle),
{
    match state {
        ServerState::Listening => match outcome {
            AcceptOutcome::Connected => (ServerState::Listening, DispatchAction::SpawnHandler),
            AcceptOutcome::Failed => (ServerState::Listening, DispatchAction::LogAcceptError),
        },
        ServerState::Stopped => (ServerState::Stopped, DispatchAction::Idle),
    }
}

/// One step of the write-everything loop: `written` bytes of a buffer of
/// `len` bytes were already sent and one write call has just sent `wrote`
/// more. Returns the new count and whether the buffer is now fully sent.
pub fn write_all_step(written: usize, wrote: usize, len: usize) -> (r: (usize, bool))
    requires
        written <= len,
        wrote <= len - written,
    ensures
        r.0 == written + wrote,
        r.1 == (r.0 == len),
{
    let total = written + wrote;
    (total, total == len)
}

} // verus!
