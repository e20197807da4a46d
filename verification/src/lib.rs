//! Core logic of a minimal HTTP/1.1 server: request-line parsing, fixed
//! response rendering, and the decision logic of the accept and write loops.
//!
//! The operating-system socket work (bind/listen/accept/read/write over raw
//! file descriptors) lives in the surrounding application; this crate holds
//! everything that can be stated and proved as a function of plain values.

pub mod endpoint;
pub mod parser;
pub mod response;
pub mod server;
pub mod text;
