//! An incremental scanner for the head of an HTTP/1.x request.
//!
//! The bytes are scanned by the `httparse` crate; this library fixes what is
//! handed to it, says what holds of whatever it hands back, and turns that
//! into a [`ParseOutcome`] whose slices borrow from the caller's buffer.

pub mod error;
pub mod intern;
pub mod lines;
pub mod request;
pub mod scanner;

pub use error::ParseError;
pub use intern::{common_header_name, common_method};
pub use request::{Header, ParseOutcome, ParsedRequest};
pub use scanner::{parse, RequestParser, DEFAULT_MAX_HEADERS, MAX_HEADER_LIMIT};
