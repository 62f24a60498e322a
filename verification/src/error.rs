//! The closed set of reasons for which a buffer is rejected.

use vstd::prelude::*;

verus! {

/// `httparse::Error`, declared with its variants so that verified code can
/// match on it.
#[verifier::external_type_specification]
pub struct ExHttparseError(httparse::Error);

/// Why a buffer cannot be the head of a request.
///
/// `Status` belongs to response parsing and `InvalidChunkSize` to chunked
/// bodies. Both are kept so that the set of kinds is the same for every
/// consumer. No scan of a request ends in `InvalidChunkSize`, and one ends
/// in `Status` only if `httparse` reports it for a request.
#[derive(Clone, Copy, Debug, PartialEq, Eq, Structural)]
pub enum ParseError {
    /// A byte in a header name is not a token byte, or the name is empty.
    HeaderName,
    /// A byte in a header value is a control byte other than tab.
    HeaderValue,
    /// A line does not end in a carriage return and a line feed.
    NewLine,
    /// A byte of the method or the target is not allowed there.
    Token,
    /// The request holds more headers than the limit allows.
    TooManyHeaders,
    /// The version is not `HTTP/1.0` or `HTTP/1.1`.
    Version,
    /// A malformed response status. Reserved.
    Status,
    /// A malformed chunk size. Reserved.
    InvalidChunkSize,
}

/// The kind that stands for each error of the scanning crate.
pub open spec fn kind_of(e: httparse::Error) -> ParseError {
    match e {
        httparse::Error::HeaderName => ParseError::HeaderName,
        httparse::Error::HeaderValue => ParseError::HeaderValue,
        httparse::Error::NewLine => ParseError::NewLine,
        httparse::Error::Status => ParseError::Status,
        httparse::Error::Token => ParseError::Token,
        httparse::Error::TooManyHeaders => ParseError::TooManyHeaders,
        httparse::Error::Version => ParseError::Version,
    }
}

impl ParseError {
    /// The kind that stands for `e`.
    pub fn from_httparse(e: httparse::Error) -> (kind: ParseError)
        ensures
            kind == kind_of(e),
    {
        match e {
            httparse::Error::HeaderName => ParseError::HeaderName,
            httparse::Error::HeaderValue => ParseError::HeaderValue,
            httparse::Error::NewLine => ParseError::NewLine,
            httparse::Error::Status => ParseError::Status,
            httparse::Error::Token => ParseError::Token,
            httparse::Error::TooManyHeaders => ParseError::TooManyHeaders,
            httparse::Error::Version => ParseError::Version,
        }
    }

    /// Whether the kind belongs to the general family of parsing errors.
    /// Every kind does but `InvalidChunkSize`, which stands apart.
    pub open spec fn spec_is_parsing_error(self) -> bool {
        !(self is InvalidChunkSize)
    }

    /// Whether the kind belongs to the general family of parsing errors, so
    /// that a caller can handle all of them alike.
    #[verifier::when_used_as_spec(spec_is_parsing_error)]
    pub fn is_parsing_error(self) -> (yes: bool)
        ensures
            yes == self.spec_is_parsing_error(),
    {
        match self {
            ParseError::InvalidChunkSize => false,
            _ => true,
        }
    }

    /// The name under which a consumer reports the kind.
    pub fn name(self) -> (s: &'static str)
        ensures
            s@ == self.spec_name(),
    {
        match self {
            ParseError::HeaderName => "InvalidHeaderName",
            ParseError::HeaderValue => "InvalidHeaderValue",
            ParseError::NewLine => "InvalidByteInNewLine",
            ParseError::Token => "InvalidToken",
            ParseError::TooManyHeaders => "TooManyHeaders",
            ParseError::Version => "InvalidHTTPVersion",
            ParseError::Status => "InvalidStatus",
            ParseError::InvalidChunkSize => "InvalidChunkSize",
        }
    }

    /// The characters of the name under which a consumer reports the kind.
    pub open spec fn spec_name(self) -> Seq<char> {
        match self {
            ParseError::HeaderName => "InvalidHeaderName"@,
            ParseError::HeaderValue => "InvalidHeaderValue"@,
            ParseError::NewLine => "InvalidByteInNewLine"@,
            ParseError::Token => "InvalidToken"@,
            ParseError::TooManyHeaders => "TooManyHeaders"@,
            ParseError::Version => "InvalidHTTPVersion"@,
            ParseError::Status => "InvalidStatus"@,
            ParseError::InvalidChunkSize => "InvalidChunkSize"@,
        }
    }
}

/// No error of the scanning crate is mapped to `InvalidChunkSize`, and the
/// mapping keeps distinct errors distinct.
pub proof fn kinds_are_kept_apart(a: httparse::Error, b: httparse::Error)
    ensures
        !(kind_of(a) is InvalidChunkSize),
        kind_of(a).spec_is_parsing_error(),
        kind_of(a) == kind_of(b) ==> a == b,
{
}

} // verus!
