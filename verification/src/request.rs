//! What a scan hands back: the request's parts as slices of the caller's
//! buffer, and the three outcomes of a scan.

use vstd::prelude::*;
use vstd::slice::slice_subrange;
use vstd::string::{StringExecFns, StringSliceAdditionalSpecFns};
use vstd::utf8::{decode_utf8, encode_utf8_decode_utf8, valid_utf8};
use crate::error::ParseError;

verus! {

/// Whether `part` lies in `buf` as a run of neighbouring bytes.
pub open spec fn lies_in(part: Seq<u8>, buf: Seq<u8>) -> bool {
    exists|at: int|
        0 <= at && at + part.len() <= buf.len() && #[trigger] buf.subrange(
            at,
            at + part.len(),
        ) == part
}

/// What lies in the first `n` bytes of a buffer lies in the buffer.
pub proof fn lies_in_prefix(part: Seq<u8>, buf: Seq<u8>, n: int)
    requires
        0 <= n <= buf.len(),
        lies_in(part, buf.subrange(0, n)),
    ensures
        lies_in(part, buf),
{
    let prefix = buf.subrange(0, n);
    let at = choose|at: int|
        0 <= at && at + part.len() <= prefix.len() && #[trigger] prefix.subrange(
            at,
            at + part.len(),
        ) == part;
    assert(buf.subrange(at, at + part.len()) =~= prefix.subrange(at, at + part.len()));
}

/// One header field. Both parts borrow from the scanned buffer.
#[derive(Clone, Copy, Debug, PartialEq, Eq)]
pub struct Header<'a> {
    /// The field's name, as it stands on the wire.
    pub name: &'a [u8],
    /// The field's value, without the white space around it.
    pub value: &'a [u8],
}

/// The bytes of a header field.
pub struct HeaderBytes {
    pub name: Seq<u8>,
    pub value: Seq<u8>,
}

impl<'a> View for Header<'a> {
    type V = HeaderBytes;

    open spec fn view(&self) -> HeaderBytes {
        HeaderBytes { name: self.name@, value: self.value@ }
    }
}

/// The text that shows a header with the given name and value.
pub open spec fn header_text(name: Seq<char>, value: Seq<char>) -> Seq<char> {
    "Header(name=\""@ + name + "\", value=b\""@ + value + "\")"@
}

/// `std::str::from_utf8`: the bytes as a string, where they are UTF-8.
///
/// Nothing of this is proved. The contract claims that the call succeeds on
/// exactly the byte strings that are valid UTF-8, and that the string it
/// gives has the very bytes it was given.
#[verifier::external_body]
fn utf8_text<'a>(bytes: &'a [u8]) -> (text: Option<&'a str>)
    ensures
        text is Some <==> valid_utf8(bytes@),
        text matches Some(s) ==> s.spec_bytes() == bytes@,
{
    match std::str::from_utf8(bytes) {
        Ok(s) => Some(s),
        Err(_) => None,
    }
}

impl<'a> Header<'a> {
    /// The header as a line of text for a reader, where name and value are
    /// both UTF-8; nothing where one of them is not.
    pub fn repr(&self) -> (text: Option<String>)
        ensures
            text is Some <==> valid_utf8(self.name@) && valid_utf8(self.value@),
            text matches Some(s) ==> s@ == header_text(
                decode_utf8(self.name@),
                decode_utf8(self.value@),
            ),
    {
        let name = match utf8_text(self.name) {
            Some(name) => name,
            None => { return None; },
        };
        let value = match utf8_text(self.value) {
            Some(value) => value,
            None => { return None; },
        };
        proof {
            encode_utf8_decode_utf8(name@);
            encode_utf8_decode_utf8(value@);
        }
        let mut text = String::from_str("Header(name=\"");
        text.append(name);
        text.append("\", value=b\"");
        text.append(value);
        text.append("\")");
        Some(text)
    }
}

/// The head of a request. Every slice borrows from the scanned buffer.
#[derive(Clone, Debug, PartialEq, Eq)]
pub struct ParsedRequest<'a> {
    /// The method, such as `GET`.
    pub method: &'a [u8],
    /// The request target, neither decoded nor checked as a URI.
    pub target: &'a [u8],
    /// The minor version: 0 for HTTP/1.0, 1 for HTTP/1.1.
    pub version: u8,
    /// The header fields in wire order, repeated names included.
    pub headers: Vec<Header<'a>>,
    /// The index in the buffer at which the body begins.
    pub body_start_offset: usize,
}

/// The bytes and numbers of a request's head.
pub struct RequestBytes {
    pub method: Seq<u8>,
    pub target: Seq<u8>,
    pub version: u8,
    pub headers: Seq<HeaderBytes>,
    pub body_start_offset: nat,
}

impl RequestBytes {
    /// What holds of every head that was scanned from `buf` with room for
    /// `max_headers` fields: the version is 0 or 1, no more fields than the
    /// limit, the body begins inside the buffer or at its end, and every
    /// part is a run of bytes of the buffer.
    pub open spec fn fits(self, buf: Seq<u8>, max_headers: nat) -> bool {
        &&& self.version <= 1
        &&& self.headers.len() <= max_headers
        &&& self.body_start_offset <= buf.len()
        &&& lies_in(self.method, buf)
        &&& lies_in(self.target, buf)
        &&& forall|i: int|
            0 <= i < self.headers.len() ==> lies_in(
                (#[trigger] self.headers[i]).name,
                buf,
            ) && lies_in(self.headers[i].value, buf)
    }
}

/// A head that fits the first `n` bytes of a buffer fits the buffer.
pub proof fn fits_prefix(head: RequestBytes, buf: Seq<u8>, n: int, max_headers: nat)
    requires
        0 <= n <= buf.len(),
        head.fits(buf.subrange(0, n), max_headers),
    ensures
        head.fits(buf, max_headers),
{
    lies_in_prefix(head.method, buf, n);
    lies_in_prefix(head.target, buf, n);
    assert forall|i: int| 0 <= i < head.headers.len() implies lies_in(
        (#[trigger] head.headers[i]).name,
        buf,
    ) && lies_in(head.headers[i].value, buf) by {
        lies_in_prefix(head.headers[i].name, buf, n);
        lies_in_prefix(head.headers[i].value, buf, n);
    }
}

impl<'a> View for ParsedRequest<'a> {
    type V = RequestBytes;

    open spec fn view(&self) -> RequestBytes {
        RequestBytes {
            method: self.method@,
            target: self.target@,
            version: self.version,
            headers: self.headers@.map_values(|h: Header<'a>| h@),
            body_start_offset: self.body_start_offset as nat,
        }
    }
}

impl<'a> ParsedRequest<'a> {
    /// The bytes of the buffer from which the body begins.
    pub open spec fn spec_body(self, buf: Seq<u8>) -> Seq<u8> {
        buf.subrange(self.body_start_offset as int, buf.len() as int)
    }

    /// The part of `buf` that follows the head: the body, as far as it has
    /// arrived. `buf` is the buffer that was scanned; a buffer too short to
    /// be that one has no such part.
    pub fn body<'b>(&self, buf: &'b [u8]) -> (rest: Option<&'b [u8]>)
        ensures
            rest is Some <==> self.body_start_offset <= buf@.len(),
            rest matches Some(bytes) ==> bytes@ == self.spec_body(buf@) && bytes@.len()
                == buf@.len() - self.body_start_offset,
    {
        if self.body_start_offset <= buf.len() {
            Some(slice_subrange(buf, self.body_start_offset, buf.len()))
        } else {
            None
        }
    }

    /// The number of header fields.
    pub fn header_count(&self) -> (n: usize)
        ensures
            n == self@.headers.len(),
    {
        self.headers.len()
    }
}

/// What one scan of a buffer gives.
#[derive(Clone, Debug, PartialEq, Eq)]
pub enum ParseOutcome<'a> {
    /// The buffer holds a whole head.
    Complete(ParsedRequest<'a>),
    /// The buffer ends before the head does, and nothing in it is wrong so
    /// far. This is no error: scan again when more bytes have arrived.
    Incomplete,
    /// The buffer cannot be the beginning of a request.
    Failed(ParseError),
}

/// The bytes and numbers of an outcome.
pub enum OutcomeBytes {
    Complete(RequestBytes),
    Incomplete,
    Failed(ParseError),
}

impl<'a> View for ParseOutcome<'a> {
    type V = OutcomeBytes;

    open spec fn view(&self) -> OutcomeBytes {
        match self {
            ParseOutcome::Complete(request) => OutcomeBytes::Complete(request@),
            ParseOutcome::Incomplete => OutcomeBytes::Incomplete,
            ParseOutcome::Failed(kind) => OutcomeBytes::Failed(*kind),
        }
    }
}

impl<'a> ParseOutcome<'a> {
    /// Whether the buffer held a whole head.
    pub fn is_complete(&self) -> (yes: bool)
        ensures
            yes == (self@ is Complete),
    {
        match self {
            ParseOutcome::Complete(_) => true,
            _ => false,
        }
    }

    /// Whether more bytes are needed.
    pub fn is_incomplete(&self) -> (yes: bool)
        ensures
            yes == (self@ is Incomplete),
    {
        match self {
            ParseOutcome::Incomplete => true,
            _ => false,
        }
    }

    /// The error, where the buffer was rejected.
    pub fn error(&self) -> (kind: Option<ParseError>)
        ensures
            kind == match self@ {
                OutcomeBytes::Failed(k) => Some(k),
                _ => None,
            },
    {
        match self {
            ParseOutcome::Failed(kind) => Some(*kind),
            _ => None,
        }
    }
}

} // verus!
