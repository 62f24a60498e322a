//! The scan itself: one call into `httparse`, and what is made of its answer.

use vstd::prelude::*;
use crate::error::{kind_of, ParseError};
use crate::lines::{
    ends_head, find_bare_line_feed, has_bare_line_feed, head_end_in_prefix, head_ends_at,
    is_bare_line_feed, is_blank_line_end, is_first_bare_line_feed, scanned_part,
    scanned_part_ends_at_the_fault, scanned_slice, starts_with_line_break, CR, LF,
};
use crate::request::{
    fits_prefix, Header, HeaderBytes, OutcomeBytes, ParseOutcome, ParsedRequest, RequestBytes,
};

verus! {

/// The number of header fields that a parser accepts unless told otherwise.
pub const DEFAULT_MAX_HEADERS: usize = 256;

/// The largest limit on header fields that a scan can be made with: room
/// for that many fields is set aside on every call.
pub const MAX_HEADER_LIMIT: usize = 0x0100_0000;

/// What `httparse` leaves in its request after a scan that ran to the end
/// of the head.
#[derive(Debug)]
pub struct RawRequest<'a> {
    pub method: Option<&'a [u8]>,
    pub path: Option<&'a [u8]>,
    pub version: Option<u8>,
    pub headers: Vec<Header<'a>>,
    pub body_start: usize,
}

/// The answer of `httparse` to one scan.
#[derive(Debug)]
pub enum RawScan<'a> {
    Complete(RawRequest<'a>),
    Partial,
    Failed(httparse::Error),
}

/// The bytes and numbers of a `RawRequest`.
pub struct RawRequestBytes {
    pub method: Option<Seq<u8>>,
    pub path: Option<Seq<u8>>,
    pub version: Option<u8>,
    pub headers: Seq<HeaderBytes>,
    pub body_start: nat,
}

/// The bytes and numbers of a `RawScan`.
pub enum RawScanBytes {
    Complete(RawRequestBytes),
    Partial,
    Failed(httparse::Error),
}

impl<'a> View for RawRequest<'a> {
    type V = RawRequestBytes;

    open spec fn view(&self) -> RawRequestBytes {
        RawRequestBytes {
            method: match self.method {
                Some(m) => Some(m@),
                None => None,
            },
            path: match self.path {
                Some(p) => Some(p@),
                None => None,
            },
            version: self.version,
            headers: self.headers@.map_values(|h: Header<'a>| h@),
            body_start: self.body_start as nat,
        }
    }
}

impl<'a> View for RawScan<'a> {
    type V = RawScanBytes;

    open spec fn view(&self) -> RawScanBytes {
        match self {
            RawScan::Complete(request) => RawScanBytes::Complete(request@),
            RawScan::Partial => RawScanBytes::Partial,
            RawScan::Failed(e) => RawScanBytes::Failed(*e),
        }
    }
}

impl RawRequestBytes {
    /// Method, path and version are all there.
    pub open spec fn is_whole(self) -> bool {
        self.method is Some && self.path is Some && self.version is Some
    }

    /// The head that these parts make up, where none is missing.
    pub open spec fn head(self) -> RequestBytes
        recommends
            self.is_whole(),
    {
        RequestBytes {
            method: self.method.unwrap(),
            target: self.path.unwrap(),
            version: self.version.unwrap(),
            headers: self.headers,
            body_start_offset: self.body_start,
        }
    }
}

impl RawScanBytes {
    /// A scan that ran to the end of the head has left no part out.
    pub open spec fn is_whole(self) -> bool {
        self matches RawScanBytes::Complete(request) ==> request.is_whole()
    }

    /// A scan of `buf` with room for `max_headers` fields, where it ran to
    /// the end of the head, has left a head that fits the buffer and the
    /// limit.
    pub open spec fn fits(self, buf: Seq<u8>, max_headers: nat) -> bool {
        self matches RawScanBytes::Complete(request) ==> request.head().fits(buf, max_headers)
    }
}

/// What `httparse::Request::parse` answers, and leaves in a fresh request
/// with room for `max_headers` fields, when it is given `buf`.
pub uninterp spec fn httparse_request(buf: Seq<u8>, max_headers: nat) -> RawScanBytes;

/// The outcome that stands for an answer of `httparse` to `buf`.
///
/// A buffer that begins with a line break is rejected, since no method
/// begins so. An error of `httparse` gives its kind. A complete answer
/// stands only where the head ends with the first blank line of the buffer
/// and every line feed in it follows a carriage return, and a partial one
/// only where every line feed of the buffer does; otherwise the buffer is
/// rejected for its line ends.
pub open spec fn outcome_of(raw: RawScanBytes, buf: Seq<u8>) -> OutcomeBytes
    recommends
        raw.is_whole(),
{
    if starts_with_line_break(buf) {
        OutcomeBytes::Failed(ParseError::Token)
    } else {
        match raw {
            RawScanBytes::Complete(request) => if head_ends_at(buf, request.body_start as int) {
                OutcomeBytes::Complete(request.head())
            } else {
                OutcomeBytes::Failed(ParseError::NewLine)
            },
            RawScanBytes::Partial => if has_bare_line_feed(buf, buf.len() as int) {
                OutcomeBytes::Failed(ParseError::NewLine)
            } else {
                OutcomeBytes::Incomplete
            },
            RawScanBytes::Failed(e) => OutcomeBytes::Failed(kind_of(e)),
        }
    }
}

/// The outcome of scanning `buf` with a limit of `max_headers` fields: the
/// one that stands for the answer of `httparse` to the part of the buffer
/// that a scan looks at.
pub open spec fn parse_outcome(buf: Seq<u8>, max_headers: nat) -> OutcomeBytes {
    outcome_of(httparse_request(scanned_part(buf), max_headers), scanned_part(buf))
}

/// Calls `httparse::Request::parse` on `buf`, with a fresh request over
/// `max_headers` empty header slots, and hands back its answer together with
/// what it left in the request.
///
/// Nothing of this is proved. The contract claims that the answer depends on
/// the bytes and the number of slots alone; that after a complete scan the
/// method, the path and the version are set, the version being 0 or 1; that
/// no more headers are left than there were slots; that the offset of the
/// body does not pass the end of the buffer; and that the method, the path
/// and each header's name and value are runs of bytes of the buffer.
#[verifier::external_body]
fn run_httparse<'a>(buf: &'a [u8], max_headers: usize) -> (raw: RawScan<'a>)
    requires
        max_headers <= MAX_HEADER_LIMIT,
    ensures
        raw@ == httparse_request(buf@, max_headers as nat),
        raw@.is_whole(),
        raw@.fits(buf@, max_headers as nat),
{
    let mut slots = vec![httparse::EMPTY_HEADER; max_headers];
    let mut request = httparse::Request::new(&mut slots);
    match request.parse(buf) {
        Ok(httparse::Status::Complete(body_start)) => RawScan::Complete(RawRequest {
            method: request.method.map(str::as_bytes),
            path: request.path.map(str::as_bytes),
            version: request.version,
            headers: request.headers.iter().map(|h| Header { name: h.name.as_bytes(), value: h.value }).collect(),
            body_start,
        }),
        Ok(httparse::Status::Partial) => RawScan::Partial,
        Err(e) => RawScan::Failed(e),
    }
}

/// Turns an answer of `httparse` to `buf` into the outcome that stands for
/// it.
///
/// A complete answer must name method, path and version, and a body that
/// begins inside the buffer or at its end.
pub fn assemble<'a>(raw: RawScan<'a>, buf: &[u8]) -> (out: ParseOutcome<'a>)
    requires
        raw@.is_whole(),
        raw@ matches RawScanBytes::Complete(request) ==> request.body_start <= buf@.len(),
    ensures
        out@ == outcome_of(raw@, buf@),
{
    if buf.len() > 0 && (buf[0] == CR || buf[0] == LF) {
        return ParseOutcome::Failed(ParseError::Token);
    }
    match raw {
        RawScan::Complete(request) => {
            let RawRequest { method, path, version, headers, body_start } = request;
            if ends_head(buf, body_start) {
                ParseOutcome::Complete(
                    ParsedRequest {
                        method: method.unwrap(),
                        target: path.unwrap(),
                        version: version.unwrap(),
                        headers,
                        body_start_offset: body_start,
                    },
                )
            } else {
                ParseOutcome::Failed(ParseError::NewLine)
            }
        },
        RawScan::Partial => {
            if find_bare_line_feed(buf, buf.len()).is_some() {
                ParseOutcome::Failed(ParseError::NewLine)
            } else {
                ParseOutcome::Incomplete
            }
        },
        RawScan::Failed(e) => ParseOutcome::Failed(ParseError::from_httparse(e)),
    }
}

/// Scans `buf` from its first byte for the head of a request with at most
/// `max_headers` header fields.
///
/// `httparse` is given the buffer, or, where a line feed stands without its
/// carriage return, the bytes up to the first such line feed, so that the
/// first fault decides. The outcome is the one that stands for its answer.
/// A complete head fits the buffer and the limit, begins with no line
/// break, and ends with the first blank line of the buffer: the body begins
/// right after it. A buffer that is to be scanned again with more bytes
/// holds no line feed without its carriage return. A rejection is never for
/// a chunk size.
pub fn parse<'a>(buf: &'a [u8], max_headers: usize) -> (out: ParseOutcome<'a>)
    requires
        max_headers <= MAX_HEADER_LIMIT,
    ensures
        out@ == parse_outcome(buf@, max_headers as nat),
        starts_with_line_break(buf@) ==> out@ == OutcomeBytes::Failed(ParseError::Token),
        out@ matches OutcomeBytes::Complete(head) ==> head.fits(buf@, max_headers as nat)
            && !starts_with_line_break(buf@) && head_ends_at(buf@, head.body_start_offset as int),
        out@ is Incomplete ==> !has_bare_line_feed(buf@, buf@.len() as int),
        out@ matches OutcomeBytes::Failed(kind) ==> kind.spec_is_parsing_error(),
{
    let seen = scanned_slice(buf);
    let raw = run_httparse(seen, max_headers);
    let out = assemble(raw, seen);
    proof {
        scanned_part_ends_at_the_fault(buf@);
        if let OutcomeBytes::Complete(head) = out@ {
            fits_prefix(head, buf@, seen@.len() as int, max_headers as nat);
            head_end_in_prefix(buf@, seen@.len() as int, head.body_start_offset as int);
        }
    }
    out
}

/// Scanning keeps no state: whatever two scans of the same bytes with the
/// same limit give, they give the same.
pub proof fn parse_is_repeatable(
    buf: Seq<u8>,
    max_headers: nat,
    first: OutcomeBytes,
    second: OutcomeBytes,
)
    requires
        first == parse_outcome(buf, max_headers),
        second == parse_outcome(buf, max_headers),
    ensures
        first == second,
{
}

/// A scan is complete only where the buffer holds a blank line: the body
/// begins right after the first one, and whatever `httparse` answers on a
/// buffer without one, the scan is not complete.
pub proof fn complete_needs_a_blank_line(buf: Seq<u8>, max_headers: nat)
    ensures
        parse_outcome(buf, max_headers) matches OutcomeBytes::Complete(head) ==> head_ends_at(
            buf,
            head.body_start_offset as int,
        ),
        (forall|m: int| 0 <= m <= buf.len() ==> !is_blank_line_end(buf, m)) ==> !(parse_outcome(
            buf,
            max_headers,
        ) is Complete),
{
    scanned_part_ends_at_the_fault(buf);
    if let OutcomeBytes::Complete(head) = parse_outcome(buf, max_headers) {
        let end = head.body_start_offset as int;
        head_end_in_prefix(buf, scanned_part(buf).len() as int, end);
        assert(is_blank_line_end(buf, end));
    }
}

/// Cut a buffer whose head ends at `end` anywhere before that place. The
/// scan of what is left is never complete, and it finds no fault with the
/// line ends: it looks at every byte that is left, and asks for more
/// exactly when `httparse` does.
pub proof fn cut_head_is_not_complete(buf: Seq<u8>, end: int, cut: int, max_headers: nat)
    requires
        !starts_with_line_break(buf),
        head_ends_at(buf, end),
        0 <= cut < end,
    ensures
        !starts_with_line_break(buf.subrange(0, cut)),
        !has_bare_line_feed(buf.subrange(0, cut), cut),
        scanned_part(buf.subrange(0, cut)) == buf.subrange(0, cut),
        !(parse_outcome(buf.subrange(0, cut), max_headers) is Complete),
        parse_outcome(buf.subrange(0, cut), max_headers) is Incomplete <==> httparse_request(
            buf.subrange(0, cut),
            max_headers,
        ) is Partial,
        parse_outcome(buf.subrange(0, cut), max_headers) is Failed <==> !(httparse_request(
            buf.subrange(0, cut),
            max_headers,
        ) is Partial),
{
    let prefix = buf.subrange(0, cut);
    assert forall|i: int| 0 <= i < cut implies !is_bare_line_feed(prefix, i) by {
        assert(!is_bare_line_feed(buf, i));
    }
    assert forall|m: int| 0 <= m <= cut implies !is_blank_line_end(prefix, m) by {
        assert(!is_blank_line_end(buf, m));
    }
    assert(!has_bare_line_feed(prefix, prefix.len() as int));
}

/// The first fault decides. Where a line feed stands without its carriage
/// return, the scan neither asks for more bytes nor looks past the first
/// such line feed; a complete head lies wholly before it; and unless
/// `httparse` finds a fault in the bytes up to it, or the head is complete
/// before it, the buffer is rejected for its line ends.
pub proof fn bare_line_feed_is_not_accepted(buf: Seq<u8>, at: int, max_headers: nat)
    requires
        is_bare_line_feed(buf, at),
    ensures
        scanned_part(buf).len() <= at + 1,
        is_first_bare_line_feed(buf, scanned_part(buf).len() - 1),
        !(parse_outcome(buf, max_headers) is Incomplete),
        parse_outcome(buf, max_headers) matches OutcomeBytes::Complete(head)
            ==> head.body_start_offset <= at,
        !starts_with_line_break(buf) && httparse_request(scanned_part(buf), max_headers)
            is Partial ==> parse_outcome(buf, max_headers) == OutcomeBytes::Failed(
            ParseError::NewLine,
        ),
        !starts_with_line_break(buf) && (httparse_request(scanned_part(buf), max_headers)
            matches RawScanBytes::Complete(request) && request.body_start == scanned_part(
            buf,
        ).len()) ==> parse_outcome(buf, max_headers) == OutcomeBytes::Failed(ParseError::NewLine),
{
    scanned_part_ends_at_the_fault(buf);
    let seen = scanned_part(buf);
    let first = seen.len() - 1;
    assert(is_first_bare_line_feed(buf, first));
    if at < first {
        assert(!is_bare_line_feed(buf, at));
    }
    assert(is_bare_line_feed(seen, first));
    if let OutcomeBytes::Complete(head) = parse_outcome(buf, max_headers) {
        if head.body_start_offset > first {
            assert(has_bare_line_feed(seen, head.body_start_offset as int));
        }
    }
    if let RawScanBytes::Complete(request) = httparse_request(seen, max_headers) {
        if request.body_start == seen.len() {
            assert(has_bare_line_feed(seen, request.body_start as int));
        }
    }
}

/// A scanner of request heads. It holds the limit on header fields and
/// nothing else: no scan leaves a trace in it.
#[derive(Clone, Copy, Debug)]
pub struct RequestParser {
    max_headers: usize,
}

impl RequestParser {
    #[verifier::type_invariant]
    spec fn limit_is_in_range(self) -> bool {
        self.max_headers <= MAX_HEADER_LIMIT
    }

    /// The limit on header fields.
    pub closed spec fn spec_max_headers(self) -> nat {
        self.max_headers as nat
    }

    /// A parser with the default limit on header fields.
    pub fn new() -> (parser: RequestParser)
        ensures
            parser.spec_max_headers() == DEFAULT_MAX_HEADERS,
    {
        RequestParser { max_headers: DEFAULT_MAX_HEADERS }
    }

    /// A parser that accepts at most `max_headers` header fields, where a
    /// scan can be made with that limit; none where the limit is larger
    /// than [`MAX_HEADER_LIMIT`]. With 0, any header field is one too many.
    pub fn with_max_headers(max_headers: usize) -> (parser: Option<RequestParser>)
        ensures
            parser is Some <==> max_headers <= MAX_HEADER_LIMIT,
            parser matches Some(p) ==> p.spec_max_headers() == max_headers,
    {
        if max_headers <= MAX_HEADER_LIMIT {
            Some(RequestParser { max_headers })
        } else {
            None
        }
    }

    /// The limit on header fields.
    pub fn max_headers(&self) -> (limit: usize)
        ensures
            limit == self.spec_max_headers(),
            limit <= MAX_HEADER_LIMIT,
    {
        proof {
            use_type_invariant(self);
        }
        self.max_headers
    }

    /// Scans `buf` from its first byte, as [`parse`] does with this
    /// parser's limit. The parser is the same afterwards.
    pub fn parse<'a>(&self, buf: &'a [u8]) -> (out: ParseOutcome<'a>)
        ensures
            out@ == parse_outcome(buf@, self.spec_max_headers()),
            starts_with_line_break(buf@) ==> out@ == OutcomeBytes::Failed(ParseError::Token),
            out@ matches OutcomeBytes::Complete(head) ==> head.fits(buf@, self.spec_max_headers())
                && !starts_with_line_break(buf@) && head_ends_at(
                buf@,
                head.body_start_offset as int,
            ),
            out@ is Incomplete ==> !has_bare_line_feed(buf@, buf@.len() as int),
            out@ matches OutcomeBytes::Failed(kind) ==> kind.spec_is_parsing_error(),
    {
        proof {
            use_type_invariant(self);
        }
        parse(buf, self.max_headers)
    }
}

} // verus!
