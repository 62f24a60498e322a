//! Line ends. A line of a request's head ends in a carriage return and a
//! line feed, and the head ends with the first blank line.

use vstd::prelude::*;
use vstd::slice::slice_subrange;

verus! {

/// The carriage return, the first byte of a line end.
pub const CR: u8 = 13;

/// The line feed, the second byte of a line end.
pub const LF: u8 = 10;

/// Whether the byte at `i` is a line feed with no carriage return before it.
pub open spec fn is_bare_line_feed(buf: Seq<u8>, i: int) -> bool {
    0 <= i < buf.len() && buf[i] == LF && (i == 0 || buf[i - 1] != CR)
}

/// Whether a line feed stands without its carriage return among the first
/// `end` bytes.
pub open spec fn has_bare_line_feed(buf: Seq<u8>, end: int) -> bool {
    exists|i: int| 0 <= i < end && is_bare_line_feed(buf, i)
}

/// Whether the buffer begins with a byte of a line end, where the method
/// should begin.
pub open spec fn starts_with_line_break(buf: Seq<u8>) -> bool {
    buf.len() > 0 && (buf[0] == CR || buf[0] == LF)
}

/// The place of the first line feed among the first `end` bytes that has no
/// carriage return before it, if there is one.
pub fn find_bare_line_feed(buf: &[u8], end: usize) -> (found: Option<usize>)
    requires
        end <= buf@.len(),
    ensures
        found matches Some(i) ==> i < end && is_bare_line_feed(buf@, i as int) && forall|j: int|
            0 <= j < i ==> !is_bare_line_feed(buf@, j),
        found is Some <==> has_bare_line_feed(buf@, end as int),
{
    let mut i: usize = 0;
    while i < end
        invariant
            i <= end <= buf@.len(),
            forall|j: int| 0 <= j < i ==> !is_bare_line_feed(buf@, j),
        decreases end - i,
    {
        if buf[i] == LF && (i == 0 || buf[i - 1] != CR) {
            assert(is_bare_line_feed(buf@, i as int));
            return Some(i);
        }
        i += 1;
    }
    None
}

/// Whether `i` is the place of the first line feed that has no carriage
/// return before it.
pub open spec fn is_first_bare_line_feed(buf: Seq<u8>, i: int) -> bool {
    is_bare_line_feed(buf, i) && forall|j: int| 0 <= j < i ==> !is_bare_line_feed(buf, j)
}

/// The part of a buffer that a scan looks at. Where every line feed follows
/// a carriage return, that is all of it. Where one does not, it is the
/// bytes up to the first such line feed, the line feed included: whatever
/// comes after the first fault has no say.
pub open spec fn scanned_part(buf: Seq<u8>) -> Seq<u8> {
    if has_bare_line_feed(buf, buf.len() as int) {
        buf.subrange(0, (choose|i: int| is_first_bare_line_feed(buf, i)) + 1)
    } else {
        buf
    }
}

/// The part of `buf` that a scan looks at.
pub fn scanned_slice<'a>(buf: &'a [u8]) -> (seen: &'a [u8])
    ensures
        seen@ == scanned_part(buf@),
        seen@.len() <= buf@.len(),
        seen@ == buf@.subrange(0, seen@.len() as int),
{
    match find_bare_line_feed(buf, buf.len()) {
        Some(i) => {
            proof {
                assert(is_first_bare_line_feed(buf@, i as int));
                let c = choose|k: int| is_first_bare_line_feed(buf@, k);
                assert(is_first_bare_line_feed(buf@, c));
                assert(c == i);
            }
            slice_subrange(buf, 0, i + 1)
        },
        None => {
            assert(buf@ =~= buf@.subrange(0, buf@.len() as int));
            buf
        },
    }
}

/// The part that a scan looks at holds a line feed without its carriage
/// return exactly where the buffer holds one, and then as its last byte.
pub proof fn scanned_part_ends_at_the_fault(buf: Seq<u8>)
    ensures
        scanned_part(buf).len() <= buf.len(),
        scanned_part(buf) == buf.subrange(0, scanned_part(buf).len() as int),
        has_bare_line_feed(scanned_part(buf), scanned_part(buf).len() as int)
            <==> has_bare_line_feed(buf, buf.len() as int),
        has_bare_line_feed(buf, buf.len() as int) ==> is_first_bare_line_feed(
            buf,
            scanned_part(buf).len() - 1,
        ),
        starts_with_line_break(scanned_part(buf)) <==> starts_with_line_break(buf),
{
    let seen = scanned_part(buf);
    if has_bare_line_feed(buf, buf.len() as int) {
        let w = choose|i: int| 0 <= i < buf.len() && is_bare_line_feed(buf, i);
        first_bare_line_feed_exists(buf, w);
        let c = choose|i: int| is_first_bare_line_feed(buf, i);
        assert(is_bare_line_feed(seen, c));
    } else {
        assert(seen =~= buf.subrange(0, buf.len() as int));
    }
}

/// Where a line feed stands without its carriage return, one of them is the
/// first.
pub proof fn first_bare_line_feed_exists(buf: Seq<u8>, at: int)
    requires
        is_bare_line_feed(buf, at),
    ensures
        exists|i: int| 0 <= i <= at && is_first_bare_line_feed(buf, i),
    decreases at,
{
    if exists|j: int| 0 <= j < at && is_bare_line_feed(buf, j) {
        let j = choose|j: int| 0 <= j < at && is_bare_line_feed(buf, j);
        first_bare_line_feed_exists(buf, j);
    } else {
        assert(is_first_bare_line_feed(buf, at));
    }
}

/// A head that ends at `end` in the first `n` bytes of a buffer ends there
/// in the buffer too, and the other way round where `end` is among them.
pub proof fn head_end_in_prefix(buf: Seq<u8>, n: int, end: int)
    requires
        0 <= end <= n <= buf.len(),
    ensures
        head_ends_at(buf.subrange(0, n), end) <==> head_ends_at(buf, end),
{
    let prefix = buf.subrange(0, n);
    assert forall|m: int| 0 <= m <= n implies is_blank_line_end(prefix, m) == is_blank_line_end(
        buf,
        m,
    ) by {}
    assert forall|i: int| 0 <= i < n implies is_bare_line_feed(prefix, i) == is_bare_line_feed(
        buf,
        i,
    ) by {}
    if has_bare_line_feed(prefix, end) {
        let i = choose|i: int| 0 <= i < end && is_bare_line_feed(prefix, i);
        assert(is_bare_line_feed(buf, i));
    }
    if has_bare_line_feed(buf, end) {
        let i = choose|i: int| 0 <= i < end && is_bare_line_feed(buf, i);
        assert(is_bare_line_feed(prefix, i));
    }
}

/// Whether the four bytes before `end` are two line ends in a row: the end
/// of a line and the blank line after it.
pub open spec fn is_blank_line_end(buf: Seq<u8>, end: int) -> bool {
    4 <= end <= buf.len() && buf[end - 4] == CR && buf[end - 3] == LF && buf[end - 2] == CR
        && buf[end - 1] == LF
}

/// Whether the head of a request ends just before `end`: the first blank
/// line of the buffer ends there, and every line feed before follows a
/// carriage return.
pub open spec fn head_ends_at(buf: Seq<u8>, end: int) -> bool {
    &&& is_blank_line_end(buf, end)
    &&& forall|m: int| 0 <= m < end ==> !is_blank_line_end(buf, m)
    &&& !has_bare_line_feed(buf, end)
}

/// Where the first blank line ends, if one ends among the first `end` bytes.
pub fn find_blank_line_end(buf: &[u8], end: usize) -> (found: Option<usize>)
    requires
        end <= buf@.len(),
    ensures
        found matches Some(n) ==> n <= end && is_blank_line_end(buf@, n as int) && forall|m: int|
            0 <= m < n ==> !is_blank_line_end(buf@, m),
        found is None <==> forall|m: int| 0 <= m <= end ==> !is_blank_line_end(buf@, m),
{
    if end < 4 {
        return None;
    }
    let last: usize = end - 4;
    let mut i: usize = 0;
    while i <= last
        invariant
            last == end - 4,
            end <= buf@.len(),
            i <= last + 1,
            forall|m: int| 0 <= m < i + 4 ==> !is_blank_line_end(buf@, m),
        decreases last + 1 - i,
    {
        if buf[i] == CR && buf[i + 1] == LF && buf[i + 2] == CR && buf[i + 3] == LF {
            assert(is_blank_line_end(buf@, i + 4));
            return Some(i + 4);
        }
        i += 1;
    }
    None
}

/// Whether the head of a request ends just before `end`.
pub fn ends_head(buf: &[u8], end: usize) -> (yes: bool)
    requires
        end <= buf@.len(),
    ensures
        yes == head_ends_at(buf@, end as int),
{
    match find_blank_line_end(buf, end) {
        Some(n) => n == end && find_bare_line_feed(buf, end).is_none(),
        None => false,
    }
}

/// A head ends in one place only: where the first blank line ends.
pub proof fn head_end_is_unique(buf: Seq<u8>, first: int, second: int)
    requires
        head_ends_at(buf, first),
        head_ends_at(buf, second),
    ensures
        first == second,
{
}

} // verus!
