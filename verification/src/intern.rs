//! The names that occur in almost every request. A consumer that keeps one
//! shared copy of each can ask here whether a name is one of them. The scan
//! itself never looks at these tables.

use vstd::prelude::*;
use vstd::string::StringSliceAdditionalSpecFns;

verus! {

/// Whether two slices hold the same bytes.
pub fn same_bytes(a: &[u8], b: &[u8]) -> (same: bool)
    ensures
        same == (a@ == b@),
{
    if a.len() != b.len() {
        return false;
    }
    let mut i: usize = 0;
    while i < a.len()
        invariant
            a@.len() == b@.len(),
            i <= a@.len(),
            forall|j: int| 0 <= j < i ==> a@[j] == b@[j],
        decreases a@.len() - i,
    {
        if a[i] != b[i] {
            return false;
        }
        i += 1;
    }
    assert(a@ =~= b@);
    true
}

/// Whether `name` is one of the nine common methods, letter for letter.
pub open spec fn is_common_method(name: Seq<u8>) -> bool {
    ||| name == "GET".spec_bytes()
    ||| name == "POST".spec_bytes()
    ||| name == "PUT".spec_bytes()
    ||| name == "PATCH".spec_bytes()
    ||| name == "DELETE".spec_bytes()
    ||| name == "HEAD".spec_bytes()
    ||| name == "OPTIONS".spec_bytes()
    ||| name == "TRACE".spec_bytes()
    ||| name == "CONNECT".spec_bytes()
}

/// Whether `name` is one of the nine common header names, letter for
/// letter: another spelling of the same name is not.
pub open spec fn is_common_header_name(name: Seq<u8>) -> bool {
    ||| name == "Host".spec_bytes()
    ||| name == "Connection".spec_bytes()
    ||| name == "Cache-Control".spec_bytes()
    ||| name == "Accept".spec_bytes()
    ||| name == "User-Agent".spec_bytes()
    ||| name == "Accept-Encoding".spec_bytes()
    ||| name == "Accept-Language".spec_bytes()
    ||| name == "Accept-Charset".spec_bytes()
    ||| name == "Cookie".spec_bytes()
}

/// The shared copy of `name`, where it is a common method: a string with
/// the very bytes of `name`.
pub fn common_method(name: &[u8]) -> (shared: Option<&'static str>)
    ensures
        shared is Some <==> is_common_method(name@),
        shared matches Some(s) ==> s.spec_bytes() == name@,
{
    if same_bytes(name, "GET".as_bytes()) {
        Some("GET")
    } else if same_bytes(name, "POST".as_bytes()) {
        Some("POST")
    } else if same_bytes(name, "PUT".as_bytes()) {
        Some("PUT")
    } else if same_bytes(name, "PATCH".as_bytes()) {
        Some("PATCH")
    } else if same_bytes(name, "DELETE".as_bytes()) {
        Some("DELETE")
    } else if same_bytes(name, "HEAD".as_bytes()) {
        Some("HEAD")
    } else if same_bytes(name, "OPTIONS".as_bytes()) {
        Some("OPTIONS")
    } else if same_bytes(name, "TRACE".as_bytes()) {
        Some("TRACE")
    } else if same_bytes(name, "CONNECT".as_bytes()) {
        Some("CONNECT")
    } else {
        None
    }
}

/// The shared copy of `name`, where it is a common header name: a string
/// with the very bytes of `name`.
pub fn common_header_name(name: &[u8]) -> (shared: Option<&'static str>)
    ensures
        shared is Some <==> is_common_header_name(name@),
        shared matches Some(s) ==> s.spec_bytes() == name@,
{
    if same_bytes(name, "Host".as_bytes()) {
        Some("Host")
    } else if same_bytes(name, "Connection".as_bytes()) {
        Some("Connection")
    } else if same_bytes(name, "Cache-Control".as_bytes()) {
        Some("Cache-Control")
    } else if same_bytes(name, "Accept".as_bytes()) {
        Some("Accept")
    } else if same_bytes(name, "User-Agent".as_bytes()) {
        Some("User-Agent")
    } else if same_bytes(name, "Accept-Encoding".as_bytes()) {
        Some("Accept-Encoding")
    } else if same_bytes(name, "Accept-Language".as_bytes()) {
        Some("Accept-Language")
    } else if same_bytes(name, "Accept-Charset".as_bytes()) {
        Some("Accept-Charset")
    } else if same_bytes(name, "Cookie".as_bytes()) {
        Some("Cookie")
    } else {
        None
    }
}

} // verus!
