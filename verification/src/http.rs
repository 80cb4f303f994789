//! Plain-value model of one HTTP exchange.
//!
//! The library never performs network transport itself. It produces
//! [`HttpRequest`] values describing exactly what must be sent, and it
//! consumes transport outcomes — either an [`HttpResponse`] or the text
//! of a transport-level failure — deciding what each one means.

use vstd::prelude::*;

use crate::text::{spec_lower, str_eq_ignore_ascii_case};

verus! {

/// The HTTP method of a request. The remote API, not this layer,
/// enforces method semantics, so every common method is available.
#[derive(Debug, Clone, Copy, PartialEq, Eq, Structural)]
pub enum Method {
    Get,
    Post,
    Put,
    Patch,
    Delete,
    Head,
}

impl Method {
    /// The wire name of the method.
    pub open spec fn spec_str(self) -> Seq<char> {
        match self {
            Method::Get => "GET"@,
            Method::Post => "POST"@,
            Method::Put => "PUT"@,
            Method::Patch => "PATCH"@,
            Method::Delete => "DELETE"@,
            Method::Head => "HEAD"@,
        }
    }

    pub fn as_str(&self) -> (r: &'static str)
        ensures
            r@ == self.spec_str(),
    {
        match self {
            Method::Get => "GET",
            Method::Post => "POST",
            Method::Put => "PUT",
            Method::Patch => "PATCH",
            Method::Delete => "DELETE",
            Method::Head => "HEAD",
        }
    }
}

/// A fully prepared request: everything the transport needs to send.
#[derive(Debug, Clone)]
pub struct HttpRequest {
    pub method: Method,
    pub url: String,
    pub headers: Vec<(String, String)>,
    pub body: Option<String>,
}

/// A response as the transport observed it: status code, response
/// headers and the raw body text.
#[derive(Debug, Clone)]
pub struct HttpResponse {
    pub status: u16,
    pub headers: Vec<(String, String)>,
    pub body: String,
}

/// Whether a status code counts as success (the 2xx class).
pub open spec fn spec_is_success(status: u16) -> bool {
    200 <= status < 300
}

pub fn is_success(status: u16) -> (r: bool)
    ensures
        r == spec_is_success(status),
{
    200 <= status && status < 300
}

/// The value of the first header whose name matches `name` up to ASCII
/// case, as HTTP defines header-name equality.
pub open spec fn spec_header_lookup(headers: Seq<(String, String)>, name: Seq<char>) -> Option<
    String,
>
    decreases headers.len(),
{
    if headers.len() == 0 {
        None
    } else if spec_lower(headers[0].0@) == spec_lower(name) {
        Some(headers[0].1)
    } else {
        spec_header_lookup(headers.drop_first(), name)
    }
}

proof fn lemma_header_lookup_skip(headers: Seq<(String, String)>, name: Seq<char>, i: int)
    requires
        0 <= i < headers.len(),
        spec_lower(headers[i].0@) != spec_lower(name),
    ensures
        spec_header_lookup(headers.skip(i), name) == spec_header_lookup(headers.skip(i + 1), name),
{
    assert(headers.skip(i)[0] == headers[i]);
    assert(headers.skip(i).drop_first() =~= headers.skip(i + 1));
}

/// Finds the first header whose name matches `name` up to ASCII case
/// and returns a copy of its value.
pub fn header_lookup(headers: &Vec<(String, String)>, name: &str) -> (r: Option<String>)
    ensures
        match r {
            Some(v) => spec_header_lookup(headers@, name@) matches Some(w) && v@ == w@,
            None => spec_header_lookup(headers@, name@) is None,
        },
{
    let n = headers.len();
    let mut i: usize = 0;
    proof {
        assert(headers@.skip(0) =~= headers@);
    }
    while i < n
        invariant
            i <= n,
            n == headers@.len(),
            spec_header_lookup(headers@, name@) == spec_header_lookup(
                headers@.skip(i as int),
                name@,
            ),
        decreases n - i,
    {
        if str_eq_ignore_ascii_case(headers[i].0.as_str(), name) {
            proof {
                assert(headers@.skip(i as int)[0] == headers@[i as int]);
            }
            return Some(headers[i].1.clone());
        }
        proof {
            lemma_header_lookup_skip(headers@, name@, i as int);
        }
        i = i + 1;
    }
    proof {
        assert(headers@.skip(n as int) =~= Seq::<(String, String)>::empty());
    }
    None
}

} // verus!
