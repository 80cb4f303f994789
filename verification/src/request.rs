//! The single-use request builder.
//!
//! A builder describes exactly one HTTP call: target URL, method and an
//! optional JSON body. It is produced only by a session, and its two
//! terminal operations consume it by value, so a described call cannot
//! be prepared — and therefore dispatched — twice. The terminal
//! operations attach the owning session's credentials and yield the
//! [`HttpRequest`] the transport must send; the outcome of sending it
//! is decided by [`crate::dispatch::handle_response`].

use vstd::prelude::*;

use crate::http::{HttpRequest, Method};
use crate::routes::RobloxApi;
use crate::session::Robolt;

verus! {

/// A fluent descriptor of one HTTP call, consumed exactly once.
#[derive(Debug)]
pub struct RequestBuilder<'a, State> {
    pub robolt: &'a Robolt<State>,
    pub method: Method,
    pub endpoint: String,
}

/// The headers a prepared request carries for the session's credential
/// state: with a credential pair present, the session cookie and the
/// anti-forgery token, plus an explicit zero content-length when no
/// body is attached; without credentials, nothing.
pub open spec fn spec_credential_headers(
    cookie: Option<String>,
    xcsrf: Option<String>,
    has_body: bool,
    h: Seq<(String, String)>,
) -> bool {
    if cookie is Some && xcsrf is Some {
        &&& h.len() == (if has_body {
            2int
        } else {
            3int
        })
        &&& h[0].0@ == "cookie"@
        &&& (cookie matches Some(c) && h[0].1@ == c@)
        &&& h[1].0@ == "x-csrf-token"@
        &&& (xcsrf matches Some(x) && h[1].1@ == x@)
        &&& (!has_body ==> h[2].0@ == "content-length"@ && h[2].1@ == "0"@)
    } else {
        h.len() == 0
    }
}

/// How a prepared request relates to the builder it came from and the
/// session that owns the builder.
pub open spec fn spec_prepared(
    method: Method,
    endpoint: Seq<char>,
    cookie: Option<String>,
    xcsrf: Option<String>,
    body: Option<String>,
    r: HttpRequest,
) -> bool {
    &&& r.method == method
    &&& r.url@ == "https://"@ + endpoint
    &&& (match body {
        Some(b) => r.body matches Some(rb) && rb@ == b@,
        None => r.body is None,
    })
    &&& spec_credential_headers(cookie, xcsrf, body is Some, r.headers@)
}

impl<State> Robolt<State> {
    /// Starts describing a call against one of the fixed sub-API
    /// domains; the method defaults to GET.
    pub fn request(&self, domain: RobloxApi, path: &str) -> (b: RequestBuilder<'_, State>)
        ensures
            b.method == Method::Get,
            b.endpoint@ == domain.spec_url() + path@,
            b.robolt == self,
    {
        let endpoint = String::from_str(domain.url()).concat(path);
        RequestBuilder { robolt: self, method: Method::Get, endpoint }
    }

    /// Starts describing a call against an already-joined host and
    /// path; the method defaults to GET.
    pub fn request_builder(&self, endpoint: String) -> (b: RequestBuilder<'_, State>)
        ensures
            b.method == Method::Get,
            b.endpoint@ == endpoint@,
            b.robolt == self,
    {
        RequestBuilder { robolt: self, method: Method::Get, endpoint }
    }
}

impl<'a, State> RequestBuilder<'a, State> {
    /// Overrides the HTTP method. No method is ruled out here: the
    /// remote API, not this layer, enforces method semantics.
    pub fn method(self, method: Method) -> (b: Self)
        ensures
            b.method == method,
            b.endpoint == self.endpoint,
            b.robolt == self.robolt,
    {
        RequestBuilder { method, ..self }
    }

    fn prepare(self, body: Option<String>) -> (r: HttpRequest)
        ensures
            spec_prepared(
                self.method,
                self.endpoint@,
                self.robolt.cookie,
                self.robolt.xcsrf,
                body,
                r,
            ),
    {
        let has_body = body.is_some();
        let mut headers: Vec<(String, String)> = Vec::new();
        match (&self.robolt.cookie, &self.robolt.xcsrf) {
            (Some(cookie), Some(xcsrf)) => {
                headers.push((String::from_str("cookie"), cookie.clone()));
                headers.push((String::from_str("x-csrf-token"), xcsrf.clone()));
                if !has_body {
                    headers.push((String::from_str("content-length"), String::from_str("0")));
                }
            },
            _ => {},
        }
        HttpRequest {
            method: self.method,
            url: String::from_str("https://").concat(self.endpoint.as_str()),
            headers,
            body,
        }
    }

    /// Terminal: consumes the builder and yields the request to be
    /// sent, with no body attached.
    pub fn send(self) -> (r: HttpRequest)
        ensures
            spec_prepared(
                self.method,
                self.endpoint@,
                self.robolt.cookie,
                self.robolt.xcsrf,
                None,
                r,
            ),
    {
        self.prepare(None)
    }

    /// Terminal: consumes the builder and yields the request to be
    /// sent, carrying the given serialized JSON payload as its body.
    pub fn send_body(self, body: String) -> (r: HttpRequest)
        ensures
            spec_prepared(
                self.method,
                self.endpoint@,
                self.robolt.cookie,
                self.robolt.xcsrf,
                Some(body),
                r,
            ),
    {
        self.prepare(Some(body))
    }
}

} // verus!
