//! The HTTP session and its compile-time authentication state.
//!
//! A session is either `Robolt<Unauthenticated>` or `Robolt<Authenticated>`;
//! the marker is a type parameter, so operations that need credentials are
//! simply not defined on the unauthenticated type and cannot be expressed
//! against it. Transitions consume the old session and return a new value:
//! nothing is mutated in place.
//!
//! Credential exchange converts a raw session secret (a cookie value) into
//! a validated credential pair. The library builds the exchange request
//! ([`login_request`]) and decides what the transport's outcome means
//! ([`Robolt::set_cookie`]); sending is the embedding application's job.

use core::marker::PhantomData;
use vstd::prelude::*;

use crate::errors::{RoboltError, RoboltErrorKind};
use crate::http::{spec_header_lookup, spec_is_success, header_lookup, is_success, HttpRequest,
    HttpResponse, Method};

verus! {

/// Marker for a session that holds no credentials.
#[derive(Debug, Clone, PartialEq, Eq, Structural)]
pub struct Unauthenticated;

/// Marker for a session that holds a negotiated credential pair.
#[derive(Debug, Clone, PartialEq, Eq, Structural)]
pub struct Authenticated;

/// An HTTP session: the credential pair (both fields present or both
/// absent — never partially populated) and the default headers every
/// request of this session is sent with. `State` is the compile-time
/// authentication marker.
#[derive(Debug)]
pub struct Robolt<State = Unauthenticated> {
    pub state: PhantomData<State>,
    pub cookie: Option<String>,
    pub xcsrf: Option<String>,
}

impl<State> Robolt<State> {
    /// Both halves of the credential pair are present.
    pub open spec fn creds_present(self) -> bool {
        self.cookie is Some && self.xcsrf is Some
    }

    /// The credential pair is empty.
    pub open spec fn creds_absent(self) -> bool {
        self.cookie is None && self.xcsrf is None
    }
}

/// The default headers a fresh session configures its transport with.
pub fn default_client_headers() -> (h: Vec<(String, String)>)
    ensures
        h@.len() == 3,
        h@[0].0@ == "content-type"@ && h@[0].1@ == "application/json"@,
        h@[1].0@ == "accept"@ && h@[1].1@ == "application/json"@,
        h@[2].0@ == "user-agent"@ && h@[2].1@ == "robolt/0.1.0"@,
{
    let mut h: Vec<(String, String)> = Vec::new();
    h.push((String::from_str("content-type"), String::from_str("application/json")));
    h.push((String::from_str("accept"), String::from_str("application/json")));
    h.push((String::from_str("user-agent"), String::from_str("robolt/0.1.0")));
    h
}

/// The cookie header value the remote service expects for a raw secret.
pub open spec fn spec_cookie_value(roblox_cookie: Seq<char>) -> Seq<char> {
    ".ROBLOSECURITY="@ + roblox_cookie
}

/// A status the credential exchange accepts: any 2xx, or 403. On the
/// bootstrap endpoint, 403 means "cookie accepted, anti-forgery token
/// required" — exactly the challenge whose token is being harvested.
pub open spec fn spec_exchange_acceptable(status: u16) -> bool {
    spec_is_success(status) || status == 403
}

/// The exchange request: a POST to the fixed session-invalidation
/// endpoint, carrying the formatted cookie and a zero-length body.
pub fn login_request(roblox_cookie: &str) -> (r: HttpRequest)
    ensures
        r.method == Method::Post,
        r.url@ == "https://auth.roblox.com/v2/logout"@,
        r.body is None,
        r.headers@.len() == 5,
        r.headers@[0].0@ == "content-type"@ && r.headers@[0].1@ == "application/json"@,
        r.headers@[1].0@ == "accept"@ && r.headers@[1].1@ == "application/json"@,
        r.headers@[2].0@ == "user-agent"@ && r.headers@[2].1@ == "robolt/0.1.0"@,
        r.headers@[3].0@ == "cookie"@ && r.headers@[3].1@ == spec_cookie_value(roblox_cookie@),
        r.headers@[4].0@ == "content-length"@ && r.headers@[4].1@ == "0"@,
{
    let mut headers = default_client_headers();
    let cookie = String::from_str(".ROBLOSECURITY=").concat(roblox_cookie);
    headers.push((String::from_str("cookie"), cookie));
    headers.push((String::from_str("content-length"), String::from_str("0")));
    HttpRequest {
        method: Method::Post,
        url: String::from_str("https://auth.roblox.com/v2/logout"),
        headers,
        body: None,
    }
}

impl Robolt<Unauthenticated> {
    /// A fresh session: no credentials, no network call, never fails.
    pub fn new() -> (r: Robolt<Unauthenticated>)
        ensures
            r.creds_absent(),
    {
        Robolt { state: PhantomData, cookie: None, xcsrf: None }
    }

    /// Decides the credential exchange from the transport's outcome for
    /// the request built by [`login_request`], consuming this session.
    ///
    /// A transport failure surfaces unchanged. A status that is neither
    /// 2xx nor 403 means the cookie was rejected. Otherwise the
    /// anti-forgery token must appear in the response headers; its
    /// absence is a hard failure, and its presence yields the
    /// authenticated session carrying exactly that token together with
    /// the formatted cookie.
    pub fn set_cookie(self, roblox_cookie: String, outcome: Result<HttpResponse, String>) -> (r:
        Result<Robolt<Authenticated>, RoboltError>)
        ensures
            outcome matches Err(m) ==> (r matches Err(e) && e.kind == RoboltErrorKind::Unknown
                && e.code == -1i8 && e.message@ == m@),
            outcome matches Ok(res) ==> (if !spec_exchange_acceptable(res.status) {
                r matches Err(e) && e.kind == RoboltErrorKind::Unknown && e.code == -1i8
                    && e.message@ == "Invalid cookie"@
            } else {
                match spec_header_lookup(res.headers@, "x-csrf-token"@) {
                    Some(tok) => r matches Ok(s) && s.creds_present() && (s.cookie matches Some(c)
                        && c@ == spec_cookie_value(roblox_cookie@)) && (s.xcsrf matches Some(x)
                        && x@ == tok@),
                    None => r matches Err(e) && e.kind == RoboltErrorKind::Unknown && e.code
                        == -1i8 && e.message@ == "No CSRF token found"@,
                }
            }),
    {
        let res = match outcome {
            Ok(res) => res,
            Err(m) => {
                return Err(RoboltError::from_message(m));
            },
        };
        if !is_success(res.status) && res.status != 403 {
            return Err(RoboltError::from_message(String::from_str("Invalid cookie")));
        }
        match header_lookup(&res.headers, "x-csrf-token") {
            Some(token) => Ok(
                Robolt {
                    state: PhantomData,
                    cookie: Some(String::from_str(".ROBLOSECURITY=").concat(roblox_cookie.as_str())),
                    xcsrf: Some(token),
                },
            ),
            None => Err(RoboltError::from_message(String::from_str("No CSRF token found"))),
        }
    }

    /// Diagnostic introspection only: a session of this type never
    /// holds credentials. Access to authenticated operations is gated
    /// by the type, never by this value.
    pub fn is_authenticated(&self) -> (r: bool)
        ensures
            !r,
    {
        false
    }
}

impl Robolt<Authenticated> {
    /// Returns a fresh unauthenticated session, dropping the credential
    /// pair. Always succeeds; the old session is consumed.
    pub fn remove_cookie(self) -> (r: Robolt<Unauthenticated>)
        ensures
            r.creds_absent(),
    {
        Robolt { state: PhantomData, cookie: None, xcsrf: None }
    }

    /// Diagnostic introspection only: a session of this type was
    /// produced by the credential exchange and is authenticated.
    pub fn is_authenticated(&self) -> (r: bool)
        ensures
            r,
    {
        true
    }
}

/// Credential exchange from a fresh session: builds the session, then
/// decides the exchange exactly as [`Robolt::set_cookie`] does.
pub fn login(roblox_cookie: &str, outcome: Result<HttpResponse, String>) -> (r: Result<
    Robolt<Authenticated>,
    RoboltError,
>)
    ensures
        outcome matches Err(m) ==> (r matches Err(e) && e.kind == RoboltErrorKind::Unknown
            && e.code == -1i8 && e.message@ == m@),
        outcome matches Ok(res) ==> (if !spec_exchange_acceptable(res.status) {
            r matches Err(e) && e.kind == RoboltErrorKind::Unknown && e.code == -1i8
                && e.message@ == "Invalid cookie"@
        } else {
            match spec_header_lookup(res.headers@, "x-csrf-token"@) {
                Some(tok) => r matches Ok(s) && s.creds_present() && (s.cookie matches Some(c)
                    && c@ == spec_cookie_value(roblox_cookie@)) && (s.xcsrf matches Some(x)
                    && x@ == tok@),
                None => r matches Err(e) && e.kind == RoboltErrorKind::Unknown && e.code == -1i8
                    && e.message@ == "No CSRF token found"@,
            }
        }),
{
    Robolt::new().set_cookie(String::from_str(roblox_cookie), outcome)
}

/// Logs an authenticated session out: the result holds no credentials,
/// and only unauthenticated operations are expressible against it.
pub fn logout(session: Robolt<Authenticated>) -> (r: Robolt<Unauthenticated>)
    ensures
        r.creds_absent(),
{
    session.remove_cookie()
}

} // verus!
