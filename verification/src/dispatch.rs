//! The decode half of the dispatch pipeline.
//!
//! One HTTP exchange ends in exactly one of: a transport failure, a 2xx
//! response, or a non-2xx response. [`handle_response`] classifies every
//! outcome: success bodies are handed back as decoded JSON; non-2xx
//! bodies are read as the remote error envelope
//! `{"errors": [{"message": …, "code"?: …}, …]}`, of which the first
//! element is surfaced; anything undecodable falls back to an
//! `Unknown`-classified error that keeps the status text, so the
//! distinguishing context is never dropped.

use vstd::prelude::*;

use crate::errors::{RoboltError, RoboltErrorKind};
use crate::http::{spec_is_success, is_success, HttpResponse};
use crate::json::{spec_parse_json, parse_json, Json};

verus! {

/// Shorthand: `e` is the `Unknown`-classified error carrying `message`.
pub open spec fn spec_is_unknown_error(e: RoboltError, message: Seq<char>) -> bool {
    e.kind == RoboltErrorKind::Unknown && e.code == -1i8 && e.message@ == message
}

/// One element of the remote error envelope: an object with a string
/// `message` member and, optionally, an integer `code` member that fits
/// the code's range. The code falls back to the sentinel when absent.
pub open spec fn spec_error_entry(j: Json) -> Option<(Seq<char>, i8)> {
    match j.spec_get("message"@) {
        Some(m) => match m {
            Json::Text(text) => match j.spec_get("code"@) {
                None => Some((text@, -1i8)),
                Some(c) => match c {
                    Json::Int(code) => if -128 <= code && code <= 127 {
                        Some((text@, code as i8))
                    } else {
                        None
                    },
                    _ => None,
                },
            },
            _ => None,
        },
        None => None,
    }
}

/// Every element of the list is a well-formed envelope entry.
pub open spec fn spec_entries_valid(items: Seq<Json>) -> bool {
    forall|i: int| 0 <= i < items.len() ==> spec_error_entry(items[i]) is Some
}

/// The message and code surfaced from a decoded non-2xx body: the first
/// element of a non-empty, entirely well-formed `errors` list. `None`
/// where the body is not such an envelope.
pub open spec fn spec_first_api_error(j: Json) -> Option<(Seq<char>, i8)> {
    match j.spec_get("errors"@) {
        Some(e) => match e {
            Json::Arr(items) => if items@.len() > 0 && spec_entries_valid(items@) {
                spec_error_entry(items@[0])
            } else {
                None
            },
            _ => None,
        },
        None => None,
    }
}

fn error_entry(j: &Json) -> (r: Option<RoboltError>)
    ensures
        match spec_error_entry(*j) {
            Some(entry) => r matches Some(e) && e.kind == RoboltErrorKind::Api && e.message@
                == entry.0 && e.code == entry.1,
            None => r is None,
        },
{
    let message: String = match j.get("message") {
        Some(m) => match m {
            Json::Text(text) => text.clone(),
            _ => {
                return None;
            },
        },
        None => {
            return None;
        },
    };
    let code: i8 = match j.get("code") {
        None => -1,
        Some(c) => match c {
            Json::Int(code) => {
                if -128 <= *code && *code <= 127 {
                    *code as i8
                } else {
                    return None;
                }
            },
            _ => {
                return None;
            },
        },
    };
    Some(RoboltError::api(message, code))
}

/// Reads a decoded non-2xx body as the remote error envelope and
/// surfaces its first element, or `None` where the body is no envelope.
pub fn extract_api_error(j: &Json) -> (r: Option<RoboltError>)
    ensures
        match spec_first_api_error(*j) {
            Some(entry) => r matches Some(e) && e.kind == RoboltErrorKind::Api && e.message@
                == entry.0 && e.code == entry.1,
            None => r is None,
        },
{
    let items: &Vec<Json> = match j.get("errors") {
        Some(e) => match e {
            Json::Arr(items) => items,
            _ => {
                return None;
            },
        },
        None => {
            return None;
        },
    };
    if items.len() == 0 {
        return None;
    }
    let first = match error_entry(&items[0]) {
        Some(e) => e,
        None => {
            return None;
        },
    };
    let n = items.len();
    let mut i: usize = 1;
    while i < n
        invariant
            1 <= i <= n,
            n == items@.len(),
            j.spec_get("errors"@) == Some(Json::Arr(*items)),
            forall|k: int| 0 <= k < i ==> spec_error_entry(items@[k]) is Some,
        decreases n - i,
    {
        if error_entry(&items[i]).is_none() {
            proof {
                assert(spec_error_entry(items@[i as int]) is None);
                assert(!spec_entries_valid(items@));
            }
            return None;
        }
        i = i + 1;
    }
    Some(first)
}

/// What `reqwest`'s status type prints for a given code, e.g. the
/// code followed by its canonical reason phrase. A function of the
/// code alone.
pub uninterp spec fn spec_status_text(status: u16) -> Seq<char>;

/// Relies on `reqwest::StatusCode`: `from_u16` accepts exactly the
/// codes 100 through 999, and displaying a status prints the code and
/// its canonical reason phrase. Codes outside that range print as the
/// bare number.
#[verifier::external_body]
pub fn status_text(status: u16) -> (r: String)
    ensures
        r@ == spec_status_text(status),
{
    match reqwest::StatusCode::from_u16(status) {
        Ok(s) => s.to_string(),
        Err(_) => status.to_string(),
    }
}

/// Decides what one transport outcome means.
///
/// A transport failure becomes an `Unknown` error carrying its text. A
/// 2xx response yields its decoded body, or an `Unknown` decode error.
/// A non-2xx response yields the first element of its error envelope as
/// an `Api` error, or — where the body is no envelope — an `Unknown`
/// error carrying the status text.
pub fn handle_response(outcome: Result<HttpResponse, String>) -> (r: Result<Json, RoboltError>)
    ensures
        outcome matches Err(m) ==> r matches Err(e) && spec_is_unknown_error(e, m@),
        outcome matches Ok(res) ==> (if spec_is_success(res.status) {
            match spec_parse_json(res.body@) {
                Some(j) => r == Ok::<Json, RoboltError>(j),
                None => r matches Err(e) && spec_is_unknown_error(
                    e,
                    "failed to deserialize response body"@,
                ),
            }
        } else {
            match spec_parse_json(res.body@) {
                Some(j) => match spec_first_api_error(j) {
                    Some(entry) => r matches Err(e) && e.kind == RoboltErrorKind::Api
                        && e.message@ == entry.0 && e.code == entry.1,
                    None => r matches Err(e) && spec_is_unknown_error(
                        e,
                        spec_status_text(res.status),
                    ),
                },
                None => r matches Err(e) && spec_is_unknown_error(e, spec_status_text(res.status)),
            }
        }),
{
    let res = match outcome {
        Ok(res) => res,
        Err(m) => {
            return Err(RoboltError::from_message(m));
        },
    };
    if is_success(res.status) {
        match parse_json(res.body.as_str()) {
            Some(j) => Ok(j),
            None => Err(
                RoboltError::from_message(String::from_str("failed to deserialize response body")),
            ),
        }
    } else {
        match parse_json(res.body.as_str()) {
            Some(j) => match extract_api_error(&j) {
                Some(e) => Err(e),
                None => Err(RoboltError::from_message(status_text(res.status))),
            },
            None => Err(RoboltError::from_message(status_text(res.status))),
        }
    }
}

} // verus!
