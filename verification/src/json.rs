//! A plain-value model of decoded JSON documents.
//!
//! Response bodies are parsed by `serde_json` behind a trusted wrapper;
//! everything the library then reads out of a document — the remote
//! error envelope above all — is verified code over this model.
//!
//! Numbers are kept when they fit a signed 64-bit integer, which covers
//! everything the protocol reads (error codes, counts, identifiers);
//! any other number is remembered only as [`Json::OtherNum`].

use vstd::prelude::*;

use crate::text::str_eq;

verus! {

/// A decoded JSON document.
#[derive(Debug, PartialEq)]
pub enum Json {
    Null,
    Bool(bool),
    Int(i64),
    /// A number that does not fit `i64` (too large, or fractional).
    OtherNum,
    Text(String),
    Arr(Vec<Json>),
    Obj(Vec<(String, Json)>),
}

impl Json {
    /// The value of the first member of this object named `key`;
    /// `None` if there is no such member or this is not an object.
    pub open spec fn spec_get(self, key: Seq<char>) -> Option<Json> {
        match self {
            Json::Obj(members) => spec_member_lookup(members@, key),
            _ => None,
        }
    }

    /// Looks up the first member named `key` of this JSON object.
    pub fn get<'a>(&'a self, key: &str) -> (r: Option<&'a Json>)
        ensures
            match r {
                Some(v) => self.spec_get(key@) == Some(*v),
                None => self.spec_get(key@) is None,
            },
    {
        match self {
            Json::Obj(members) => member_lookup(members, key),
            _ => None,
        }
    }
}

/// The value of the first pair in `members` whose name is exactly `key`.
pub open spec fn spec_member_lookup(members: Seq<(String, Json)>, key: Seq<char>) -> Option<Json>
    decreases members.len(),
{
    if members.len() == 0 {
        None
    } else if members[0].0@ == key {
        Some(members[0].1)
    } else {
        spec_member_lookup(members.drop_first(), key)
    }
}

proof fn lemma_member_lookup_skip(members: Seq<(String, Json)>, key: Seq<char>, i: int)
    requires
        0 <= i < members.len(),
        members[i].0@ != key,
    ensures
        spec_member_lookup(members.skip(i), key) == spec_member_lookup(members.skip(i + 1), key),
{
    assert(members.skip(i)[0] == members[i]);
    assert(members.skip(i).drop_first() =~= members.skip(i + 1));
}

fn member_lookup<'a>(members: &'a Vec<(String, Json)>, key: &str) -> (r: Option<&'a Json>)
    ensures
        match r {
            Some(v) => spec_member_lookup(members@, key@) == Some(*v),
            None => spec_member_lookup(members@, key@) is None,
        },
{
    let n = members.len();
    let mut i: usize = 0;
    proof {
        assert(members@.skip(0) =~= members@);
    }
    while i < n
        invariant
            i <= n,
            n == members@.len(),
            spec_member_lookup(members@, key@) == spec_member_lookup(
                members@.skip(i as int),
                key@,
            ),
        decreases n - i,
    {
        if str_eq(members[i].0.as_str(), key) {
            proof {
                assert(members@.skip(i as int)[0] == members@[i as int]);
            }
            return Some(&members[i].1);
        }
        proof {
            lemma_member_lookup_skip(members@, key@, i as int);
        }
        i = i + 1;
    }
    proof {
        assert(members@.skip(n as int) =~= Seq::<(String, Json)>::empty());
    }
    None
}

/// The declaration Verus needs to let `serde_json::Value` appear in the
/// signatures of the trusted conversion below.
#[verifier::external_type_specification]
#[verifier::external_body]
pub struct ExValue(serde_json::Value);

/// What `serde_json` parses a given text into, mapped onto [`Json`]:
/// `None` where the text is not valid JSON. The result depends on the
/// text alone.
pub uninterp spec fn spec_parse_json(text: Seq<char>) -> Option<Json>;

/// Relies on `serde_json::from_str::<serde_json::Value>`: parses the
/// text as one JSON document, or fails; the outcome is a function of
/// the text alone.
#[verifier::external_body]
pub fn parse_json(text: &str) -> (r: Option<Json>)
    ensures
        r == spec_parse_json(text@),
{
    match serde_json::from_str::<serde_json::Value>(text) {
        Ok(v) => Some(json_from_value(v)),
        Err(_) => None,
    }
}

/// Relies on the `serde_json::Value` tree shape: maps each of its
/// variants onto the [`Json`] variant of the same meaning. Called only
/// from the body of [`parse_json`]; the composite is what the name
/// [`spec_parse_json`] stands for.
#[verifier::external_body]
fn json_from_value(v: serde_json::Value) -> Json {
    match v {
        serde_json::Value::Null => Json::Null,
        serde_json::Value::Bool(b) => Json::Bool(b),
        serde_json::Value::Number(n) => match n.as_i64() {
            Some(i) => Json::Int(i),
            None => Json::OtherNum,
        },
        serde_json::Value::String(s) => Json::Text(s),
        serde_json::Value::Array(a) => Json::Arr(a.into_iter().map(json_from_value).collect()),
        serde_json::Value::Object(o) => Json::Obj(
            o.into_iter().map(|(k, x)| (k, json_from_value(x))).collect(),
        ),
    }
}

} // verus!
