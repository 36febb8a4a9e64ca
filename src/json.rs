//! A parsed JSON document, and reading typed fields out of its objects.
use vstd::prelude::*;
use crate::text::str_eq;

verus! {

/// A JSON value. Numbers keep what the report model can read: a
/// non-negative integer, a negative integer, or a number with a fraction or
/// exponent.
#[derive(Debug)]
pub enum Json {
    Null,
    Bool(bool),
    UInt(u64),
    NegInt(i64),
    Fraction,
    Str(String),
    Array(Vec<Json>),
    Object(Vec<(String, Json)>),
}

/// The upstream data does not have the shape of a report collection: a
/// required field is missing, or a field has the wrong type.
#[derive(Clone, Copy, Debug, PartialEq, Eq)]
pub enum ReportError {
    MalformedUpstreamData,
}

/// The value stored under `key`, the first entry with that key winning.
pub open spec fn lookup(fields: Seq<(String, Json)>, key: Seq<char>) -> Option<Json>
    decreases fields.len(),
{
    if fields.len() == 0 {
        None
    } else if fields[0].0@ == key {
        Some(fields[0].1)
    } else {
        lookup(fields.subrange(1, fields.len() as int), key)
    }
}

/// The entries of an object, or none for any other value.
pub open spec fn fields_of(j: Json) -> Option<Seq<(String, Json)>> {
    match j {
        Json::Object(f) => Some(f@),
        _ => None,
    }
}

/// The text of a string value.
pub open spec fn text_of(v: Option<Json>) -> Option<Seq<char>> {
    match v {
        Some(Json::Str(s)) => Some(s@),
        _ => None,
    }
}

/// Absent and `null` both stand for a missing optional value.
pub open spec fn is_missing(v: Option<Json>) -> bool {
    v is None || v == Some(Json::Null)
}

/// A required string field holds `s`.
pub open spec fn str_is(v: Option<Json>, s: String) -> bool {
    text_of(v) == Some(s@)
}

/// An optional string field can be read.
pub open spec fn opt_str_ok(v: Option<Json>) -> bool {
    is_missing(v) || text_of(v) is Some
}

/// An optional string field reads as `o`.
pub open spec fn opt_str_is(v: Option<Json>, o: Option<String>) -> bool {
    match o {
        Some(s) => text_of(v) == Some(s@),
        None => is_missing(v),
    }
}

/// The value of a boolean.
pub open spec fn bool_of(v: Option<Json>) -> Option<bool> {
    match v {
        Some(Json::Bool(b)) => Some(b),
        _ => None,
    }
}

pub open spec fn opt_bool_ok(v: Option<Json>) -> bool {
    is_missing(v) || bool_of(v) is Some
}

pub open spec fn opt_bool_is(v: Option<Json>, o: Option<bool>) -> bool {
    match o {
        Some(b) => bool_of(v) == Some(b),
        None => is_missing(v),
    }
}

/// The value of a non-negative integer that is at most `max`.
pub open spec fn uint_of(v: Option<Json>, max: nat) -> Option<nat> {
    match v {
        Some(Json::UInt(n)) => if n <= max {
            Some(n as nat)
        } else {
            None
        },
        _ => None,
    }
}

pub open spec fn opt_uint_ok(v: Option<Json>, max: nat) -> bool {
    is_missing(v) || uint_of(v, max) is Some
}

/// Whether `j` is exactly the object `{"0": "on"}`: one entry, key `"0"`,
/// the string `"on"`.
pub open spec fn zero_is_on(j: Json) -> bool {
    match j {
        Json::Object(f) => f@.len() == 1 && f@[0].0@ == "0"@ && text_of(Some(f@[0].1)) == Some(
            "on"@,
        ),
        _ => false,
    }
}

/// The reading of the input follow-up's `other` entry: `false` for the object
/// `{"0": "on"}`, `true` for the string `"other"`, absent for
/// anything else.
pub open spec fn spec_input_other(j: Json) -> Option<bool> {
    if zero_is_on(j) {
        Some(false)
    } else if text_of(Some(j)) == Some("other"@) {
        Some(true)
    } else {
        None
    }
}

/// The position of the first entry with key `key`.
pub fn find_key(fields: &Vec<(String, Json)>, key: &str) -> (r: Option<usize>)
    ensures
        match r {
            Some(i) => i < fields@.len() && lookup(fields@, key@) == Some(fields@[i as int].1),
            None => lookup(fields@, key@) is None,
        },
{
    let mut i: usize = 0;
    assert(fields@.subrange(0, fields@.len() as int) =~= fields@);
    while i < fields.len()
        invariant
            i <= fields@.len(),
            lookup(fields@, key@) == lookup(fields@.subrange(i as int, fields@.len() as int), key@),
        decreases fields@.len() - i,
    {
        let ghost rest = fields@.subrange(i as int, fields@.len() as int);
        assert(rest[0] == fields@[i as int]);
        if str_eq(fields[i].0.as_str(), key) {
            return Some(i);
        }
        assert(rest.subrange(1, rest.len() as int) =~= fields@.subrange(
            i as int + 1,
            fields@.len() as int,
        ));
        i = i + 1;
    }
    None
}

/// The value under `key`, if any.
pub fn get<'a>(fields: &'a Vec<(String, Json)>, key: &str) -> (r: Option<&'a Json>)
    ensures
        match r {
            Some(v) => lookup(fields@, key@) == Some(*v),
            None => lookup(fields@, key@) is None,
        },
{
    match find_key(fields, key) {
        Some(i) => Some(&fields[i].1),
        None => None,
    }
}

/// Decodes the input follow-up's `other` entry, whose upstream encoding is
/// ambiguous; an unrecognised shape reads as absent, never as an error.
pub fn decode_input_faults_other(v: &Json) -> (r: Option<bool>)
    ensures
        r == spec_input_other(*v),
{
    if let Json::Object(f) = v {
        if f.len() == 1 && str_eq(f[0].0.as_str(), "0") {
            if let Json::Str(s) = &f[0].1 {
                if str_eq(s.as_str(), "on") {
                    return Some(false);
                }
            }
        }
    }
    if let Json::Str(s) = v {
        if str_eq(s.as_str(), "other") {
            return Some(true);
        }
    }
    None
}

pub fn req_str(fields: &Vec<(String, Json)>, key: &str) -> (r: Result<String, ReportError>)
    ensures
        match r {
            Ok(s) => str_is(lookup(fields@, key@), s),
            Err(_) => text_of(lookup(fields@, key@)) is None,
        },
{
    match get(fields, key) {
        Some(Json::Str(s)) => Ok(s.clone()),
        _ => Err(ReportError::MalformedUpstreamData),
    }
}

pub fn opt_str(fields: &Vec<(String, Json)>, key: &str) -> (r: Result<Option<String>, ReportError>)
    ensures
        match r {
            Ok(o) => opt_str_is(lookup(fields@, key@), o),
            Err(_) => !opt_str_ok(lookup(fields@, key@)),
        },
{
    match get(fields, key) {
        None => Ok(None),
        Some(Json::Null) => Ok(None),
        Some(Json::Str(s)) => Ok(Some(s.clone())),
        _ => Err(ReportError::MalformedUpstreamData),
    }
}

pub fn req_bool(fields: &Vec<(String, Json)>, key: &str) -> (r: Result<bool, ReportError>)
    ensures
        match r {
            Ok(b) => bool_of(lookup(fields@, key@)) == Some(b),
            Err(_) => bool_of(lookup(fields@, key@)) is None,
        },
{
    match get(fields, key) {
        Some(Json::Bool(b)) => Ok(*b),
        _ => Err(ReportError::MalformedUpstreamData),
    }
}

pub fn opt_bool(fields: &Vec<(String, Json)>, key: &str) -> (r: Result<Option<bool>, ReportError>)
    ensures
        match r {
            Ok(o) => opt_bool_is(lookup(fields@, key@), o),
            Err(_) => !opt_bool_ok(lookup(fields@, key@)),
        },
{
    match get(fields, key) {
        None => Ok(None),
        Some(Json::Null) => Ok(None),
        Some(Json::Bool(b)) => Ok(Some(*b)),
        _ => Err(ReportError::MalformedUpstreamData),
    }
}

pub fn req_uint(fields: &Vec<(String, Json)>, key: &str, max: u64) -> (r: Result<u64, ReportError>)
    ensures
        match r {
            Ok(n) => uint_of(lookup(fields@, key@), max as nat) == Some(n as nat) && n <= max,
            Err(_) => uint_of(lookup(fields@, key@), max as nat) is None,
        },
{
    match get(fields, key) {
        Some(Json::UInt(n)) => if *n <= max {
            Ok(*n)
        } else {
            Err(ReportError::MalformedUpstreamData)
        },
        _ => Err(ReportError::MalformedUpstreamData),
    }
}

pub fn opt_uint(fields: &Vec<(String, Json)>, key: &str, max: u64) -> (r: Result<
    Option<u64>,
    ReportError,
>)
    ensures
        match r {
            Ok(Some(n)) => uint_of(lookup(fields@, key@), max as nat) == Some(n as nat) && n <= max,
            Ok(None) => is_missing(lookup(fields@, key@)),
            Err(_) => !opt_uint_ok(lookup(fields@, key@), max as nat),
        },
{
    match get(fields, key) {
        None => Ok(None),
        Some(Json::Null) => Ok(None),
        Some(Json::UInt(n)) => if *n <= max {
            Ok(Some(*n))
        } else {
            Err(ReportError::MalformedUpstreamData)
        },
        _ => Err(ReportError::MalformedUpstreamData),
    }
}

} // verus!
