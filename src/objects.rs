//! Objects: keyed records stored in a bucket.
use vstd::prelude::*;
use crate::buckets::{get_str, str_field};
use crate::error::MorayError;
use crate::json::{JsonValue, field, find_key, lemma_first_key};

verus! {

/// An object as one response record reports it. It is built afresh from
/// each record and never changed afterwards.
#[derive(Debug, PartialEq)]
pub struct MorayObject {
    pub bucket: Option<String>,
    pub key: String,
    pub value: JsonValue,
    pub etag: Option<String>,
}

/// Options of the object operations: free-form named settings that the
/// service interprets.
#[derive(Debug, PartialEq)]
pub struct MethodOptions {
    pub entries: Vec<(String, JsonValue)>,
}

/// The operations on objects that stream object records back.
#[derive(Debug, Clone, Copy, PartialEq, Eq)]
pub enum Methods {
    Get,
    Find,
}

impl MethodOptions {
    /// No special options.
    pub fn new() -> (r: MethodOptions)
        ensures
            r.entries@.len() == 0,
    {
        MethodOptions { entries: Vec::new() }
    }
}

pub open spec fn opt_view(o: Option<String>) -> Option<Seq<char>> {
    match o {
        Some(s) => Some(s@),
        None => None,
    }
}

impl MorayObject {
    pub open spec fn view(&self) -> (Option<Seq<char>>, Seq<char>, JsonValue, Option<Seq<char>>) {
        (opt_view(self.bucket), self.key@, self.value, opt_view(self.etag))
    }
}

/// The object that a record describes: a string `key` and a `value` are
/// required; `bucket` and `_etag` are read when they hold strings.
pub open spec fn object_record(v: JsonValue) -> Option<(Option<Seq<char>>, Seq<char>, JsonValue, Option<Seq<char>>)> {
    match v {
        JsonValue::Object(e) => match (str_field(e@, "key"@), field(e@, "value"@)) {
            (Some(k), Some(val)) => Some((str_field(e@, "bucket"@), k, val, str_field(e@, "_etag"@))),
            _ => None,
        },
        _ => None,
    }
}

/// Decodes one object record of a response.
pub fn decode_object(v: JsonValue) -> (r: Result<MorayObject, MorayError>)
    ensures
        r matches Ok(o) ==> object_record(v) == Some(o@),
        r matches Err(e) ==> object_record(v) is None && e is Protocol,
{
    if let JsonValue::Object(mut e) = v {
        let key = get_str(&e, "key");
        let bucket = get_str(&e, "bucket");
        let etag = get_str(&e, "_etag");
        if let Some(i) = find_key(&e, "value") {
            proof { lemma_first_key(e@, "value"@, i as int); }
            if let Some(k) = key {
                let (_, value) = e.swap_remove(i);
                return Ok(MorayObject { bucket, key: k, value, etag });
            }
        }
    }
    Err(MorayError::Protocol("malformed object record".to_string()))
}

} // verus!
