//! Requests: a method name and its ordered arguments.
use vstd::prelude::*;
use crate::buckets;
use crate::json::JsonValue;
use crate::objects;

verus! {

/// One request as the transport sends it.
#[derive(Debug, PartialEq)]
pub struct Request {
    pub method: String,
    pub args: Vec<JsonValue>,
}

/// `v` is the string `s`.
pub open spec fn is_str(v: JsonValue, s: Seq<char>) -> bool {
    v matches JsonValue::Str(t) && t@ == s
}

/// `v` is an array of the strings `ss`, in order.
pub open spec fn is_str_array(v: JsonValue, ss: Seq<&str>) -> bool {
    v matches JsonValue::Array(a) && a@.len() == ss.len()
        && forall|i: int| 0 <= i < ss.len() ==> is_str(#[trigger] a@[i], ss[i]@)
}

fn str_value(s: &str) -> (r: JsonValue)
    ensures
        is_str(r, s@),
{
    JsonValue::Str(s.to_string())
}

fn request(method: &str, args: Vec<JsonValue>) -> (r: Request)
    ensures
        r.method@ == method@,
        r.args == args,
{
    Request { method: method.to_string(), args }
}

/// Lists every bucket: `listBuckets [options]`.
pub fn list_buckets_request(opts: buckets::MethodOptions) -> (r: Request)
    ensures
        r.method@ == "listBuckets"@,
        r.args@ == seq![JsonValue::Object(opts.entries)],
{
    request("listBuckets", vec![JsonValue::Object(opts.entries)])
}

/// Reads one bucket: `getBucket [name, options]`.
pub fn get_bucket_request(name: &str, opts: buckets::MethodOptions) -> (r: Request)
    ensures
        r.method@ == "getBucket"@,
        r.args@.len() == 2,
        is_str(r.args@[0], name@),
        r.args@[1] == JsonValue::Object(opts.entries),
{
    request("getBucket", vec![str_value(name), JsonValue::Object(opts.entries)])
}

/// The request of a bucket operation that streams buckets back; the name
/// is not sent when listing.
pub fn bucket_request(method: buckets::Methods, name: &str, opts: buckets::MethodOptions) -> (r: Request)
    ensures
        method == buckets::Methods::List ==> r.method@ == "listBuckets"@
            && r.args@ == seq![JsonValue::Object(opts.entries)],
        method == buckets::Methods::Get ==> r.method@ == "getBucket"@ && r.args@.len() == 2
            && is_str(r.args@[0], name@) && r.args@[1] == JsonValue::Object(opts.entries),
{
    match method {
        buckets::Methods::List => list_buckets_request(opts),
        buckets::Methods::Get => get_bucket_request(name, opts),
    }
}

/// Creates a bucket: `createBucket [name, config, options]`.
pub fn create_bucket_request(name: &str, config: JsonValue, opts: buckets::MethodOptions) -> (r: Request)
    ensures
        r.method@ == "createBucket"@,
        r.args@.len() == 3,
        is_str(r.args@[0], name@),
        r.args@[1] == config,
        r.args@[2] == JsonValue::Object(opts.entries),
{
    request("createBucket", vec![str_value(name), config, JsonValue::Object(opts.entries)])
}

/// The request of an object operation that streams objects back:
/// `getObject [bucket, key, options]` or `findObjects [bucket, filter, options]`.
pub fn object_request(method: objects::Methods, bucket: &str, key_or_filter: &str, opts: objects::MethodOptions) -> (r: Request)
    ensures
        method == objects::Methods::Get ==> r.method@ == "getObject"@,
        method == objects::Methods::Find ==> r.method@ == "findObjects"@,
        r.args@.len() == 3,
        is_str(r.args@[0], bucket@),
        is_str(r.args@[1], key_or_filter@),
        r.args@[2] == JsonValue::Object(opts.entries),
{
    let args = vec![str_value(bucket), str_value(key_or_filter), JsonValue::Object(opts.entries)];
    match method {
        objects::Methods::Get => request("getObject", args),
        objects::Methods::Find => request("findObjects", args),
    }
}

/// Stores an object: `putObject [bucket, key, value, options]`.
pub fn put_object_request(bucket: &str, key: &str, value: JsonValue, opts: objects::MethodOptions) -> (r: Request)
    ensures
        r.method@ == "putObject"@,
        r.args@.len() == 4,
        is_str(r.args@[0], bucket@),
        is_str(r.args@[1], key@),
        r.args@[2] == value,
        r.args@[3] == JsonValue::Object(opts.entries),
{
    request("putObject", vec![str_value(bucket), str_value(key), value, JsonValue::Object(opts.entries)])
}

/// Runs a statement: `sql [statement, bound values, options]`.
pub fn sql_request(stmt: &str, vals: &Vec<&str>, opts: JsonValue) -> (r: Request)
    ensures
        r.method@ == "sql"@,
        r.args@.len() == 3,
        is_str(r.args@[0], stmt@),
        is_str_array(r.args@[1], vals@),
        r.args@[2] == opts,
{
    let mut bound: Vec<JsonValue> = Vec::new();
    let mut i: usize = 0;
    while i < vals.len()
        invariant
            i <= vals.len(),
            bound@.len() == i,
            forall|j: int| 0 <= j < i ==> is_str(#[trigger] bound@[j], vals@[j]@),
        decreases vals.len() - i,
    {
        bound.push(str_value(vals[i]));
        i = i + 1;
    }
    request("sql", vec![str_value(stmt), JsonValue::Array(bound), opts])
}

} // verus!
