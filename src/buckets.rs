//! Buckets: named collections with an index schema.
use vstd::prelude::*;
use crate::error::MorayError;
use crate::json::{JsonValue, field, find_key, lemma_first_key};

verus! {

/// One indexed field of a bucket: its name and its declared type
/// (`"number"`, `"string"`, `"boolean"`, ...).
#[derive(Debug, Clone, PartialEq)]
pub struct IndexField {
    pub name: String,
    pub kind: String,
}

/// A bucket as the service reports it.
#[derive(Debug, Clone, PartialEq)]
pub struct Bucket {
    pub name: String,
    pub index: Vec<IndexField>,
}

/// Options of the bucket operations: free-form named settings that the
/// service interprets.
#[derive(Debug, PartialEq)]
pub struct MethodOptions {
    pub entries: Vec<(String, JsonValue)>,
}

/// The operations on buckets that stream bucket records back.
#[derive(Debug, Clone, Copy, PartialEq, Eq)]
pub enum Methods {
    List,
    Get,
}

/// A schema as pairs of field name and declared type.
pub open spec fn schema_view(index: Seq<IndexField>) -> Seq<(Seq<char>, Seq<char>)> {
    Seq::new(index.len(), |i: int| (index[i].name@, index[i].kind@))
}

impl Bucket {
    pub open spec fn view(&self) -> (Seq<char>, Seq<(Seq<char>, Seq<char>)>) {
        (self.name@, schema_view(self.index@))
    }
}

impl MethodOptions {
    /// No special options.
    pub fn new() -> (r: MethodOptions)
        ensures
            r.entries@.len() == 0,
    {
        MethodOptions { entries: Vec::new() }
    }
}

/// The text of a string-valued entry named `k`.
pub open spec fn str_field(entries: Seq<(String, JsonValue)>, k: Seq<char>) -> Option<Seq<char>> {
    match field(entries, k) {
        Some(JsonValue::Str(s)) => Some(s@),
        _ => None,
    }
}

/// The declared type held by one entry of an index description.
pub open spec fn declared_type(v: JsonValue) -> Option<Seq<char>> {
    match v {
        JsonValue::Object(f) => str_field(f@, "type"@),
        _ => None,
    }
}

/// Every entry of an index description declares a type.
pub open spec fn index_ok(idx: Seq<(String, JsonValue)>) -> bool {
    forall|i: int| 0 <= i < idx.len() ==> (#[trigger] declared_type(idx[i].1)) is Some
}

/// The schema that an index description declares.
pub open spec fn index_schema(idx: Seq<(String, JsonValue)>) -> Seq<(Seq<char>, Seq<char>)> {
    Seq::new(idx.len(), |i: int| (idx[i].0@, declared_type(idx[i].1)->Some_0))
}

/// The bucket that a record describes: a non-empty name and an index
/// whose every field declares a type.
pub open spec fn bucket_record(v: JsonValue) -> Option<(Seq<char>, Seq<(Seq<char>, Seq<char>)>)> {
    match v {
        JsonValue::Object(e) => match (str_field(e@, "name"@), field(e@, "index"@)) {
            (Some(n), Some(JsonValue::Object(idx))) => if n.len() > 0 && index_ok(idx@) {
                Some((n, index_schema(idx@)))
            } else {
                None
            },
            _ => None,
        },
        _ => None,
    }
}

/// The text of the first entry named `key`, when it is a string.
pub fn get_str(entries: &Vec<(String, JsonValue)>, key: &str) -> (r: Option<String>)
    ensures
        r matches Some(s) ==> str_field(entries@, key@) == Some(s@),
        r is None ==> str_field(entries@, key@) is None,
{
    match find_key(entries, key) {
        Some(i) => {
            proof { lemma_first_key(entries@, key@, i as int); }
            match &entries[i].1 {
                JsonValue::Str(s) => Some(s.clone()),
                _ => None,
            }
        },
        None => None,
    }
}

/// Reads one index description into a schema.
fn decode_index(idx: &Vec<(String, JsonValue)>) -> (r: Option<Vec<IndexField>>)
    ensures
        r is Some <==> index_ok(idx@),
        r matches Some(fs) ==> schema_view(fs@) == index_schema(idx@),
{
    let mut fields: Vec<IndexField> = Vec::new();
    let mut i: usize = 0;
    while i < idx.len()
        invariant
            i <= idx.len(),
            fields@.len() == i,
            forall|j: int| 0 <= j < i ==> (#[trigger] declared_type(idx@[j].1)) is Some,
            forall|j: int| 0 <= j < i ==> (#[trigger] fields@[j]).name@ == idx@[j].0@
                && fields@[j].kind@ == declared_type(idx@[j].1)->Some_0,
        decreases idx.len() - i,
    {
        let kind = match &idx[i].1 {
            JsonValue::Object(f) => get_str(f, "type"),
            _ => None,
        };
        match kind {
            Some(k) => {
                fields.push(IndexField { name: idx[i].0.clone(), kind: k });
            },
            None => {
                assert(declared_type(idx@[i as int].1) is None);
                return None;
            },
        }
        i = i + 1;
    }
    assert(schema_view(fields@) =~= index_schema(idx@));
    Some(fields)
}

/// Decodes one bucket record of a response.
pub fn decode_bucket(v: &JsonValue) -> (r: Result<Bucket, MorayError>)
    ensures
        r matches Ok(b) ==> bucket_record(*v) == Some(b@),
        r matches Err(e) ==> bucket_record(*v) is None && e is Protocol,
{
    if let JsonValue::Object(e) = v {
        let name = get_str(e, "name");
        let index = match find_key(e, "index") {
            Some(i) => {
                proof { lemma_first_key(e@, "index"@, i as int); }
                match &e[i].1 {
                    JsonValue::Object(idx) => decode_index(idx),
                    _ => None,
                }
            },
            None => None,
        };
        match (name, index) {
            (Some(n), Some(fs)) => {
                if !n.as_str().is_empty() {
                    return Ok(Bucket { name: n, index: fs });
                }
            },
            _ => {},
        }
    }
    Err(MorayError::Protocol("malformed bucket record".to_string()))
}

/// `idx` describes `index` field by field, in order.
pub open spec fn describes_index(idx: Seq<(String, JsonValue)>, index: Seq<IndexField>) -> bool {
    &&& idx.len() == index.len()
    &&& forall|i: int| 0 <= i < idx.len() ==> (#[trigger] idx[i]).0@ == index[i].name@
        && declared_type(idx[i].1) == Some(index[i].kind@)
}

/// The configuration that creates a bucket with the given index schema:
/// `{"index": {<field>: {"type": <kind>}, ...}}`.
pub fn bucket_config(index: &Vec<IndexField>) -> (r: JsonValue)
    ensures
        r matches JsonValue::Object(e) && e@.len() == 1 && e@[0].0@ == "index"@
            && (e@[0].1 matches JsonValue::Object(idx) && describes_index(idx@, index@)),
{
    let mut idx: Vec<(String, JsonValue)> = Vec::new();
    let mut i: usize = 0;
    while i < index.len()
        invariant
            i <= index.len(),
            idx@.len() == i,
            forall|j: int| 0 <= j < i ==> (#[trigger] idx@[j]).0@ == index@[j].name@
                && declared_type(idx@[j].1) == Some(index@[j].kind@),
        decreases index.len() - i,
    {
        let mut decl: Vec<(String, JsonValue)> = Vec::new();
        decl.push(("type".to_string(), JsonValue::Str(index[i].kind.clone())));
        proof { lemma_first_key(decl@, "type"@, 0); }
        idx.push((index[i].name.clone(), JsonValue::Object(decl)));
        i = i + 1;
    }
    let mut e: Vec<(String, JsonValue)> = Vec::new();
    e.push(("index".to_string(), JsonValue::Object(idx)));
    JsonValue::Object(e)
}

/// A bucket created from a configuration that describes `index`, when the
/// service reports it back under the same name with that same index
/// description, decodes to exactly that name and schema: no field is
/// added, dropped or changed.
pub proof fn lemma_created_schema_read_back(
    name: String,
    index: Seq<IndexField>,
    idx: Vec<(String, JsonValue)>,
    record: Vec<(String, JsonValue)>,
)
    requires
        name@.len() > 0,
        describes_index(idx@, index),
        record@.len() == 2,
        record@[0].0@ == "name"@,
        record@[0].1 == JsonValue::Str(name),
        record@[1].0@ == "index"@,
        record@[1].1 == JsonValue::Object(idx),
    ensures
        bucket_record(JsonValue::Object(record)) == Some((name@, schema_view(index))),
{
    reveal_strlit("name");
    reveal_strlit("index");
    assert("name"@[0] != "index"@[0]);
    lemma_first_key(record@, "name"@, 0);
    lemma_first_key(record@, "index"@, 1);
    assert(index_ok(idx@));
    assert(index_schema(idx@) =~= schema_view(index));
}

} // verus!
