//! A plain model of the structured values exchanged with the service.
use vstd::prelude::*;

verus! {

/// A structured value, as it travels in requests and response frames.
/// Numbers keep their textual form, so no precision is lost on the way.
#[derive(Debug, PartialEq)]
pub enum JsonValue {
    Null,
    Bool(bool),
    Number(String),
    Str(String),
    Array(Vec<JsonValue>),
    Object(Vec<(String, JsonValue)>),
}

/// `i` is the first position of an entry named `k`.
pub open spec fn is_first_key(entries: Seq<(String, JsonValue)>, k: Seq<char>, i: int) -> bool {
    &&& 0 <= i < entries.len()
    &&& entries[i].0@ == k
    &&& forall|j: int| 0 <= j < i ==> entries[j].0@ != k
}

/// Some entry of `entries` is named `k`.
pub open spec fn has_key(entries: Seq<(String, JsonValue)>, k: Seq<char>) -> bool {
    exists|i: int| 0 <= i < entries.len() && entries[i].0@ == k
}

/// The value of the first entry named `k`, if there is one.
pub open spec fn field(entries: Seq<(String, JsonValue)>, k: Seq<char>) -> Option<JsonValue> {
    if has_key(entries, k) {
        Some(entries[choose|i: int| is_first_key(entries, k, i)].1)
    } else {
        None
    }
}

/// A key that occurs has exactly one first position, and `field` reads it.
pub proof fn lemma_first_key(entries: Seq<(String, JsonValue)>, k: Seq<char>, i: int)
    requires
        is_first_key(entries, k, i),
    ensures
        has_key(entries, k),
        field(entries, k) == Some(entries[i].1),
{
    let c = choose|c: int| is_first_key(entries, k, c);
    assert(is_first_key(entries, k, c));
    if c < i {
        assert(entries[c].0@ != k);
    } else if i < c {
        assert(entries[i].0@ != k);
    }
}

/// Finds the first entry named `key`.
pub fn find_key(entries: &Vec<(String, JsonValue)>, key: &str) -> (r: Option<usize>)
    ensures
        r matches Some(i) ==> is_first_key(entries@, key@, i as int),
        r is None <==> !has_key(entries@, key@),
{
    let wanted: String = key.to_owned();
    let mut i: usize = 0;
    while i < entries.len()
        invariant
            i <= entries.len(),
            forall|j: int| 0 <= j < i ==> entries@[j].0@ != key@,
            wanted@ == key@,
        decreases entries.len() - i,
    {
        if entries[i].0 == wanted {
            return Some(i);
        }
        i = i + 1;
    }
    None
}

} // verus!
