//! The structured wire value that both directions of the schema speak of:
//! inbound payloads are read from it, outbound payloads are built as one.

use vstd::prelude::*;

verus! {

/// One structured wire value. A number is carried as its wire text, so the
/// schema constrains neither numeric range nor precision; an object keeps its
/// entries in wire order.
#[derive(Debug, PartialEq)]
pub enum Value {
    Null,
    Bool(bool),
    Num(String),
    Str(String),
    Arr(Vec<Value>),
    Obj(Vec<(String, Value)>),
}

/// The entries of an object value, in wire order; the empty sequence when the
/// value is not an object.
pub open spec fn obj_entries(v: Value) -> Seq<(String, Value)> {
    match v {
        Value::Obj(entries) => entries@,
        _ => Seq::empty(),
    }
}

/// Object lookup: the value of the first entry whose key reads `key`, if any.
/// Among duplicate keys the first occurrence wins.
pub open spec fn lookup(entries: Seq<(String, Value)>, key: Seq<char>) -> Option<Value>
    decreases entries.len(),
{
    if entries.len() == 0 {
        None
    } else if entries[0].0@ == key {
        Some(entries[0].1)
    } else {
        lookup(entries.drop_first(), key)
    }
}

/// How `lookup` grows when one entry is appended: an earlier match keeps
/// winning, otherwise the new entry decides.
pub proof fn lemma_lookup_push(entries: Seq<(String, Value)>, entry: (String, Value), key: Seq<char>)
    ensures
        lookup(entries.push(entry), key) == (if lookup(entries, key) is Some {
            lookup(entries, key)
        } else if entry.0@ == key {
            Some(entry.1)
        } else {
            None::<Value>
        }),
    decreases entries.len(),
{
    if entries.len() == 0 {
        assert(entries.push(entry)[0] == entry);
        if entry.0@ != key {
            assert(entries.push(entry).drop_first() =~= entries);
        }
    } else {
        assert(entries.push(entry)[0] == entries[0]);
        assert(entries.push(entry).drop_first() =~= entries.drop_first().push(entry));
        lemma_lookup_push(entries.drop_first(), entry, key);
    }
}

/// Relies on `str`'s `==` (its `PartialEq`), which std documents as equality
/// of the two character sequences.
#[verifier::external_body]
pub(crate) fn str_eq(a: &str, b: &str) -> (r: bool)
    ensures
        r == (a@ == b@),
{
    a == b
}

} // verus!
