//! JSON trees: their mathematical model, and the contracts under which the
//! values of `serde_json` are read and built.
//!
//! Everything the binding proves about a document is stated over [`JsonV`].
//! What `serde_json` itself does (parsing, printing, storing a value) is not
//! proved here: each item that speaks for it says so. What is said of objects
//! holds of `serde_json` with its feature `preserve_order`, under which an
//! object keeps its members in the order of their insertion.

use vstd::prelude::*;
use serde_json::{Number, Value};

verus! {

/// A JSON number as `serde_json` tells them apart: a non-negative integer, a
/// negative integer, or anything else, given by the bits of its 64-bit
/// IEEE-754 form.
pub enum NumberV {
    PosInt(u64),
    NegInt(i64),
    Float(u64),
}

/// A JSON tree. An object is the sequence of its members in document order.
pub enum JsonV {
    Null,
    Bool(bool),
    Number(NumberV),
    Text(Seq<char>),
    Array(Seq<JsonV>),
    Object(Seq<(Seq<char>, JsonV)>),
}

/// The six kinds of JSON value.
#[derive(Clone, Copy, Debug, PartialEq, Eq, Structural)]
pub enum Kind {
    Null,
    Boolean,
    Number,
    String,
    Array,
    Object,
}

impl Kind {
    /// The kind of a value.
    pub fn of(v: &Value) -> (k: Kind)
        ensures
            k == kind(value_tree(*v)),
    {
        kind_of(v)
    }
}

/// The kind of a tree.
pub open spec fn kind(t: JsonV) -> Kind {
    match t {
        JsonV::Null => Kind::Null,
        JsonV::Bool(_) => Kind::Boolean,
        JsonV::Number(_) => Kind::Number,
        JsonV::Text(_) => Kind::String,
        JsonV::Array(_) => Kind::Array,
        JsonV::Object(_) => Kind::Object,
    }
}

/// The position of the first entry under `key`, or `-1` where there is none.
#[verifier::opaque]
pub open spec fn index_of<V>(entries: Seq<(Seq<char>, V)>, key: Seq<char>) -> int
    decreases entries.len(),
{
    if entries.len() == 0 {
        -1
    } else {
        let before = index_of(entries.drop_last(), key);
        if before >= 0 {
            before
        } else if entries.last().0 == key {
            entries.len() - 1
        } else {
            -1
        }
    }
}

/// The value of the first entry under `key`.
#[verifier::opaque]
pub open spec fn find<V>(entries: Seq<(Seq<char>, V)>, key: Seq<char>) -> Option<V> {
    let i = index_of(entries, key);
    if 0 <= i < entries.len() {
        Some(entries[i].1)
    } else {
        None
    }
}

/// Whether some entry stands under `key`.
#[verifier::opaque]
pub open spec fn has_key<V>(entries: Seq<(Seq<char>, V)>, key: Seq<char>) -> bool {
    index_of(entries, key) >= 0
}

/// `entries` with `key` set to `value`: an entry already under `key` keeps its
/// place and takes the new value, otherwise the entry is added at the end.
pub open spec fn with_entry<V>(entries: Seq<(Seq<char>, V)>, key: Seq<char>, value: V) -> Seq<
    (Seq<char>, V),
> {
    let i = index_of(entries, key);
    if 0 <= i < entries.len() {
        entries.update(i, (key, value))
    } else {
        entries.push((key, value))
    }
}

/// No two entries share a key.
pub open spec fn distinct_keys<V>(entries: Seq<(Seq<char>, V)>) -> bool {
    forall|i: int, j: int|
        0 <= i < j < entries.len() ==> (#[trigger] entries[i]).0 != (#[trigger] entries[j]).0
}

/// `index_of` answers with a position of `entries` or with `-1`; a position it
/// gives holds `key`, and no earlier one does.
pub proof fn lemma_index_of<V>(entries: Seq<(Seq<char>, V)>, key: Seq<char>)
    ensures
        -1 <= index_of(entries, key) < entries.len(),
        index_of(entries, key) >= 0 ==> entries[index_of(entries, key)].0 == key,
        forall|k: int|
            0 <= k < entries.len() && (index_of(entries, key) < 0 || k < index_of(entries, key))
                ==> (#[trigger] entries[k]).0 != key,
    decreases entries.len(),
{
    reveal_with_fuel(index_of, 2);
    if entries.len() > 0 {
        lemma_index_of(entries.drop_last(), key);
        let before = index_of(entries.drop_last(), key);
        assert forall|k: int|
            0 <= k < entries.len() && (index_of(entries, key) < 0 || k < index_of(
                entries,
                key,
            )) implies (#[trigger] entries[k]).0 != key by {
            if k < entries.len() - 1 {
                assert(entries.drop_last()[k] == entries[k]);
            }
        }
    }
}

/// Where no earlier entry holds the key of entry `i`, `index_of` finds `i`.
pub proof fn lemma_index_of_first<V>(entries: Seq<(Seq<char>, V)>, i: int)
    requires
        0 <= i < entries.len(),
        forall|k: int| 0 <= k < i ==> (#[trigger] entries[k]).0 != entries[i].0,
    ensures
        index_of(entries, entries[i].0) == i,
{
    lemma_index_of(entries, entries[i].0);
}

/// Reading a key after setting one: the key that was set yields the new value,
/// every other key what it yielded before.
pub proof fn lemma_find_with_entry<V>(
    entries: Seq<(Seq<char>, V)>,
    key: Seq<char>,
    value: V,
    other: Seq<char>,
)
    ensures
        find(with_entry(entries, key, value), other) == if other == key {
            Some(value)
        } else {
            find(entries, other)
        },
        has_key(with_entry(entries, key, value), other) == (other == key || has_key(
            entries,
            other,
        )),
{
    reveal(find);
    reveal(has_key);
    let after = with_entry(entries, key, value);
    let i = index_of(entries, key);
    lemma_index_of(entries, key);
    lemma_index_of(entries, other);
    lemma_index_of(after, other);
    let a = index_of(after, other);
    let b = index_of(entries, other);
    if 0 <= i {
        assert(after.len() == entries.len());
        assert(forall|k: int| 0 <= k < entries.len() ==> (#[trigger] after[k]).0 == entries[k].0);
        if other == key {
            if a < 0 {
                assert(after[i].0 == key);
            } else if a < i {
                assert(entries[a].0 != key);
            } else if a > i {
                assert(after[i].0 == key);
            }
        } else {
            if b >= 0 {
                if a < 0 || a > b {
                    assert(after[b].0 == other);
                } else if a < b {
                    assert(entries[a].0 != other);
                }
            } else {
                if a >= 0 {
                    assert(entries[a].0 != other);
                }
            }
        }
    } else {
        assert(after.len() == entries.len() + 1);
        assert(forall|k: int| 0 <= k < entries.len() ==> (#[trigger] after[k]) == entries[k]);
        assert(after[entries.len() as int] == (key, value));
        if other == key {
            if a < 0 {
                assert(after[entries.len() as int].0 == key);
            } else if a < entries.len() {
                assert(entries[a].0 != key);
            }
        } else {
            if b >= 0 {
                if a < 0 || a > b {
                    assert(after[b].0 == other);
                } else if a < b {
                    assert(entries[a].0 != other);
                }
            } else {
                if a >= 0 {
                    if a < entries.len() {
                        assert(entries[a].0 != other);
                    }
                }
            }
        }
    }
}

/// What `find` yields stands in the sequence, under the key, before any other
/// entry under the key; and a key is present exactly where `find` yields a
/// value.
pub proof fn lemma_find<V>(entries: Seq<(Seq<char>, V)>, key: Seq<char>)
    ensures
        has_key(entries, key) == (find(entries, key) is Some),
        find(entries, key) is Some ==> {
            &&& 0 <= index_of(entries, key) < entries.len()
            &&& entries[index_of(entries, key)] == (key, find(entries, key)->0)
        },
        find(entries, key) is None ==> forall|k: int|
            0 <= k < entries.len() ==> (#[trigger] entries[k]).0 != key,
{
    reveal(find);
    reveal(has_key);
    lemma_index_of(entries, key);
}

/// The key of every entry is present.
pub proof fn lemma_key_present<V>(entries: Seq<(Seq<char>, V)>, i: int)
    requires
        0 <= i < entries.len(),
    ensures
        has_key(entries, entries[i].0),
{
    reveal(has_key);
    lemma_index_of(entries, entries[i].0);
}

/// What `find` yields is smaller than the sequence, so that a recursion over
/// the members of a tree ends.
pub proof fn lemma_find_decreases<V>(entries: Seq<(Seq<char>, V)>, key: Seq<char>)
    ensures
        find(entries, key) matches Some(t) ==> decreases_to!(entries => t),
{
    lemma_find(entries, key);
    if find(entries, key) is Some {
        let i = index_of(entries, key);
        assert(decreases_to!(entries => entries[i]));
        assert(decreases_to!(entries[i] => entries[i].1));
    }
}

/// Setting a key that no entry holds adds the entry at the end.
pub proof fn lemma_with_entry_fresh<V>(entries: Seq<(Seq<char>, V)>, key: Seq<char>, value: V)
    requires
        forall|k: int| 0 <= k < entries.len() ==> (#[trigger] entries[k]).0 != key,
    ensures
        with_entry(entries, key, value) == entries.push((key, value)),
{
    lemma_index_of(entries, key);
}

/// The trees of a sequence of values.
pub open spec fn trees(values: Seq<Value>) -> Seq<JsonV> {
    values.map_values(|v: Value| value_tree(v))
}

/// The members that a sequence of borrowed pairs stands for.
pub open spec fn members(pairs: Seq<(&String, &Value)>) -> Seq<(Seq<char>, JsonV)> {
    pairs.map_values(|p: (&String, &Value)| (p.0@, value_tree(*p.1)))
}

/// `serde_json::Value`, as a type that verified code holds and hands on
/// without looking into it.
#[verifier::external_type_specification]
#[verifier::external_body]
pub struct ExValue(serde_json::Value);

/// `serde_json::Number`, held and handed on in the same way.
#[verifier::external_type_specification]
#[verifier::external_body]
pub struct ExNumber(serde_json::Number);

/// `serde_json::Error`, held and handed on in the same way.
#[verifier::external_type_specification]
#[verifier::external_body]
pub struct ExSyntaxError(serde_json::Error);

/// The tree that a `serde_json::Value` holds.
pub uninterp spec fn value_tree(v: Value) -> JsonV;

/// The number that a `serde_json::Number` holds.
pub uninterp spec fn number_model(n: Number) -> NumberV;

/// The tree that `serde_json` reads from a text, where it accepts the text.
pub uninterp spec fn parsed(text: Seq<u8>) -> Option<JsonV>;

/// The compact text that `serde_json` writes for a tree.
pub uninterp spec fn printed(t: JsonV) -> Seq<char>;

/// `serde_json::Value::as_bool`: the boolean of a `Bool`, nothing for any
/// other variant.
pub assume_specification[ serde_json::Value::as_bool ](v: &serde_json::Value) -> (r: Option<bool>)
    ensures
        r == (match value_tree(*v) {
            JsonV::Bool(b) => Some(b),
            _ => None,
        }),
;

/// `serde_json::Value::as_str`: the text of a `String`, nothing for any other
/// variant.
pub assume_specification<'a>[ serde_json::Value::as_str ](v: &'a serde_json::Value) -> (r: Option<
    &'a str,
>)
    ensures
        match value_tree(*v) {
            JsonV::Text(s) => r is Some && r->0@ == s,
            _ => r is None,
        },
;

/// `serde_json::Value::as_u64`: the integer of a number stored as a
/// non-negative integer, nothing for any other number or variant.
pub assume_specification[ serde_json::Value::as_u64 ](v: &serde_json::Value) -> (r: Option<u64>)
    ensures
        r == (match value_tree(*v) {
            JsonV::Number(NumberV::PosInt(n)) => Some(n),
            _ => None,
        }),
;

/// `serde_json::Value::as_number`: the number of a `Number`, nothing for any
/// other variant.
pub assume_specification<'a>[ serde_json::Value::as_number ](v: &'a serde_json::Value) -> (r: Option<
    &'a serde_json::Number,
>)
    ensures
        match value_tree(*v) {
            JsonV::Number(n) => r is Some && number_model(*r->0) == n,
            _ => r is None,
        },
;

/// `serde_json::Value::as_array`: the elements of an `Array`, nothing for any
/// other variant.
pub assume_specification<'a>[ serde_json::Value::as_array ](v: &'a serde_json::Value) -> (r: Option<
    &'a Vec<serde_json::Value>,
>)
    ensures
        match value_tree(*v) {
            JsonV::Array(s) => r is Some && trees(r->0@) == s,
            _ => r is None,
        },
;

/// `Clone` of `serde_json::Value`: the copy holds the same tree.
pub assume_specification[ <serde_json::Value as Clone>::clone ](
    v: &serde_json::Value,
) -> (r: serde_json::Value)
    ensures
        value_tree(r) == value_tree(*v),
;

/// `Clone` of `serde_json::Number`: the copy holds the same number.
pub assume_specification[ <serde_json::Number as Clone>::clone ](
    n: &serde_json::Number,
) -> (r: serde_json::Number)
    ensures
        number_model(r) == number_model(*n),
;

/// `serde_json::Error::line`: the line at which the parser stopped.
pub assume_specification[ serde_json::Error::line ](e: &serde_json::Error) -> (line: usize)
;

/// `serde_json::Error::column`: the column at which the parser stopped.
pub assume_specification[ serde_json::Error::column ](e: &serde_json::Error) -> (column: usize)
;

/// The `Display` text of a `serde_json::Error`.
#[verifier::external_body]
pub(crate) fn diagnostic(e: &serde_json::Error) -> (message: String) {
    e.to_string()
}

/// Tells the variants of `serde_json::Value` apart.
#[verifier::external_body]
pub(crate) fn kind_of(v: &Value) -> (k: Kind)
    ensures
        k == kind(value_tree(*v)),
{
    match v {
        Value::Null => Kind::Null,
        Value::Bool(_) => Kind::Boolean,
        Value::Number(_) => Kind::Number,
        Value::String(_) => Kind::String,
        Value::Array(_) => Kind::Array,
        Value::Object(_) => Kind::Object,
    }
}

/// `serde_json::Value::get` with a string index: the value under `key` where
/// `v` is an object that holds the key, nothing otherwise. The keys of an
/// object are distinct, so the first entry under a key is the only one.
#[verifier::external_body]
pub(crate) fn member<'a>(v: &'a Value, key: &str) -> (r: Option<&'a Value>)
    ensures
        match value_tree(*v) {
            JsonV::Object(entries) => match find(entries, key@) {
                Some(t) => r is Some && value_tree(*r->0) == t,
                None => r is None,
            },
            _ => r is None,
        },
{
    v.get(key)
}

/// `serde_json::Value::as_object` and `serde_json::Map::iter`: the members of
/// an object in their order, nothing for any other variant. No key occurs
/// twice.
#[verifier::external_body]
pub(crate) fn entries_of<'a>(v: &'a Value) -> (r: Option<Vec<(&'a String, &'a Value)>>)
    ensures
        match value_tree(*v) {
            JsonV::Object(entries) => r is Some && members(r->0@) == entries && distinct_keys(
                entries,
            ),
            _ => r is None,
        },
{
    v.as_object().map(|m| m.iter().collect())
}

/// The variant `serde_json::Value::Null`.
#[verifier::external_body]
pub(crate) fn null_value() -> (v: Value)
    ensures
        value_tree(v) == JsonV::Null,
{
    Value::Null
}

/// The variant `serde_json::Value::Bool`.
#[verifier::external_body]
pub(crate) fn bool_value(b: bool) -> (v: Value)
    ensures
        value_tree(v) == JsonV::Bool(b),
{
    Value::Bool(b)
}

/// `From<u64>` of `serde_json::Value`: the number stored as a non-negative
/// integer.
#[verifier::external_body]
pub(crate) fn unsigned_value(n: u64) -> (v: Value)
    ensures
        value_tree(v) == JsonV::Number(NumberV::PosInt(n)),
{
    Value::from(n)
}

/// The variant `serde_json::Value::Number`.
#[verifier::external_body]
pub(crate) fn number_value(n: Number) -> (v: Value)
    ensures
        value_tree(v) == JsonV::Number(number_model(n)),
{
    Value::Number(n)
}

/// The variant `serde_json::Value::String`.
#[verifier::external_body]
pub(crate) fn text_value(s: String) -> (v: Value)
    ensures
        value_tree(v) == JsonV::Text(s@),
{
    Value::String(s)
}

/// The variant `serde_json::Value::Array`.
#[verifier::external_body]
pub(crate) fn array_value(items: Vec<Value>) -> (v: Value)
    ensures
        value_tree(v) == JsonV::Array(trees(items@)),
{
    Value::Array(items)
}

/// An object without members: `serde_json::Map::new` in the variant
/// `serde_json::Value::Object`.
#[verifier::external_body]
pub(crate) fn empty_object() -> (v: Value)
    ensures
        value_tree(v) == JsonV::Object(Seq::empty()),
{
    Value::Object(serde_json::Map::new())
}

/// `serde_json::Map::insert` on the members of an object: a member already
/// under the key keeps its place and takes the new value, otherwise the
/// member is added last.
#[verifier::external_body]
pub(crate) fn set_member(object: &mut Value, key: String, value: Value)
    requires
        value_tree(*old(object)) is Object,
    ensures
        value_tree(*final(object)) == JsonV::Object(
            with_entry(value_tree(*old(object))->Object_0, key@, value_tree(value)),
        ),
{
    if let Value::Object(m) = object {
        m.insert(key, value);
    }
}

/// `serde_json::from_slice` at the type `serde_json::Value`: the tree of the
/// text, or the parser's error where it rejects the text.
#[verifier::external_body]
pub(crate) fn parse_value(text: &[u8]) -> (r: Result<Value, serde_json::Error>)
    ensures
        match r {
            Ok(v) => parsed(text@) == Some(value_tree(v)),
            Err(_) => parsed(text@) is None,
        },
{
    serde_json::from_slice::<Value>(text)
}

/// The `Display` text of a `serde_json::Value`, which is the compact form.
#[verifier::external_body]
pub(crate) fn print_value(v: &Value) -> (s: String)
    ensures
        s@ == printed(value_tree(*v)),
{
    v.to_string()
}

/// Equality of two string slices.
#[verifier::external_body]
pub(crate) fn same_text(a: &str, b: &str) -> (r: bool)
    ensures
        r == (a@ == b@),
{
    a == b
}

} // verus!
