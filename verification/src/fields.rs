//! The members of a record: how each kind of field is read from an object
//! and written to one.
//!
//! An optional field is left out when it is absent and read as absent from a
//! missing key or from `null`. A list, a mapping or a flag is left out when
//! it is empty or `false` and read as such from a missing key. A required
//! field is always written, and a missing key is an error.

use vstd::prelude::*;
use serde_json::Value;
use crate::binding::Binding;
use crate::error::{missing, outcome, DecodeError, DecodeErrorV};
use crate::json::{
    bool_value, find, has_key, index_of, kind_of, lemma_find, lemma_find_with_entry, member,
    null_value, set_member, value_tree, with_entry, JsonV, Kind,
};
use crate::model::Model;
use crate::ordered::OrderedMap;

verus! {

/// The members of an object.
pub type Members = Seq<(Seq<char>, JsonV)>;

/// `entries` with `key` set to `value` where there is one, and unchanged
/// where there is none.
#[verifier::opaque]
pub open spec fn with_member(entries: Members, key: Seq<char>, value: Option<JsonV>) -> Members {
    match value {
        Some(t) => with_entry(entries, key, t),
        None => entries,
    }
}

/// What reading a key gives after members were set: the key set last with a
/// value yields that value, and every other key what it yielded before. An
/// object without members yields nothing.
pub proof fn lemma_with_member()
    ensures
        forall|entries: Members, key: Seq<char>, value: Option<JsonV>, other: Seq<char>|
            #[trigger] find(with_member(entries, key, value), other) == if other == key
                && value is Some {
                value
            } else {
                find(entries, other)
            },
        forall|entries: Members, key: Seq<char>, value: Option<JsonV>, other: Seq<char>|
            #[trigger] has_key(with_member(entries, key, value), other) == ((other == key
                && value is Some)
                || has_key(entries, other)),
        forall|other: Seq<char>| #[trigger] find(Seq::<(Seq<char>, JsonV)>::empty(), other) is None,
        forall|other: Seq<char>| !#[trigger] has_key(Seq::<(Seq<char>, JsonV)>::empty(), other),
{
    reveal(with_member);
    reveal(find);
    reveal(has_key);
    reveal_with_fuel(index_of, 2);
    assert forall|entries: Members, key: Seq<char>, value: Option<JsonV>, other: Seq<char>|
        #[trigger] find(with_member(entries, key, value), other) == if other == key
            && value is Some {
            value
        } else {
            find(entries, other)
        } by {
        if value is Some {
            lemma_find_with_entry(entries, key, value->0, other);
        }
    }
    assert forall|entries: Members, key: Seq<char>, value: Option<JsonV>, other: Seq<char>|
        #[trigger] has_key(with_member(entries, key, value), other) == ((other == key
            && value is Some)
            || has_key(entries, other)) by {
        if value is Some {
            lemma_find_with_entry(entries, key, value->0, other);
        }
    }
}

/// A key is present exactly where reading it yields a value.
pub proof fn lemma_has_key(entries: Members, key: Seq<char>)
    ensures
        has_key(entries, key) == (find(entries, key) is Some),
{
    lemma_find(entries, key);
}

/// How a required field is written.
pub open spec fn required_json<T: Binding>(m: T::M) -> Option<JsonV> {
    Some(T::to_json(m))
}

/// How an optional field is written.
pub open spec fn optional_json<T: Binding>(m: Option<T::M>) -> Option<JsonV> {
    match m {
        Some(x) => Some(T::to_json(x)),
        None => None,
    }
}

/// How an optional field that is never left out is written: `null` stands for
/// its absence.
pub open spec fn nullable_json<T: Binding>(m: Option<T::M>) -> Option<JsonV> {
    match m {
        Some(x) => Some(T::to_json(x)),
        None => Some(JsonV::Null),
    }
}

/// How a list is written.
pub open spec fn list_json<T: Binding>(m: Seq<T::M>) -> Option<JsonV> {
    if m.len() == 0 {
        None
    } else {
        Some(Vec::<T>::to_json(m))
    }
}

/// How a mapping is written.
pub open spec fn map_json<T: Binding>(m: Seq<(Seq<char>, T::M)>) -> Option<JsonV> {
    if m.len() == 0 {
        None
    } else {
        Some(OrderedMap::<T>::to_json(m))
    }
}

/// How a flag is written.
pub open spec fn flag_json(m: bool) -> Option<JsonV> {
    if m {
        Some(JsonV::Bool(true))
    } else {
        None
    }
}

/// The value under a key as it stands, and `null` where the key is missing.
pub open spec fn value_field(entries: Members, key: Seq<char>) -> JsonV {
    match find(entries, key) {
        Some(t) => t,
        None => JsonV::Null,
    }
}

/// A value found under `key`, read as a `T`.
pub open spec fn read_under<T: Binding>(t: JsonV, key: Seq<char>) -> Result<T::M, DecodeErrorV> {
    match T::from_json(t) {
        Ok(m) => Ok(m),
        Err(e) => Err(e.under_key(key)),
    }
}

/// The same optional value behind a box, as a record that holds its own type
/// keeps it.
pub open spec fn boxed<M>(o: Option<M>) -> Option<Box<M>> {
    match o {
        Some(x) => Some(Box::new(x)),
        None => None,
    }
}

/// A required field.
pub open spec fn required_field<T: Binding>(entries: Members, key: Seq<char>) -> Result<
    T::M,
    DecodeErrorV,
> {
    match find(entries, key) {
        Some(t) => read_under::<T>(t, key),
        None => Err(missing(key)),
    }
}

/// An optional field.
pub open spec fn optional_field<T: Binding>(entries: Members, key: Seq<char>) -> Result<
    Option<T::M>,
    DecodeErrorV,
> {
    match find(entries, key) {
        None => Ok(None),
        Some(JsonV::Null) => Ok(None),
        Some(t) => match read_under::<T>(t, key) {
            Ok(m) => Ok(Some(m)),
            Err(e) => Err(e),
        },
    }
}

/// A field that has `fallback` where its key is missing.
pub open spec fn defaulted_field<T: Binding>(
    entries: Members,
    key: Seq<char>,
    fallback: T::M,
) -> Result<T::M, DecodeErrorV> {
    match find(entries, key) {
        Some(t) => read_under::<T>(t, key),
        None => Ok(fallback),
    }
}

/// A list.
pub open spec fn list_field<T: Binding>(entries: Members, key: Seq<char>) -> Result<
    Seq<T::M>,
    DecodeErrorV,
> {
    defaulted_field::<Vec<T>>(entries, key, Seq::empty())
}

/// A mapping.
pub open spec fn map_field<T: Binding>(entries: Members, key: Seq<char>) -> Result<
    Seq<(Seq<char>, T::M)>,
    DecodeErrorV,
> {
    defaulted_field::<OrderedMap<T>>(entries, key, Seq::empty())
}

/// A flag.
pub open spec fn flag_field(entries: Members, key: Seq<char>) -> Result<bool, DecodeErrorV> {
    defaulted_field::<bool>(entries, key, false)
}

/// A required field is read back from what it was written as.
pub proof fn lemma_required<T: Binding>(entries: Members, key: Seq<char>, m: T::M)
    requires
        find(entries, key) == required_json::<T>(m),
    ensures
        required_field::<T>(entries, key) == Ok::<T::M, DecodeErrorV>(m),
{
    T::round_trip(m);
}

/// An optional field is read back from what it was written as.
pub proof fn lemma_optional<T: Binding>(entries: Members, key: Seq<char>, m: Option<T::M>)
    requires
        find(entries, key) == optional_json::<T>(m) || find(entries, key) == nullable_json::<T>(m),
    ensures
        optional_field::<T>(entries, key) == Ok::<Option<T::M>, DecodeErrorV>(m),
{
    if m is Some {
        T::round_trip(m->0);
    }
}

/// A list is read back from what it was written as.
pub proof fn lemma_list<T: Binding>(entries: Members, key: Seq<char>, m: Seq<T::M>)
    requires
        find(entries, key) == list_json::<T>(m),
    ensures
        list_field::<T>(entries, key) == Ok::<Seq<T::M>, DecodeErrorV>(m),
{
    if m.len() == 0 {
        assert(m =~= Seq::empty());
    } else {
        Vec::<T>::round_trip(m);
    }
}

/// A mapping is read back from what it was written as.
pub proof fn lemma_map<T: Binding>(entries: Members, key: Seq<char>, m: Seq<(Seq<char>, T::M)>)
    requires
        find(entries, key) == map_json::<T>(m) || find(entries, key) == required_json::<
            OrderedMap<T>,
        >(m),
    ensures
        map_field::<T>(entries, key) == Ok::<Seq<(Seq<char>, T::M)>, DecodeErrorV>(m),
{
    if find(entries, key) is None {
        assert(m =~= Seq::empty());
    } else {
        OrderedMap::<T>::round_trip(m);
    }
}

/// A field with a fallback is read back from what it was written as.
pub proof fn lemma_defaulted<T: Binding>(entries: Members, key: Seq<char>, m: T::M, fallback: T::M)
    requires
        find(entries, key) == required_json::<T>(m),
    ensures
        defaulted_field::<T>(entries, key, fallback) == Ok::<T::M, DecodeErrorV>(m),
{
    T::round_trip(m);
}

/// A flag is read back from what it was written as.
pub proof fn lemma_flag(entries: Members, key: Seq<char>, m: bool)
    requires
        find(entries, key) == flag_json(m),
    ensures
        flag_field(entries, key) == Ok::<bool, DecodeErrorV>(m),
{
}

/// Reads the value found under `key` as a `T`.
fn decode_under<T: Binding>(x: &Value, key: &str) -> (r: Result<T, DecodeError>)
    ensures
        outcome(r) == read_under::<T>(value_tree(*x), key@),
{
    match T::decode(x) {
        Ok(m) => Ok(m),
        Err(e) => Err(e.under_key(key)),
    }
}

/// Reads a required field of an object.
pub fn read_required<T: Binding>(v: &Value, key: &str) -> (r: Result<T, DecodeError>)
    requires
        value_tree(*v) is Object,
    ensures
        outcome(r) == required_field::<T>(value_tree(*v)->Object_0, key@),
{
    match member(v, key) {
        Some(x) => decode_under::<T>(x, key),
        None => Err(DecodeError::missing(key)),
    }
}

/// Reads an optional field of an object.
pub fn read_optional<T: Binding>(v: &Value, key: &str) -> (r: Result<Option<T>, DecodeError>)
    requires
        value_tree(*v) is Object,
    ensures
        outcome(r) == optional_field::<T>(value_tree(*v)->Object_0, key@),
{
    match member(v, key) {
        None => Ok(None),
        Some(x) => match kind_of(x) {
            Kind::Null => Ok(None),
            _ => match decode_under::<T>(x, key) {
                Ok(m) => Ok(Some(m)),
                Err(e) => Err(e),
            },
        },
    }
}

/// Reads a field of an object that has `fallback` where its key is missing.
pub fn read_defaulted<T: Binding>(v: &Value, key: &str, fallback: T) -> (r: Result<T, DecodeError>)
    requires
        value_tree(*v) is Object,
    ensures
        outcome(r) == defaulted_field::<T>(value_tree(*v)->Object_0, key@, fallback.model()),
{
    match member(v, key) {
        Some(x) => decode_under::<T>(x, key),
        None => Ok(fallback),
    }
}

/// Reads a list of an object.
pub fn read_list<T: Binding>(v: &Value, key: &str) -> (r: Result<Vec<T>, DecodeError>)
    requires
        value_tree(*v) is Object,
    ensures
        outcome(r) == list_field::<T>(value_tree(*v)->Object_0, key@),
{
    let fallback: Vec<T> = Vec::new();
    assert(fallback.model() =~= Seq::empty());
    read_defaulted::<Vec<T>>(v, key, fallback)
}

/// Reads a mapping of an object.
pub fn read_map<T: Binding>(v: &Value, key: &str) -> (r: Result<OrderedMap<T>, DecodeError>)
    requires
        value_tree(*v) is Object,
    ensures
        outcome(r) == map_field::<T>(value_tree(*v)->Object_0, key@),
{
    let fallback: OrderedMap<T> = OrderedMap::new();
    assert(fallback.model() =~= Seq::empty());
    read_defaulted::<OrderedMap<T>>(v, key, fallback)
}

/// Reads a flag of an object.
pub fn read_flag(v: &Value, key: &str) -> (r: Result<bool, DecodeError>)
    requires
        value_tree(*v) is Object,
    ensures
        outcome(r) == flag_field(value_tree(*v)->Object_0, key@),
{
    read_defaulted::<bool>(v, key, false)
}

/// Reads the value under a key of an object as it stands, `null` included.
pub fn read_any(v: &Value, key: &str) -> (r: Option<Value>)
    requires
        value_tree(*v) is Object,
    ensures
        r.model() == find(value_tree(*v)->Object_0, key@),
{
    match member(v, key) {
        Some(x) => Some(x.clone()),
        None => None,
    }
}

/// Reads the value under a key of an object as it stands, and `null` where
/// the key is missing.
pub fn read_value(v: &Value, key: &str) -> (r: Value)
    requires
        value_tree(*v) is Object,
    ensures
        r.model() == value_field(value_tree(*v)->Object_0, key@),
{
    match member(v, key) {
        Some(x) => x.clone(),
        None => null_value(),
    }
}

/// Sets a member of an object where there is a value for it.
pub fn put(object: &mut Value, key: &str, value: Option<Value>)
    requires
        value_tree(*old(object)) is Object,
    ensures
        value_tree(*final(object)) == JsonV::Object(
            with_member(value_tree(*old(object))->Object_0, key@, value.model()),
        ),
{
    reveal(with_member);
    match value {
        Some(x) => {
            set_member(object, key.to_owned(), x);
        },
        None => {},
    }
}

/// Writes a required field.
pub fn put_required<T: Binding>(object: &mut Value, key: &str, value: &T)
    requires
        value_tree(*old(object)) is Object,
    ensures
        value_tree(*final(object)) == JsonV::Object(
            with_member(
                value_tree(*old(object))->Object_0,
                key@,
                required_json::<T>(value.model()),
            ),
        ),
{
    put(object, key, Some(value.encode()));
}

/// Writes an optional field.
pub fn put_optional<T: Binding>(object: &mut Value, key: &str, value: &Option<T>)
    requires
        value_tree(*old(object)) is Object,
    ensures
        value_tree(*final(object)) == JsonV::Object(
            with_member(
                value_tree(*old(object))->Object_0,
                key@,
                optional_json::<T>(value.model()),
            ),
        ),
{
    let written = match value {
        Some(x) => Some(x.encode()),
        None => None,
    };
    put(object, key, written);
}

/// Writes an optional field that is never left out.
pub fn put_nullable<T: Binding>(object: &mut Value, key: &str, value: &Option<T>)
    requires
        value_tree(*old(object)) is Object,
    ensures
        value_tree(*final(object)) == JsonV::Object(
            with_member(
                value_tree(*old(object))->Object_0,
                key@,
                nullable_json::<T>(value.model()),
            ),
        ),
{
    let written = match value {
        Some(x) => x.encode(),
        None => null_value(),
    };
    put(object, key, Some(written));
}

/// Writes a list.
pub fn put_list<T: Binding>(object: &mut Value, key: &str, value: &Vec<T>)
    requires
        value_tree(*old(object)) is Object,
    ensures
        value_tree(*final(object)) == JsonV::Object(
            with_member(value_tree(*old(object))->Object_0, key@, list_json::<T>(value.model())),
        ),
{
    let written = if value.len() == 0 {
        None
    } else {
        Some(value.encode())
    };
    put(object, key, written);
}

/// Writes a mapping.
pub fn put_map<T: Binding>(object: &mut Value, key: &str, value: &OrderedMap<T>)
    requires
        value_tree(*old(object)) is Object,
    ensures
        value_tree(*final(object)) == JsonV::Object(
            with_member(value_tree(*old(object))->Object_0, key@, map_json::<T>(value.model())),
        ),
{
    let written = if value.is_empty() {
        None
    } else {
        Some(value.encode())
    };
    put(object, key, written);
}

/// Writes a flag.
pub fn put_flag(object: &mut Value, key: &str, value: bool)
    requires
        value_tree(*old(object)) is Object,
    ensures
        value_tree(*final(object)) == JsonV::Object(
            with_member(value_tree(*old(object))->Object_0, key@, flag_json(value)),
        ),
{
    let written = if value {
        Some(bool_value(true))
    } else {
        None
    };
    put(object, key, written);
}

/// Writes a value as it stands where there is one.
pub fn put_any(object: &mut Value, key: &str, value: &Option<Value>)
    requires
        value_tree(*old(object)) is Object,
    ensures
        value_tree(*final(object)) == JsonV::Object(
            with_member(value_tree(*old(object))->Object_0, key@, value.model()),
        ),
{
    let written = match value {
        Some(x) => Some(x.clone()),
        None => None,
    };
    put(object, key, written);
}

} // verus!
