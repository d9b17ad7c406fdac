//! The binding of lists and of ordered mappings.
//!
//! A list is a JSON array, element by element. A mapping is a JSON object,
//! member by member: its keys are the object's keys, in the object's order.

use vstd::prelude::*;
use serde_json::Value;
use crate::binding::Binding;
use crate::error::{mismatch, outcome, DecodeError, DecodeErrorV, Expected, Segment, SegmentV};
use crate::json::{
    array_value, distinct_keys, empty_object, entries_of, kind_of, lemma_with_entry_fresh,
    members, set_member, trees, value_tree, JsonV,
};
use crate::model::Model;
use crate::ordered::OrderedMap;

verus! {

/// The elements read one by one. The first element that is rejected decides
/// the error, reported under its position.
pub open spec fn elements_from_json<T: Binding>(items: Seq<JsonV>) -> Result<
    Seq<T::M>,
    DecodeErrorV,
>
    decreases items.len(),
{
    if items.len() == 0 {
        Ok(Seq::empty())
    } else {
        match elements_from_json::<T>(items.drop_last()) {
            Err(e) => Err(e),
            Ok(head) => match T::from_json(items.last()) {
                Err(e) => Err(e.under(SegmentV::Index((items.len() - 1) as usize))),
                Ok(x) => Ok(head.push(x)),
            },
        }
    }
}

/// The elements written one by one.
pub open spec fn elements_to_json<T: Binding>(items: Seq<T::M>) -> Seq<JsonV> {
    items.map_values(|x: T::M| T::to_json(x))
}

/// The members read one by one, each under its key. The first member that is
/// rejected decides the error, reported under its key.
pub open spec fn entries_from_json<T: Binding>(entries: Seq<(Seq<char>, JsonV)>) -> Result<
    Seq<(Seq<char>, T::M)>,
    DecodeErrorV,
>
    decreases entries.len(),
{
    if entries.len() == 0 {
        Ok(Seq::empty())
    } else {
        match entries_from_json::<T>(entries.drop_last()) {
            Err(e) => Err(e),
            Ok(head) => match T::from_json(entries.last().1) {
                Err(e) => Err(e.under_key(entries.last().0)),
                Ok(x) => Ok(head.push((entries.last().0, x))),
            },
        }
    }
}

/// The entries written one by one, each under its key.
pub open spec fn entries_to_json<T: Binding>(entries: Seq<(Seq<char>, T::M)>) -> Seq<
    (Seq<char>, JsonV),
> {
    entries.map_values(|e: (Seq<char>, T::M)| (e.0, T::to_json(e.1)))
}

/// Reading the elements that were written gives the list back.
pub proof fn lemma_elements_round_trip<T: Binding>(items: Seq<T::M>)
    ensures
        elements_from_json::<T>(elements_to_json::<T>(items)) == Ok::<Seq<T::M>, DecodeErrorV>(
            items,
        ),
    decreases items.len(),
{
    let written = elements_to_json::<T>(items);
    if items.len() == 0 {
        assert(items =~= Seq::empty());
    } else {
        lemma_elements_round_trip::<T>(items.drop_last());
        assert(written.drop_last() =~= elements_to_json::<T>(items.drop_last()));
        T::round_trip(items.last());
        assert(items.drop_last().push(items.last()) =~= items);
    }
}

/// Order preservation on reading: a mapping that is read holds the keys of
/// the object, each at the position it has there.
pub proof fn lemma_entries_keep_keys<T: Binding>(entries: Seq<(Seq<char>, JsonV)>)
    ensures
        entries_from_json::<T>(entries) matches Ok(r) ==> {
            &&& r.len() == entries.len()
            &&& forall|i: int| 0 <= i < r.len() ==> (#[trigger] r[i]).0 == entries[i].0
        },
    decreases entries.len(),
{
    if entries.len() > 0 {
        lemma_entries_keep_keys::<T>(entries.drop_last());
    }
}

/// Order preservation on writing: the object that a mapping is written as
/// holds the keys of the mapping, each at the position it has there.
pub proof fn lemma_written_keep_keys<T: Binding>(entries: Seq<(Seq<char>, T::M)>)
    ensures
        entries_to_json::<T>(entries).len() == entries.len(),
        forall|i: int|
            0 <= i < entries.len() ==> (#[trigger] entries_to_json::<T>(entries)[i]).0
                == entries[i].0,
{
}

/// Order preservation from reading to writing: an object that is read as a
/// mapping is written back with its keys in the order in which they came.
pub proof fn lemma_map_order<T: Binding>(entries: Seq<(Seq<char>, JsonV)>)
    ensures
        OrderedMap::<T>::from_json(JsonV::Object(entries)) matches Ok(m) ==> {
            let written = OrderedMap::<T>::to_json(m)->Object_0;
            &&& written.len() == entries.len()
            &&& forall|i: int| 0 <= i < entries.len() ==> (#[trigger] written[i]).0 == entries[i].0
        },
{
    lemma_entries_keep_keys::<T>(entries);
    if entries_from_json::<T>(entries) is Ok {
        lemma_written_keep_keys::<T>(entries_from_json::<T>(entries)->Ok_0);
    }
}

/// Reading the members that were written gives the mapping back.
pub proof fn lemma_entries_round_trip<T: Binding>(entries: Seq<(Seq<char>, T::M)>)
    ensures
        entries_from_json::<T>(entries_to_json::<T>(entries)) == Ok::<
            Seq<(Seq<char>, T::M)>,
            DecodeErrorV,
        >(entries),
    decreases entries.len(),
{
    let written = entries_to_json::<T>(entries);
    if entries.len() == 0 {
        assert(entries =~= Seq::empty());
    } else {
        lemma_entries_round_trip::<T>(entries.drop_last());
        assert(written.drop_last() =~= entries_to_json::<T>(entries.drop_last()));
        T::round_trip(entries.last().1);
        assert(entries.drop_last().push(entries.last()) =~= entries);
    }
}

/// An element that is rejected after a prefix that was read decides the error
/// of the whole.
proof fn lemma_elements_fail<T: Binding>(items: Seq<JsonV>, i: int)
    requires
        0 <= i < items.len(),
        elements_from_json::<T>(items.take(i)) is Ok,
        T::from_json(items[i]) is Err,
    ensures
        elements_from_json::<T>(items) == Err::<Seq<T::M>, DecodeErrorV>(
            T::from_json(items[i])->Err_0.under(SegmentV::Index(i as usize)),
        ),
    decreases items.len(),
{
    if i < items.len() - 1 {
        assert(items.drop_last().take(i) =~= items.take(i));
        lemma_elements_fail::<T>(items.drop_last(), i);
    } else {
        assert(items.drop_last() =~= items.take(i));
    }
}

/// A member that is rejected after a prefix that was read decides the error of
/// the whole.
proof fn lemma_entries_fail<T: Binding>(entries: Seq<(Seq<char>, JsonV)>, i: int)
    requires
        0 <= i < entries.len(),
        entries_from_json::<T>(entries.take(i)) is Ok,
        T::from_json(entries[i].1) is Err,
    ensures
        entries_from_json::<T>(entries) == Err::<Seq<(Seq<char>, T::M)>, DecodeErrorV>(
            T::from_json(entries[i].1)->Err_0.under_key(entries[i].0),
        ),
    decreases entries.len(),
{
    if i < entries.len() - 1 {
        assert(entries.drop_last().take(i) =~= entries.take(i));
        lemma_entries_fail::<T>(entries.drop_last(), i);
    } else {
        assert(entries.drop_last() =~= entries.take(i));
    }
}

impl<T: Binding> Binding for Vec<T> {
    open spec fn from_json(t: JsonV) -> Result<Seq<T::M>, DecodeErrorV> {
        match t {
            JsonV::Array(items) => elements_from_json::<T>(items),
            _ => Err(mismatch(Expected::Array, t)),
        }
    }

    open spec fn to_json(m: Seq<T::M>) -> JsonV {
        JsonV::Array(elements_to_json::<T>(m))
    }

    fn decode(v: &Value) -> (r: Result<Vec<T>, DecodeError>) {
        match v.as_array() {
            None => Err(DecodeError::mismatch(Expected::Array, kind_of(v))),
            Some(source) => {
                let ghost items = value_tree(*v)->Array_0;
                let mut out: Vec<T> = Vec::new();
                let mut i: usize = 0;
                assert(items.take(0) =~= Seq::empty());
                assert(out.model() =~= Seq::empty());
                while i < source.len()
                    invariant
                        0 <= i <= source.len(),
                        value_tree(*v) == JsonV::Array(items),
                        trees(source@) == items,
                        elements_from_json::<T>(items.take(i as int)) == Ok::<
                            Seq<T::M>,
                            DecodeErrorV,
                        >(out.model()),
                    decreases source.len() - i,
                {
                    assert(items.take(i + 1).drop_last() =~= items.take(i as int));
                    assert(items[i as int] == value_tree(source@[i as int]));
                    match T::decode(&source[i]) {
                        Err(e) => {
                            proof {
                                lemma_elements_fail::<T>(items, i as int);
                            }
                            return Err(e.under(Segment::Index(i)));
                        },
                        Ok(x) => {
                            let ghost before = out.model();
                            out.push(x);
                            assert(out.model() =~= before.push(x.model()));
                        },
                    }
                    i += 1;
                }
                assert(items.take(i as int) =~= items);
                Ok(out)
            },
        }
    }

    fn encode(&self) -> (v: Value) {
        let mut out: Vec<Value> = Vec::new();
        let mut i: usize = 0;
        let ghost written = elements_to_json::<T>(self.model());
        while i < self.len()
            invariant
                0 <= i <= self.len(),
                written == elements_to_json::<T>(self.model()),
                trees(out@) =~= written.take(i as int),
            decreases self.len() - i,
        {
            let item = self[i].encode();
            let ghost before = trees(out@);
            out.push(item);
            proof {
                assert(self.model()[i as int] == self@[i as int].model());
                assert(written[i as int] == value_tree(item));
                assert(trees(out@) =~= before.push(value_tree(item)));
                assert(written.take(i + 1) =~= written.take(i as int).push(written[i as int]));
            }
            i += 1;
        }
        assert(written.take(i as int) =~= written);
        array_value(out)
    }

    proof fn round_trip(m: Seq<T::M>) {
        lemma_elements_round_trip::<T>(m);
    }
}

impl<T: Binding> Binding for OrderedMap<T> {
    open spec fn from_json(t: JsonV) -> Result<Seq<(Seq<char>, T::M)>, DecodeErrorV> {
        match t {
            JsonV::Object(entries) => entries_from_json::<T>(entries),
            _ => Err(mismatch(Expected::Object, t)),
        }
    }

    open spec fn to_json(m: Seq<(Seq<char>, T::M)>) -> JsonV {
        JsonV::Object(entries_to_json::<T>(m))
    }

    fn decode(v: &Value) -> (r: Result<OrderedMap<T>, DecodeError>) {
        match entries_of(v) {
            None => Err(DecodeError::mismatch(Expected::Object, kind_of(v))),
            Some(source) => {
                let ghost entries = value_tree(*v)->Object_0;
                let mut out: OrderedMap<T> = OrderedMap::new();
                let mut i: usize = 0;
                assert(entries.take(0) =~= Seq::empty());
                assert(out.model() =~= Seq::empty());
                while i < source.len()
                    invariant
                        0 <= i <= source.len(),
                        value_tree(*v) == JsonV::Object(entries),
                        members(source@) == entries,
                        distinct_keys(entries),
                        entries_from_json::<T>(entries.take(i as int)) == Ok::<
                            Seq<(Seq<char>, T::M)>,
                            DecodeErrorV,
                        >(out.model()),
                    decreases source.len() - i,
                {
                    assert(entries.take(i + 1).drop_last() =~= entries.take(i as int));
                    assert(entries[i as int] == (
                        source@[i as int].0@,
                        value_tree(*source@[i as int].1),
                    ));
                    let pair = &source[i];
                    match T::decode(pair.1) {
                        Err(e) => {
                            proof {
                                lemma_entries_fail::<T>(entries, i as int);
                            }
                            return Err(e.under_key(pair.0.as_str()));
                        },
                        Ok(x) => {
                            let ghost before = out.entries();
                            let ghost before_model = out.model();
                            proof {
                                lemma_entries_keep_keys::<T>(entries.take(i as int));
                                assert forall|k: int| 0 <= k < before.len() implies (
                                #[trigger] before[k]).0 != pair.0@ by {
                                    assert(before_model[k].0 == before[k].0);
                                    assert(entries.take(i as int)[k] == entries[k]);
                                }
                                lemma_with_entry_fresh(before, pair.0@, x);
                            }
                            out.insert(pair.0.clone(), x);
                            assert(out.model() =~= before_model.push((pair.0@, x.model())));
                        },
                    }
                    i += 1;
                }
                assert(entries.take(i as int) =~= entries);
                Ok(out)
            },
        }
    }

    fn encode(&self) -> (v: Value) {
        let mut out = empty_object();
        let mut i: usize = 0;
        let ghost written = entries_to_json::<T>(self.model());
        proof {
            self.lemma_distinct();
        }
        while i < self.len()
            invariant
                0 <= i <= self.entries().len(),
                written == entries_to_json::<T>(self.model()),
                distinct_keys(self.entries()),
                value_tree(out) is Object,
                value_tree(out)->Object_0 =~= written.take(i as int),
            decreases self.entries().len() - i,
        {
            let key = self.key_at(i);
            let item = self.value_at(i).encode();
            proof {
                let sofar = value_tree(out)->Object_0;
                assert forall|k: int| 0 <= k < sofar.len() implies (#[trigger] sofar[k]).0
                    != key@ by {
                    assert(sofar[k].0 == self.entries()[k].0);
                }
                lemma_with_entry_fresh(sofar, key@, value_tree(item));
            }
            set_member(&mut out, key.clone(), item);
            i += 1;
        }
        assert(written.take(i as int) =~= written);
        out
    }

    proof fn round_trip(m: Seq<(Seq<char>, T::M)>) {
        lemma_entries_round_trip::<T>(m);
    }
}

} // verus!
