//! A mapping from text keys to values that keeps the order in which the keys
//! came.

use vstd::prelude::*;
use vstd::std_specs::cmp::{PartialEqSpec, PartialEqSpecImpl};
use indexmap::IndexSet;
use crate::json::{distinct_keys, find, index_of, lemma_index_of, lemma_index_of_first, with_entry};
use crate::model::Model;

verus! {

/// `indexmap::IndexSet`, as a type that verified code holds and hands on
/// without looking into it.
#[verifier::external_type_specification]
#[verifier::external_body]
#[verifier::reject_recursive_types(T)]
#[verifier::reject_recursive_types(S)]
pub struct ExIndexSet<T, S>(indexmap::IndexSet<T, S>);

/// The items of a set of strings, in the order in which they were inserted.
pub uninterp spec fn set_items(s: IndexSet<String>) -> Seq<Seq<char>>;

/// `Clone` of `indexmap::IndexSet`: the copy holds the same items in the same
/// order.
#[verifier::external_body]
fn keys_clone(s: &IndexSet<String>) -> (r: IndexSet<String>)
    ensures
        set_items(r) == set_items(*s),
{
    s.clone()
}

/// `indexmap::IndexSet::new`: a set without items.
#[verifier::external_body]
fn keys_new() -> (s: IndexSet<String>)
    ensures
        set_items(s) == Seq::<Seq<char>>::empty(),
{
    IndexSet::new()
}

/// `indexmap::IndexSet::insert`: an item that the set holds already leaves it
/// as it was, and the answer is `false`; a new item goes last in the order,
/// and the answer is `true`.
#[verifier::external_body]
fn keys_insert(s: &mut IndexSet<String>, key: String) -> (fresh: bool)
    ensures
        fresh == !set_items(*old(s)).contains(key@),
        set_items(*final(s)) == if fresh {
            set_items(*old(s)).push(key@)
        } else {
            set_items(*old(s))
        },
{
    s.insert(key)
}

/// Indexing an `indexmap::IndexSet` by position: the item at a position of
/// the order.
#[verifier::external_body]
fn keys_at(s: &IndexSet<String>, i: usize) -> (k: &String)
    requires
        i < set_items(*s).len(),
    ensures
        k@ == set_items(*s)[i as int],
{
    &s[i]
}

/// `indexmap::IndexSet::get_index_of`: a position at which the set holds the
/// item, nothing where it does not hold it.
#[verifier::external_body]
fn keys_position(s: &IndexSet<String>, key: &str) -> (r: Option<usize>)
    ensures
        match r {
            Some(i) => i < set_items(*s).len() && set_items(*s)[i as int] == key@,
            None => !set_items(*s).contains(key@),
        },
{
    s.get_index_of(key)
}

/// A row of values.
pub trait Row {
    /// The number of values.
    spec fn size(&self) -> nat;
}

impl<V> Row for Vec<V> {
    open spec fn size(&self) -> nat {
        self@.len()
    }
}

/// A row of values with a key for each: the keys in an `IndexSet`, which
/// keeps them distinct and in the order of their insertion and finds the
/// position of a key by its hash, and the values beside them.
///
/// The row is a parameter of the type, and [`OrderedMap`] fixes it to a
/// `Vec`: that way a record can hold a mapping to records of its own kind.
#[derive(Debug)]
pub struct Keyed<C: Row> {
    keys: IndexSet<String>,
    values: C,
}

impl<C: Row> Keyed<C> {
    #[verifier::type_invariant]
    spec fn well_formed(self) -> bool {
        &&& set_items(self.keys).len() == self.values.size()
        &&& set_items(self.keys).no_duplicates()
    }
}

/// A mapping from text keys to values in which every key occurs once and the
/// keys keep the order of their first insertion.
pub type OrderedMap<V> = Keyed<Vec<V>>;

impl<V> Keyed<Vec<V>> {
    /// The entries in their order.
    pub closed spec fn entries(self) -> Seq<(Seq<char>, V)> {
        if self.well_formed() {
            Seq::new(self.values@.len(), |i: int| (set_items(self.keys)[i], self.values@[i]))
        } else {
            Seq::empty()
        }
    }

    /// No key occurs twice.
    pub proof fn lemma_distinct(self)
        ensures
            distinct_keys(self.entries()),
    {
    }

    /// A value of the mapping is smaller than the mapping, so that a recursion
    /// over its values ends.
    pub proof fn lemma_value_decreases(self, i: int)
        requires
            0 <= i < self.entries().len(),
        ensures
            decreases_to!(self => self.entries()[i].1),
    {
        assert(self.entries()[i].1 == self.values[i]);
    }

    /// A mapping without entries.
    pub fn new() -> (m: Self)
        ensures
            m.entries() == Seq::<(Seq<char>, V)>::empty(),
    {
        let m = Keyed { keys: keys_new(), values: Vec::new() };
        assert(m.entries() =~= Seq::<(Seq<char>, V)>::empty());
        m
    }

    /// The number of entries.
    pub fn len(&self) -> (n: usize)
        ensures
            n == self.entries().len(),
    {
        proof {
            use_type_invariant(self);
        }
        self.values.len()
    }

    /// Whether the mapping is without entries.
    pub fn is_empty(&self) -> (r: bool)
        ensures
            r == (self.entries().len() == 0),
    {
        proof {
            use_type_invariant(self);
        }
        self.values.len() == 0
    }

    /// Sets `key` to `value`. A key that is present keeps its place and the
    /// value it had is returned; a new key goes last.
    pub fn insert(&mut self, key: String, value: V) -> (previous: Option<V>)
        ensures
            final(self).entries() == with_entry(old(self).entries(), key@, value),
            previous == find(old(self).entries(), key@),
    {
        proof {
            use_type_invariant(&*self);
            reveal(find);
            lemma_index_of(self.entries(), key@);
        }
        let ghost before = self.entries();
        let mut taken = OrderedMap::new();
        core::mem::swap(self, &mut taken);
        let Keyed { keys, values } = taken;
        let mut keys = keys;
        let mut values = values;
        match keys_position(&keys, key.as_str()) {
            Some(i) => {
                proof {
                    assert(before[i as int].0 == key@);
                    assert forall|k: int| 0 <= k < i implies (#[trigger] before[k]).0
                        != before[i as int].0 by {
                        assert(set_items(keys)[k] != set_items(keys)[i as int]);
                    }
                    lemma_index_of_first(before, i as int);
                }
                let previous = values.remove(i);
                values.insert(i, value);
                *self = Keyed { keys, values };
                assert(self.entries() =~= before.update(i as int, (key@, value)));
                Some(previous)
            },
            None => {
                proof {
                    assert forall|k: int| 0 <= k < before.len() implies (#[trigger] before[k]).0
                        != key@ by {
                        assert(set_items(keys)[k] == before[k].0);
                    }
                }
                let ghost key_text = key@;
                keys_insert(&mut keys, key);
                values.push(value);
                *self = Keyed { keys, values };
                assert(self.entries() =~= before.push((key_text, value)));
                None
            },
        }
    }

    /// The value under `key`.
    pub fn get(&self, key: &str) -> (r: Option<&V>)
        ensures
            r == (match find(self.entries(), key@) {
                Some(v) => Some(&v),
                None => None,
            }),
    {
        proof {
            use_type_invariant(self);
            reveal(find);
            lemma_index_of(self.entries(), key@);
        }
        match keys_position(&self.keys, key) {
            Some(i) => {
                proof {
                    let e = self.entries();
                    assert(e[i as int].0 == key@);
                    assert forall|k: int| 0 <= k < i implies (#[trigger] e[k]).0
                        != e[i as int].0 by {
                        assert(set_items(self.keys)[k] != set_items(self.keys)[i as int]);
                    }
                    lemma_index_of_first(e, i as int);
                }
                Some(&self.values[i])
            },
            None => {
                proof {
                    let e = self.entries();
                    if index_of(e, key@) >= 0 {
                        assert(set_items(self.keys)[index_of(e, key@)] == key@);
                    }
                }
                None
            },
        }
    }

    /// Whether the mapping holds `key`.
    pub fn contains_key(&self, key: &str) -> (r: bool)
        ensures
            r == (find(self.entries(), key@) is Some),
    {
        self.get(key).is_some()
    }

    /// The key of the entry at position `i`.
    pub fn key_at(&self, i: usize) -> (k: &String)
        requires
            i < self.entries().len(),
        ensures
            k@ == self.entries()[i as int].0,
    {
        proof {
            use_type_invariant(self);
        }
        keys_at(&self.keys, i)
    }

    /// The value of the entry at position `i`.
    pub fn value_at(&self, i: usize) -> (v: &V)
        requires
            i < self.entries().len(),
        ensures
            *v == self.entries()[i as int].1,
    {
        &self.values[i]
    }
}

impl<V: Clone> Clone for Keyed<Vec<V>> {
    /// A copy with the same keys in the same order, each with a clone of its
    /// value.
    fn clone(&self) -> (m: Self)
        ensures
            m.entries().len() == self.entries().len(),
            forall|i: int|
                0 <= i < self.entries().len() ==> {
                    &&& (#[trigger] m.entries()[i]).0 == self.entries()[i].0
                    &&& cloned::<V>(self.entries()[i].1, m.entries()[i].1)
                },
    {
        proof {
            use_type_invariant(self);
        }
        let keys = keys_clone(&self.keys);
        let values = self.values.clone();
        Keyed { keys, values }
    }
}

impl<V: PartialEq> PartialEq for Keyed<Vec<V>> {
    /// Two mappings are equal where they hold equal keys with equal values in
    /// the same order.
    fn eq(&self, other: &Self) -> (r: bool) {
        if self.len() != other.len() {
            return false;
        }
        let mut i: usize = 0;
        while i < self.len()
            invariant
                0 <= i <= self.entries().len(),
                self.entries().len() == other.entries().len(),
                forall|j: int|
                    0 <= j < i ==> {
                        &&& (#[trigger] self.entries()[j]).0 == other.entries()[j].0
                        &&& (V::obeys_eq_spec() ==> self.entries()[j].1.eq_spec(
                            &other.entries()[j].1,
                        ))
                    },
            decreases self.entries().len() - i,
        {
            if !(*self.key_at(i) == *other.key_at(i)) {
                return false;
            }
            if !(*self.value_at(i) == *other.value_at(i)) {
                return false;
            }
            i += 1;
        }
        true
    }
}

impl<V: PartialEq> PartialEqSpecImpl for Keyed<Vec<V>> {
    open spec fn obeys_eq_spec() -> bool {
        V::obeys_eq_spec()
    }

    open spec fn eq_spec(&self, other: &Self) -> bool {
        &&& self.entries().len() == other.entries().len()
        &&& forall|i: int|
            0 <= i < self.entries().len() ==> {
                &&& (#[trigger] self.entries()[i]).0 == other.entries()[i].0
                &&& self.entries()[i].1.eq_spec(&other.entries()[i].1)
            }
    }
}

impl<V> Default for Keyed<Vec<V>> {
    fn default() -> (m: Self)
        ensures
            m.entries() == Seq::<(Seq<char>, V)>::empty(),
    {
        OrderedMap::new()
    }
}

impl<V: Model> Model for Keyed<Vec<V>> {
    type M = Seq<(Seq<char>, V::M)>;

    open spec fn model(&self) -> Seq<(Seq<char>, V::M)> {
        self.entries().map_values(|e: (Seq<char>, V)| (e.0, e.1.model()))
    }
}

} // verus!
