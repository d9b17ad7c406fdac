//! Which keys of a document the model passes over.
//!
//! Reading drops the members of an object that the model has no field for.
//! The audit names them, each by its path from the root, so that a document
//! can be held against the model: a document without ignored keys is one of
//! which the model keeps every member.

use vstd::prelude::*;
use serde_json::Value;
use crate::binding::{Binding, Record};
use crate::error::{copy_path, dotted, render_path, PathV, Segment, SegmentV};
use crate::fields::Members;
use crate::json::{
    entries_of, find, lemma_key_present, member, members, same_text, trees, value_tree, JsonV,
};
use crate::lists::{elements_to_json, entries_to_json};
use crate::model::Model;
use crate::ordered::OrderedMap;
use crate::reference::{
    holds_reference, is_reference, lemma_reference_keys, lemma_written_reference,
    reference_to_json, RefOrV, ReferenceOr,
};
use crate::schema::DataType;

verus! {

/// Paths that lead down from a value, seen from the root: each behind the
/// path `base` of the value.
pub open spec fn based(paths: Seq<PathV>, base: PathV) -> Seq<PathV> {
    paths.map_values(|p: PathV| base + p)
}

/// Paths that lead down from a value, seen from one level further up.
pub open spec fn under_all(paths: Seq<PathV>, segment: SegmentV) -> Seq<PathV> {
    paths.map_values(|p: PathV| seq![segment] + p)
}

/// The keys that a kind of object has fields for.
pub trait Keys {
    /// Whether the model has a field for a key.
    spec fn known(key: Seq<char>) -> bool;

    /// Whether the model has a field for a key.
    fn knows(key: &str) -> (b: bool)
        ensures
            b == Self::known(key@),
    ;
}

/// The members of an object that the model has no field for, each as the
/// path of one step that leads to it, in the order of the object.
pub open spec fn unknown_keys<K: Keys>(e: Members, n: nat) -> Seq<PathV>
    decreases n,
{
    if n == 0 || n > e.len() {
        Seq::empty()
    } else if K::known(e[n - 1].0) {
        unknown_keys::<K>(e, (n - 1) as nat)
    } else {
        unknown_keys::<K>(e, (n - 1) as nat).push(seq![SegmentV::Key(e[n - 1].0)])
    }
}

/// A type of the model of which the ignored keys can be named.
pub trait Audit: Binding {
    /// The paths, from the value down, of the members that reading the value
    /// passes over.
    spec fn ignored(t: JsonV) -> Seq<PathV>;

    /// Adds to `out` the paths of the members that reading `v` passes over,
    /// each behind `at`, the path of `v` itself.
    fn audit(v: &Value, at: &mut Vec<Segment>, out: &mut Vec<Vec<Segment>>)
        ensures
            final(at).model() == old(at).model(),
            final(out).model() == old(out).model() + based(
                Self::ignored(value_tree(*v)),
                old(at).model(),
            ),
    ;

    /// What a value is written as holds no ignored key.
    proof fn clean(m: Self::M)
        ensures
            Self::ignored(Self::to_json(m)) == Seq::<PathV>::empty(),
    ;
}

/// The ignored keys beneath the value found under `key`, seen from the object
/// that holds the key.
pub open spec fn ignored_under<T: Audit>(found: Option<JsonV>, key: Seq<char>) -> Seq<PathV> {
    match found {
        Some(t) => under_all(T::ignored(t), SegmentV::Key(key)),
        None => Seq::empty(),
    }
}

/// The ignored keys beneath the first `n` elements of an array.
pub open spec fn ignored_in_elements<T: Audit>(items: Seq<JsonV>, n: nat) -> Seq<PathV>
    decreases n,
{
    if n == 0 || n > items.len() {
        Seq::empty()
    } else {
        ignored_in_elements::<T>(items, (n - 1) as nat) + under_all(
            T::ignored(items[n - 1]),
            SegmentV::Index((n - 1) as usize),
        )
    }
}

/// The ignored keys beneath the first `n` members of an object that is read
/// as a mapping.
pub open spec fn ignored_in_entries<T: Audit>(entries: Members, n: nat) -> Seq<PathV>
    decreases n,
{
    if n == 0 || n > entries.len() {
        Seq::empty()
    } else {
        ignored_in_entries::<T>(entries, (n - 1) as nat) + under_all(
            T::ignored(entries[n - 1].1),
            SegmentV::Key(entries[n - 1].0),
        )
    }
}

/// Seen from the root, a path one level down is the path behind the base and
/// the step.
pub proof fn lemma_based_under(paths: Seq<PathV>, segment: SegmentV, base: PathV)
    ensures
        based(under_all(paths, segment), base) == based(paths, base.push(segment)),
{
    assert forall|i: int| 0 <= i < paths.len() implies based(under_all(paths, segment), base)[i]
        == based(paths, base.push(segment))[i] by {
        assert(base + (seq![segment] + paths[i]) =~= base.push(segment) + paths[i]);
    }
    assert(based(under_all(paths, segment), base) =~= based(paths, base.push(segment)));
}

/// Seen from the root, the paths of two findings in a row are the paths of
/// each in a row.
pub proof fn lemma_based_sum(a: Seq<PathV>, b: Seq<PathV>, base: PathV)
    ensures
        based(a + b, base) == based(a, base) + based(b, base),
        based(Seq::<PathV>::empty(), base) == Seq::<PathV>::empty(),
{
    assert(based(a + b, base) =~= based(a, base) + based(b, base));
    assert(based(Seq::<PathV>::empty(), base) =~= Seq::<PathV>::empty());
}

/// Findings added one after the other are the findings in a row.
pub proof fn lemma_collected(start: Seq<PathV>, found: Seq<PathV>, more: Seq<PathV>, base: PathV)
    ensures
        (start + based(found, base)) + based(more, base) == start + based(found + more, base),
        start + based(Seq::<PathV>::empty(), base) == start,
{
    lemma_based_sum(found, more, base);
    assert((start + based(found, base)) + based(more, base) =~= start + (based(found, base)
        + based(more, base)));
    assert(start + based(Seq::<PathV>::empty(), base) =~= start);
}

/// An object of which every key is known holds no unknown key.
pub proof fn lemma_all_known<K: Keys>(e: Members, n: nat)
    requires
        n <= e.len(),
        forall|i: int| 0 <= i < e.len() ==> K::known(#[trigger] e[i].0),
    ensures
        unknown_keys::<K>(e, n) == Seq::<PathV>::empty(),
    decreases n,
{
    if n > 0 {
        assert(K::known(e[n - 1].0));
        lemma_all_known::<K>(e, (n - 1) as nat);
    }
}

/// Nothing is ignored beneath the elements that a list is written as.
pub proof fn lemma_elements_clean<T: Audit>(m: Seq<T::M>, n: nat)
    requires
        n <= m.len(),
    ensures
        ignored_in_elements::<T>(elements_to_json::<T>(m), n) == Seq::<PathV>::empty(),
    decreases n,
{
    if n > 0 {
        lemma_elements_clean::<T>(m, (n - 1) as nat);
        T::clean(m[n - 1]);
        assert(under_all(Seq::<PathV>::empty(), SegmentV::Index((n - 1) as usize))
            =~= Seq::<PathV>::empty());
        assert(Seq::<PathV>::empty() + Seq::<PathV>::empty() =~= Seq::<PathV>::empty());
    }
}

/// Nothing is ignored beneath the members that a mapping is written as.
pub proof fn lemma_entries_clean<T: Audit>(m: Seq<(Seq<char>, T::M)>, n: nat)
    requires
        n <= m.len(),
    ensures
        ignored_in_entries::<T>(entries_to_json::<T>(m), n) == Seq::<PathV>::empty(),
    decreases n,
{
    if n > 0 {
        lemma_entries_clean::<T>(m, (n - 1) as nat);
        T::clean(m[n - 1].1);
        assert(under_all(Seq::<PathV>::empty(), SegmentV::Key(m[n - 1].0))
            =~= Seq::<PathV>::empty());
        assert(Seq::<PathV>::empty() + Seq::<PathV>::empty() =~= Seq::<PathV>::empty());
    }
}

/// Nothing is ignored beneath a value that was written under a key.
pub proof fn lemma_under_clean<T: Audit>(found: Option<JsonV>, key: Seq<char>, m: T::M)
    requires
        found is None || found == Some(T::to_json(m)),
    ensures
        ignored_under::<T>(found, key) == Seq::<PathV>::empty(),
{
    if found is Some {
        T::clean(m);
        assert(under_all(Seq::<PathV>::empty(), SegmentV::Key(key)) =~= Seq::<PathV>::empty());
    }
}

/// Adds the unknown keys of an object to `out`.
pub fn report_unknown<K: Keys>(v: &Value, at: &Vec<Segment>, out: &mut Vec<Vec<Segment>>)
    requires
        value_tree(*v) is Object,
    ensures
        final(out).model() == old(out).model() + based(
            unknown_keys::<K>(value_tree(*v)->Object_0, value_tree(*v)->Object_0.len()),
            at.model(),
        ),
{
    let ghost e = value_tree(*v)->Object_0;
    let ghost start = out.model();
    let ghost base = at.model();
    match entries_of(v) {
        None => {},
        Some(source) => {
            let mut i: usize = 0;
            proof {
                lemma_based_sum(Seq::empty(), Seq::empty(), base);
                assert(start + Seq::<PathV>::empty() =~= start);
            }
            while i < source.len()
                invariant
                    0 <= i <= source.len(),
                    members(source@) == e,
                    base == at.model(),
                    out.model() == start + based(unknown_keys::<K>(e, i as nat), base),
                decreases source.len() - i,
            {
                let key = source[i].0;
                assert(key@ == e[i as int].0);
                if !K::knows(key.as_str()) {
                    let mut path = copy_path(at);
                    let ghost before_path = path.model();
                    path.push(Segment::Key(key.clone()));
                    let ghost before = out.model();
                    out.push(path);
                    proof {
                        let step = seq![SegmentV::Key(key@)];
                        assert(path.model() =~= base + step);
                        assert(out.model() =~= before.push(base + step));
                        lemma_based_sum(unknown_keys::<K>(e, i as nat), seq![step], base);
                        assert(based(seq![step], base) =~= seq![base + step]);
                        assert(unknown_keys::<K>(e, i as nat).push(step) =~= unknown_keys::<K>(
                            e,
                            i as nat,
                        ) + seq![step]);
                        assert(before.push(base + step) =~= start + (based(
                            unknown_keys::<K>(e, i as nat),
                            base,
                        ) + seq![base + step]));
                    }
                }
                i += 1;
            }
        },
    }
}

/// Adds the ignored keys beneath the value under `key` to `out`.
pub fn audit_member<T: Audit>(
    v: &Value,
    key: &str,
    at: &mut Vec<Segment>,
    out: &mut Vec<Vec<Segment>>,
)
    requires
        value_tree(*v) is Object,
    ensures
        final(at).model() == old(at).model(),
        final(out).model() == old(out).model() + based(
            ignored_under::<T>(find(value_tree(*v)->Object_0, key@), key@),
            old(at).model(),
        ),
{
    let ghost start = out.model();
    let ghost base = at.model();
    match member(v, key) {
        None => {
            proof {
                lemma_based_sum(Seq::empty(), Seq::empty(), base);
                assert(start + Seq::<PathV>::empty() =~= start);
            }
        },
        Some(x) => {
            at.push(Segment::Key(key.to_owned()));
            assert(at.model() =~= base.push(SegmentV::Key(key@)));
            T::audit(x, at, out);
            let ghost mid = at.model();
            at.pop();
            proof {
                assert(at.model() =~= mid.drop_last());
                assert(mid.drop_last() =~= base);
                lemma_based_under(T::ignored(value_tree(*x)), SegmentV::Key(key@), base);
            }
        },
    }
}

impl<T: Audit> Audit for Vec<T> {
    open spec fn ignored(t: JsonV) -> Seq<PathV> {
        match t {
            JsonV::Array(items) => ignored_in_elements::<T>(items, items.len()),
            _ => Seq::empty(),
        }
    }

    fn audit(v: &Value, at: &mut Vec<Segment>, out: &mut Vec<Vec<Segment>>) {
        let ghost start = out.model();
        let ghost base = at.model();
        proof {
            lemma_based_sum(Seq::empty(), Seq::empty(), base);
            assert(start + Seq::<PathV>::empty() =~= start);
        }
        match v.as_array() {
            None => {},
            Some(source) => {
                let ghost items = value_tree(*v)->Array_0;
                let mut i: usize = 0;
                while i < source.len()
                    invariant
                        0 <= i <= source.len(),
                        value_tree(*v) == JsonV::Array(items),
                        trees(source@) == items,
                        at.model() == base,
                        out.model() == start + based(
                            ignored_in_elements::<T>(items, i as nat),
                            base,
                        ),
                    decreases source.len() - i,
                {
                    assert(items[i as int] == value_tree(source@[i as int]));
                    let ghost before = out.model();
                    at.push(Segment::Index(i));
                    assert(at.model() =~= base.push(SegmentV::Index(i)));
                    T::audit(&source[i], at, out);
                    let ghost mid = at.model();
                    at.pop();
                    proof {
                        assert(at.model() =~= mid.drop_last());
                        assert(mid.drop_last() =~= base);
                        let inner = T::ignored(items[i as int]);
                        lemma_based_under(inner, SegmentV::Index(i), base);
                        lemma_based_sum(
                            ignored_in_elements::<T>(items, i as nat),
                            under_all(inner, SegmentV::Index(i)),
                            base,
                        );
                        assert(out.model() =~= start + (based(
                            ignored_in_elements::<T>(items, i as nat),
                            base,
                        ) + based(under_all(inner, SegmentV::Index(i)), base)));
                    }
                    i += 1;
                }
            },
        }
    }

    proof fn clean(m: Seq<T::M>) {
        lemma_elements_clean::<T>(m, m.len());
    }
}

impl<T: Audit> Audit for OrderedMap<T> {
    open spec fn ignored(t: JsonV) -> Seq<PathV> {
        match t {
            JsonV::Object(entries) => ignored_in_entries::<T>(entries, entries.len()),
            _ => Seq::empty(),
        }
    }

    fn audit(v: &Value, at: &mut Vec<Segment>, out: &mut Vec<Vec<Segment>>) {
        let ghost start = out.model();
        let ghost base = at.model();
        proof {
            lemma_based_sum(Seq::empty(), Seq::empty(), base);
            assert(start + Seq::<PathV>::empty() =~= start);
        }
        match entries_of(v) {
            None => {},
            Some(source) => {
                let ghost entries = value_tree(*v)->Object_0;
                let mut i: usize = 0;
                while i < source.len()
                    invariant
                        0 <= i <= source.len(),
                        value_tree(*v) == JsonV::Object(entries),
                        members(source@) == entries,
                        at.model() == base,
                        out.model() == start + based(
                            ignored_in_entries::<T>(entries, i as nat),
                            base,
                        ),
                    decreases source.len() - i,
                {
                    let pair = &source[i];
                    assert(entries[i as int] == (pair.0@, value_tree(*pair.1)));
                    at.push(Segment::Key(pair.0.clone()));
                    assert(at.model() =~= base.push(SegmentV::Key(pair.0@)));
                    T::audit(pair.1, at, out);
                    let ghost mid = at.model();
                    at.pop();
                    proof {
                        assert(at.model() =~= mid.drop_last());
                        assert(mid.drop_last() =~= base);
                        let inner = T::ignored(entries[i as int].1);
                        lemma_based_under(inner, SegmentV::Key(pair.0@), base);
                        lemma_based_sum(
                            ignored_in_entries::<T>(entries, i as nat),
                            under_all(inner, SegmentV::Key(pair.0@)),
                            base,
                        );
                        assert(out.model() =~= start + (based(
                            ignored_in_entries::<T>(entries, i as nat),
                            base,
                        ) + based(under_all(inner, SegmentV::Key(pair.0@)), base)));
                    }
                    i += 1;
                }
            },
        }
    }

    proof fn clean(m: Seq<(Seq<char>, T::M)>) {
        lemma_entries_clean::<T>(m, m.len());
    }
}

/// The keys that are kept beside a pointer.
pub struct ReferenceKeys;

impl Keys for ReferenceKeys {
    open spec fn known(key: Seq<char>) -> bool {
        ||| key == "$ref"@
        ||| key == "title"@
        ||| key == "description"@
        ||| key == "type"@
        ||| key == "readOnly"@
        ||| key == "x-ms-client-flatten"@
    }

    fn knows(key: &str) -> (b: bool) {
        same_text(key, "$ref") || same_text(key, "title") || same_text(key, "description")
            || same_text(key, "type") || same_text(key, "readOnly") || same_text(
            key,
            "x-ms-client-flatten",
        )
    }
}

/// Nothing is ignored in what a reference is written as.
pub proof fn lemma_reference_clean(
    reference: Seq<char>,
    title: Option<Seq<char>>,
    description: Option<Seq<char>>,
    type_: Option<DataType>,
    read_only: Option<bool>,
    x_ms_client_flatten: Option<bool>,
)
    ensures
        ({
            let e = reference_to_json(
                reference,
                title,
                description,
                type_,
                read_only,
                x_ms_client_flatten,
            )->Object_0;
            unknown_keys::<ReferenceKeys>(e, e.len()) == Seq::<PathV>::empty()
        }),
{
    let e = reference_to_json(
        reference,
        title,
        description,
        type_,
        read_only,
        x_ms_client_flatten,
    )->Object_0;
    assert forall|i: int| 0 <= i < e.len() implies ReferenceKeys::known(#[trigger] e[i].0) by {
        lemma_key_present(e, i);
        lemma_reference_keys(
            reference,
            title,
            description,
            type_,
            read_only,
            x_ms_client_flatten,
            e[i].0,
        );
    }
    lemma_all_known::<ReferenceKeys>(e, e.len());
}

impl<T: Record + Audit> Audit for ReferenceOr<T> {
    open spec fn ignored(t: JsonV) -> Seq<PathV> {
        if is_reference(t) {
            unknown_keys::<ReferenceKeys>(t->Object_0, t->Object_0.len())
        } else {
            T::ignored(t)
        }
    }

    fn audit(v: &Value, at: &mut Vec<Segment>, out: &mut Vec<Vec<Segment>>) {
        if holds_reference(v) {
            report_unknown::<ReferenceKeys>(v, at, out);
        } else {
            T::audit(v, at, out);
        }
    }

    proof fn clean(m: RefOrV<T::M>) {
        lemma_written_reference::<T>(m);
        match m {
            RefOrV::Reference {
                reference,
                title,
                description,
                type_,
                read_only,
                x_ms_client_flatten,
            } => {
                lemma_reference_clean(
                    reference,
                    title,
                    description,
                    type_,
                    read_only,
                    x_ms_client_flatten,
                );
            },
            RefOrV::Item(x) => {
                T::clean(x);
            },
        }
    }
}

/// The ignored keys of a value, each by its path from the value down.
pub fn ignored_keys<T: Audit>(v: &Value) -> (r: Vec<Vec<Segment>>)
    ensures
        r.model() == T::ignored(value_tree(*v)),
{
    let mut at: Vec<Segment> = Vec::new();
    let mut out: Vec<Vec<Segment>> = Vec::new();
    assert(at.model() =~= Seq::empty());
    assert(out.model() =~= Seq::empty());
    T::audit(v, &mut at, &mut out);
    proof {
        let found = T::ignored(value_tree(*v));
        assert forall|i: int| 0 <= i < found.len() implies based(found, Seq::empty())[i]
            == found[i] by {
            assert(Seq::<SegmentV>::empty() + found[i] =~= found[i]);
        }
        assert(Seq::<PathV>::empty() + based(found, Seq::empty()) =~= found);
    }
    out
}

/// Paths in dotted form.
pub open spec fn all_dotted(paths: Seq<PathV>) -> Seq<Seq<char>> {
    paths.map_values(|p: PathV| dotted(p))
}

/// Renders paths in dotted form.
pub fn render_paths(paths: &Vec<Vec<Segment>>) -> (r: Vec<String>)
    ensures
        r.model() == all_dotted(paths.model()),
{
    let mut out: Vec<String> = Vec::new();
    let mut i: usize = 0;
    while i < paths.len()
        invariant
            0 <= i <= paths.len(),
            out.model() =~= all_dotted(paths.model()).take(i as int),
        decreases paths.len() - i,
    {
        let ghost before = out.model();
        let text = render_path(&paths[i]);
        out.push(text);
        proof {
            assert(out.model() =~= before.push(text@));
            assert(paths.model()[i as int] == paths@[i as int].model());
            assert(all_dotted(paths.model()).take(i + 1) =~= all_dotted(paths.model()).take(
                i as int,
            ).push(all_dotted(paths.model())[i as int]));
        }
        i += 1;
    }
    assert(all_dotted(paths.model()).take(i as int) =~= all_dotted(paths.model()));
    out
}

} // verus!
