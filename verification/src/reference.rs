//! A value given in place, or a reference to one.
//!
//! An object that holds the key `$ref` is a reference, whatever else it
//! holds. Beside the pointer a reference keeps the few members that documents
//! in the field put next to it; any other member of such an object is not part
//! of the model.

use vstd::prelude::*;
use serde_json::Value;
use crate::binding::{Binding, Record};
use crate::error::{outcome, DecodeError, DecodeErrorV};
use crate::fields::{
    lemma_has_key, lemma_optional, lemma_required, lemma_with_member, optional_field, optional_json,
    put_optional, put_required, read_optional, read_required, required_field, required_json,
    with_member, Members,
};
use crate::json::{empty_object, has_key, member, value_tree, JsonV};
use crate::model::Model;
use crate::schema::DataType;

verus! {

/// Either a value in place or a reference to one.
#[derive(Clone, Debug, PartialEq)]
pub enum ReferenceOr<T> {
    /// A reference: the pointer under `$ref`, and the members that are kept
    /// beside it.
    Reference {
        reference: String,
        title: Option<String>,
        description: Option<String>,
        type_: Option<DataType>,
        read_only: Option<bool>,
        x_ms_client_flatten: Option<bool>,
    },
    /// A value in place.
    Item(T),
}

/// The model of a [`ReferenceOr`].
pub enum RefOrV<M> {
    Reference {
        reference: Seq<char>,
        title: Option<Seq<char>>,
        description: Option<Seq<char>>,
        type_: Option<DataType>,
        read_only: Option<bool>,
        x_ms_client_flatten: Option<bool>,
    },
    Item(M),
}

impl<T: Model> Model for ReferenceOr<T> {
    type M = RefOrV<T::M>;

    open spec fn model(&self) -> RefOrV<T::M> {
        match self {
            ReferenceOr::Reference {
                reference,
                title,
                description,
                type_,
                read_only,
                x_ms_client_flatten,
            } => RefOrV::Reference {
                reference: reference.model(),
                title: title.model(),
                description: description.model(),
                type_: type_.model(),
                read_only: read_only.model(),
                x_ms_client_flatten: x_ms_client_flatten.model(),
            },
            ReferenceOr::Item(x) => RefOrV::Item(x.model()),
        }
    }
}

impl<T> ReferenceOr<T> {
    /// A reference that holds the pointer and nothing beside it.
    pub fn reference(pointer: String) -> (r: ReferenceOr<T>)
        ensures
            r == (ReferenceOr::<T>::Reference {
                reference: pointer,
                title: None,
                description: None,
                type_: None,
                read_only: None,
                x_ms_client_flatten: None,
            }),
    {
        ReferenceOr::Reference {
            reference: pointer,
            title: None,
            description: None,
            type_: None,
            read_only: None,
            x_ms_client_flatten: None,
        }
    }

    /// A value in place.
    pub fn item(item: T) -> (r: ReferenceOr<T>)
        ensures
            r == ReferenceOr::Item(item),
    {
        ReferenceOr::Item(item)
    }
}

impl<T> ReferenceOr<Box<T>> {
    /// The same reference or value without the box around the value.
    pub fn unbox(self) -> (r: ReferenceOr<T>)
        ensures
            r == (match self {
                ReferenceOr::Reference {
                    reference,
                    title,
                    description,
                    type_,
                    read_only,
                    x_ms_client_flatten,
                } => ReferenceOr::<T>::Reference {
                    reference,
                    title,
                    description,
                    type_,
                    read_only,
                    x_ms_client_flatten,
                },
                ReferenceOr::Item(x) => ReferenceOr::Item(*x),
            }),
    {
        match self {
            ReferenceOr::Reference {
                reference,
                title,
                description,
                type_,
                read_only,
                x_ms_client_flatten,
            } => ReferenceOr::Reference {
                reference,
                title,
                description,
                type_,
                read_only,
                x_ms_client_flatten,
            },
            ReferenceOr::Item(x) => ReferenceOr::Item(*x),
        }
    }
}

/// Whether a tree is read as a reference: it is an object that holds the key
/// `$ref`.
pub open spec fn is_reference(t: JsonV) -> bool {
    t is Object && has_key(t->Object_0, "$ref"@)
}

/// The reference that the members of an object are read as.
pub open spec fn reference_from_json<M>(e: Members) -> Result<RefOrV<M>, DecodeErrorV> {
    let reference = required_field::<String>(e, "$ref"@);
    let title = optional_field::<String>(e, "title"@);
    let description = optional_field::<String>(e, "description"@);
    let type_ = optional_field::<DataType>(e, "type"@);
    let read_only = optional_field::<bool>(e, "readOnly"@);
    let x_ms_client_flatten = optional_field::<bool>(e, "x-ms-client-flatten"@);
    if reference is Err {
        Err(reference->Err_0)
    } else if title is Err {
        Err(title->Err_0)
    } else if description is Err {
        Err(description->Err_0)
    } else if type_ is Err {
        Err(type_->Err_0)
    } else if read_only is Err {
        Err(read_only->Err_0)
    } else if x_ms_client_flatten is Err {
        Err(x_ms_client_flatten->Err_0)
    } else {
        Ok(
            RefOrV::Reference {
                reference: reference->Ok_0,
                title: title->Ok_0,
                description: description->Ok_0,
                type_: type_->Ok_0,
                read_only: read_only->Ok_0,
                x_ms_client_flatten: x_ms_client_flatten->Ok_0,
            },
        )
    }
}

/// The object that a reference is written as.
pub open spec fn reference_to_json(
    reference: Seq<char>,
    title: Option<Seq<char>>,
    description: Option<Seq<char>>,
    type_: Option<DataType>,
    read_only: Option<bool>,
    x_ms_client_flatten: Option<bool>,
) -> JsonV {
    let e: Members = Seq::empty();
    let e = with_member(e, "$ref"@, required_json::<String>(reference));
    let e = with_member(e, "title"@, optional_json::<String>(title));
    let e = with_member(e, "description"@, optional_json::<String>(description));
    let e = with_member(e, "type"@, optional_json::<DataType>(type_));
    let e = with_member(e, "readOnly"@, optional_json::<bool>(read_only));
    let e = with_member(e, "x-ms-client-flatten"@, optional_json::<bool>(x_ms_client_flatten));
    JsonV::Object(e)
}

/// A reference is read back from what it was written as, and what it was
/// written as is read as a reference.
pub proof fn lemma_reference_round_trip<M>(
    reference: Seq<char>,
    title: Option<Seq<char>>,
    description: Option<Seq<char>>,
    type_: Option<DataType>,
    read_only: Option<bool>,
    x_ms_client_flatten: Option<bool>,
)
    ensures
        is_reference(
            reference_to_json(reference, title, description, type_, read_only, x_ms_client_flatten),
        ),
        reference_from_json::<M>(
            reference_to_json(
                reference,
                title,
                description,
                type_,
                read_only,
                x_ms_client_flatten,
            )->Object_0,
        ) == Ok::<RefOrV<M>, DecodeErrorV>(
            RefOrV::Reference { reference, title, description, type_, read_only, x_ms_client_flatten },
        ),
{
    lemma_with_member();
    lemma_spelling();
    let e = reference_to_json(
        reference,
        title,
        description,
        type_,
        read_only,
        x_ms_client_flatten,
    )->Object_0;
    lemma_required::<String>(e, "$ref"@, reference);
    lemma_optional::<String>(e, "title"@, title);
    lemma_optional::<String>(e, "description"@, description);
    lemma_optional::<DataType>(e, "type"@, type_);
    lemma_optional::<bool>(e, "readOnly"@, read_only);
    lemma_optional::<bool>(e, "x-ms-client-flatten"@, x_ms_client_flatten);
}

/// What a reference is written as holds the pointer, holds each of the other
/// members exactly where the reference has it, and holds nothing else.
pub proof fn lemma_reference_keys(
    reference: Seq<char>,
    title: Option<Seq<char>>,
    description: Option<Seq<char>>,
    type_: Option<DataType>,
    read_only: Option<bool>,
    x_ms_client_flatten: Option<bool>,
    key: Seq<char>,
)
    ensures
        has_key(
            reference_to_json(
                reference,
                title,
                description,
                type_,
                read_only,
                x_ms_client_flatten,
            )->Object_0,
            "$ref"@,
        ),
        has_key(
            reference_to_json(
                reference,
                title,
                description,
                type_,
                read_only,
                x_ms_client_flatten,
            )->Object_0,
            "title"@,
        ) == (title is Some),
        has_key(
            reference_to_json(
                reference,
                title,
                description,
                type_,
                read_only,
                x_ms_client_flatten,
            )->Object_0,
            "description"@,
        ) == (description is Some),
        has_key(
            reference_to_json(
                reference,
                title,
                description,
                type_,
                read_only,
                x_ms_client_flatten,
            )->Object_0,
            "type"@,
        ) == (type_ is Some),
        has_key(
            reference_to_json(
                reference,
                title,
                description,
                type_,
                read_only,
                x_ms_client_flatten,
            )->Object_0,
            "readOnly"@,
        ) == (read_only is Some),
        has_key(
            reference_to_json(
                reference,
                title,
                description,
                type_,
                read_only,
                x_ms_client_flatten,
            )->Object_0,
            "x-ms-client-flatten"@,
        ) == (x_ms_client_flatten is Some),
        has_key(
            reference_to_json(
                reference,
                title,
                description,
                type_,
                read_only,
                x_ms_client_flatten,
            )->Object_0,
            key,
        ) ==> {
            ||| key == "$ref"@
            ||| key == "title"@
            ||| key == "description"@
            ||| key == "type"@
            ||| key == "readOnly"@
            ||| key == "x-ms-client-flatten"@
        },
{
    lemma_with_member();
    lemma_spelling();
}

/// How the keys are spelled, as far as it takes to tell them apart.
proof fn lemma_spelling()
    ensures
        "$ref"@.len() == 4,
        "title"@.len() == 5,
        "description"@.len() == 11,
        "type"@.len() == 4,
        "readOnly"@.len() == 8,
        "x-ms-client-flatten"@.len() == 19,
        "$ref"@[0] == '$',
        "type"@[0] == 't',
{
    reveal_strlit("$ref");
    reveal_strlit("title");
    reveal_strlit("description");
    reveal_strlit("type");
    reveal_strlit("readOnly");
    reveal_strlit("x-ms-client-flatten");
}

/// Whether a value is read as a reference.
pub fn holds_reference(v: &Value) -> (r: bool)
    ensures
        r == is_reference(value_tree(*v)),
{
    proof {
        if value_tree(*v) is Object {
            lemma_has_key(value_tree(*v)->Object_0, "$ref"@);
        }
    }
    member(v, "$ref").is_some()
}

/// Reads the members of an object as a reference.
pub fn decode_reference<T: Model>(v: &Value) -> (r: Result<ReferenceOr<T>, DecodeError>)
    requires
        value_tree(*v) is Object,
    ensures
        outcome(r) == reference_from_json::<T::M>(value_tree(*v)->Object_0),
{
    let reference = read_required::<String>(v, "$ref")?;
    let title = read_optional::<String>(v, "title")?;
    let description = read_optional::<String>(v, "description")?;
    let type_ = read_optional::<DataType>(v, "type")?;
    let read_only = read_optional::<bool>(v, "readOnly")?;
    let x_ms_client_flatten = read_optional::<bool>(v, "x-ms-client-flatten")?;
    Ok(
        ReferenceOr::Reference {
            reference,
            title,
            description,
            type_,
            read_only,
            x_ms_client_flatten,
        },
    )
}

/// Writes a reference.
pub fn encode_reference(
    reference: &String,
    title: &Option<String>,
    description: &Option<String>,
    type_: &Option<DataType>,
    read_only: &Option<bool>,
    x_ms_client_flatten: &Option<bool>,
) -> (v: Value)
    ensures
        value_tree(v) == reference_to_json(
            reference.model(),
            title.model(),
            description.model(),
            type_.model(),
            read_only.model(),
            x_ms_client_flatten.model(),
        ),
{
    let mut o = empty_object();
    put_required::<String>(&mut o, "$ref", reference);
    put_optional::<String>(&mut o, "title", title);
    put_optional::<String>(&mut o, "description", description);
    put_optional::<DataType>(&mut o, "type", type_);
    put_optional::<bool>(&mut o, "readOnly", read_only);
    put_optional::<bool>(&mut o, "x-ms-client-flatten", x_ms_client_flatten);
    o
}

impl<T: Record> Binding for ReferenceOr<T> {
    open spec fn from_json(t: JsonV) -> Result<RefOrV<T::M>, DecodeErrorV> {
        if is_reference(t) {
            reference_from_json::<T::M>(t->Object_0)
        } else {
            match T::from_json(t) {
                Ok(x) => Ok(RefOrV::Item(x)),
                Err(e) => Err(e),
            }
        }
    }

    open spec fn to_json(m: RefOrV<T::M>) -> JsonV {
        match m {
            RefOrV::Reference {
                reference,
                title,
                description,
                type_,
                read_only,
                x_ms_client_flatten,
            } => reference_to_json(
                reference,
                title,
                description,
                type_,
                read_only,
                x_ms_client_flatten,
            ),
            RefOrV::Item(x) => T::to_json(x),
        }
    }

    fn decode(v: &Value) -> (r: Result<ReferenceOr<T>, DecodeError>) {
        if holds_reference(v) {
            decode_reference::<T>(v)
        } else {
            match T::decode(v) {
                Ok(x) => Ok(ReferenceOr::Item(x)),
                Err(e) => Err(e),
            }
        }
    }

    fn encode(&self) -> (v: Value) {
        match self {
            ReferenceOr::Reference {
                reference,
                title,
                description,
                type_,
                read_only,
                x_ms_client_flatten,
            } => encode_reference(
                reference,
                title,
                description,
                type_,
                read_only,
                x_ms_client_flatten,
            ),
            ReferenceOr::Item(x) => x.encode(),
        }
    }

    proof fn round_trip(m: RefOrV<T::M>) {
        match m {
            RefOrV::Reference {
                reference,
                title,
                description,
                type_,
                read_only,
                x_ms_client_flatten,
            } => {
                lemma_reference_round_trip::<T::M>(
                    reference,
                    title,
                    description,
                    type_,
                    read_only,
                    x_ms_client_flatten,
                );
            },
            RefOrV::Item(x) => {
                T::written_as_record(x);
                T::round_trip(x);
            },
        }
    }
}

/// Dispatch on `$ref`: an object that holds the key is read as a reference
/// and never as a value in place, whatever else it holds. The members kept
/// beside the pointer are read from their keys; no other member is read.
pub proof fn lemma_reference_wins<T: Record>(t: JsonV)
    requires
        is_reference(t),
    ensures
        ReferenceOr::<T>::from_json(t) == reference_from_json::<T::M>(t->Object_0),
        ReferenceOr::<T>::from_json(t) matches Ok(r) ==> r is Reference,
{
}

/// Dispatch on writing: a reference is written with the key `$ref`, and a
/// value in place without it.
pub proof fn lemma_written_reference<T: Record>(m: RefOrV<T::M>)
    ensures
        is_reference(ReferenceOr::<T>::to_json(m)) == (m is Reference),
{
    match m {
        RefOrV::Reference {
            reference,
            title,
            description,
            type_,
            read_only,
            x_ms_client_flatten,
        } => {
            lemma_reference_round_trip::<T::M>(
                reference,
                title,
                description,
                type_,
                read_only,
                x_ms_client_flatten,
            );
        },
        RefOrV::Item(x) => {
            T::written_as_record(x);
        },
    }
}

} // verus!
