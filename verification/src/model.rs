//! The mathematical value that a piece of a document stands for.

use vstd::prelude::*;
use crate::json::{number_model, value_tree, JsonV, NumberV};

verus! {

/// A type of the document model, with the mathematical value of each of its
/// values: text as a sequence of characters, a list as a sequence, a record as
/// a record of such values.
pub trait Model {
    type M;

    spec fn model(&self) -> Self::M;
}

impl Model for bool {
    type M = bool;

    open spec fn model(&self) -> bool {
        *self
    }
}

impl Model for usize {
    type M = usize;

    open spec fn model(&self) -> usize {
        *self
    }
}

impl Model for String {
    type M = Seq<char>;

    open spec fn model(&self) -> Seq<char> {
        self@
    }
}

impl Model for serde_json::Value {
    type M = JsonV;

    open spec fn model(&self) -> JsonV {
        value_tree(*self)
    }
}

impl Model for serde_json::Number {
    type M = NumberV;

    open spec fn model(&self) -> NumberV {
        number_model(*self)
    }
}

impl<T: Model> Model for Option<T> {
    type M = Option<T::M>;

    open spec fn model(&self) -> Option<T::M> {
        match self {
            Some(x) => Some(x.model()),
            None => None,
        }
    }
}

impl<T: Model> Model for Box<T> {
    type M = T::M;

    open spec fn model(&self) -> T::M {
        (**self).model()
    }
}

impl<T: Model> Model for Vec<T> {
    type M = Seq<T::M>;

    open spec fn model(&self) -> Seq<T::M> {
        self@.map_values(|x: T| x.model())
    }
}

} // verus!
