//! The binding of a type of the model to JSON: which trees it is read from,
//! which tree it is written as, and that reading gives back what was written.

use vstd::prelude::*;
use serde_json::{Number, Value};
use crate::error::{mismatch, outcome, overflow, DecodeError, DecodeErrorV, Expected, Reason};
use crate::json::{
    bool_value, has_key, kind_of, number_value, text_value, unsigned_value, value_tree, JsonV,
    NumberV,
};
use crate::model::Model;

verus! {

/// A type of the model that is read from and written to JSON.
pub trait Binding: Model + Sized {
    /// The value that a tree is read as, or the error that it is rejected
    /// with.
    spec fn from_json(t: JsonV) -> Result<Self::M, DecodeErrorV>;

    /// The tree that a value is written as.
    spec fn to_json(m: Self::M) -> JsonV;

    /// Reads a value.
    fn decode(v: &Value) -> (r: Result<Self, DecodeError>)
        ensures
            outcome(r) == Self::from_json(value_tree(*v)),
    ;

    /// Writes a value.
    fn encode(&self) -> (v: Value)
        ensures
            value_tree(v) == Self::to_json(self.model()),
    ;

    /// Reading what was written gives the value back, whatever the value;
    /// and no value is written as `null`.
    proof fn round_trip(m: Self::M)
        ensures
            Self::from_json(Self::to_json(m)) == Ok::<Self::M, DecodeErrorV>(m),
            !(Self::to_json(m) is Null),
    ;
}

/// Reading, writing and reading again gives what the first reading gave: a
/// value that some tree is read as is read back from what it is written as.
pub proof fn lemma_reread<T: Binding>(t: JsonV)
    ensures
        T::from_json(t) matches Ok(m) ==> T::from_json(T::to_json(m)) == T::from_json(t),
{
    if T::from_json(t) is Ok {
        T::round_trip(T::from_json(t)->Ok_0);
    }
}

/// A type that is written as an object without the key `$ref`, so that what
/// it is written as is never taken for a reference.
pub trait Record: Binding {
    proof fn written_as_record(m: Self::M)
        ensures
            Self::to_json(m) is Object,
            !has_key(Self::to_json(m)->Object_0, "$ref"@),
    ;
}

impl Binding for bool {
    open spec fn from_json(t: JsonV) -> Result<bool, DecodeErrorV> {
        match t {
            JsonV::Bool(b) => Ok(b),
            _ => Err(mismatch(Expected::Boolean, t)),
        }
    }

    open spec fn to_json(m: bool) -> JsonV {
        JsonV::Bool(m)
    }

    fn decode(v: &Value) -> (r: Result<bool, DecodeError>) {
        match v.as_bool() {
            Some(b) => Ok(b),
            None => Err(DecodeError::mismatch(Expected::Boolean, kind_of(v))),
        }
    }

    fn encode(&self) -> (v: Value) {
        bool_value(*self)
    }

    proof fn round_trip(m: bool) {
    }
}

impl Binding for String {
    open spec fn from_json(t: JsonV) -> Result<Seq<char>, DecodeErrorV> {
        match t {
            JsonV::Text(s) => Ok(s),
            _ => Err(mismatch(Expected::String, t)),
        }
    }

    open spec fn to_json(m: Seq<char>) -> JsonV {
        JsonV::Text(m)
    }

    fn decode(v: &Value) -> (r: Result<String, DecodeError>) {
        match v.as_str() {
            Some(s) => Ok(s.to_owned()),
            None => Err(DecodeError::mismatch(Expected::String, kind_of(v))),
        }
    }

    fn encode(&self) -> (v: Value) {
        text_value(self.clone())
    }

    proof fn round_trip(m: Seq<char>) {
    }
}

/// A length or a count: a non-negative integer that fits the machine's word.
/// A negative or fractional number is of the wrong shape; an integer beyond
/// the word overflows.
impl Binding for usize {
    open spec fn from_json(t: JsonV) -> Result<usize, DecodeErrorV> {
        match t {
            JsonV::Number(NumberV::PosInt(n)) => if n <= usize::MAX {
                Ok(n as usize)
            } else {
                Err(overflow())
            },
            _ => Err(mismatch(Expected::UnsignedInteger, t)),
        }
    }

    open spec fn to_json(m: usize) -> JsonV {
        JsonV::Number(NumberV::PosInt(m as u64))
    }

    fn decode(v: &Value) -> (r: Result<usize, DecodeError>) {
        match v.as_u64() {
            Some(n) => if n <= usize::MAX as u64 {
                Ok(n as usize)
            } else {
                Err(DecodeError::new(Reason::Overflow))
            },
            None => Err(DecodeError::mismatch(Expected::UnsignedInteger, kind_of(v))),
        }
    }

    fn encode(&self) -> (v: Value) {
        unsigned_value(*self as u64)
    }

    proof fn round_trip(m: usize) {
    }
}

/// A JSON number, kept as the parser read it.
impl Binding for Number {
    open spec fn from_json(t: JsonV) -> Result<NumberV, DecodeErrorV> {
        match t {
            JsonV::Number(n) => Ok(n),
            _ => Err(mismatch(Expected::Number, t)),
        }
    }

    open spec fn to_json(m: NumberV) -> JsonV {
        JsonV::Number(m)
    }

    fn decode(v: &Value) -> (r: Result<Number, DecodeError>) {
        match v.as_number() {
            Some(n) => Ok(n.clone()),
            None => Err(DecodeError::mismatch(Expected::Number, kind_of(v))),
        }
    }

    fn encode(&self) -> (v: Value) {
        number_value(self.clone())
    }

    proof fn round_trip(m: NumberV) {
    }
}

} // verus!
