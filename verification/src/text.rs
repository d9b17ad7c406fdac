//! Documents as JSON text: reading a value of the model from a text and
//! writing one as a text.
//!
//! The text is parsed and printed by `serde_json`; between the tree and the
//! model stands the binding of this crate.

use vstd::prelude::*;
use vstd::string::StringSliceAdditionalSpecFns;
use crate::audit::{all_dotted, ignored_keys, render_paths, Audit};
use crate::binding::Binding;
use crate::error::{DecodeError, DecodeErrorV};
use crate::json::{diagnostic, parse_value, parsed, print_value, printed};
use crate::model::Model;

verus! {

/// Why a text was not read.
#[derive(Clone, Debug, PartialEq, Eq)]
pub enum ReadError {
    /// The text is not JSON: where the parser stopped, and what it said.
    Syntax { line: usize, column: usize, message: String },
    /// The text is JSON that does not fit the model.
    Decode(DecodeError),
}

/// What a text is read as: nothing where the text is not JSON, else what the
/// tree of the text is read as.
pub open spec fn read_as<T: Binding>(text: Seq<u8>) -> Option<Result<T::M, DecodeErrorV>> {
    match parsed(text) {
        Some(t) => Some(T::from_json(t)),
        None => None,
    }
}

/// What reading a text gave, set against what the text is read as.
pub open spec fn answers<T: Binding>(r: Result<T, ReadError>, text: Seq<u8>) -> bool {
    match r {
        Ok(x) => read_as::<T>(text) == Some(Ok::<T::M, DecodeErrorV>(x.model())),
        Err(ReadError::Decode(e)) => read_as::<T>(text) == Some(
            Err::<T::M, DecodeErrorV>(e.model()),
        ),
        Err(ReadError::Syntax { .. }) => read_as::<T>(text) is None,
    }
}

/// Reads a value from the bytes of a JSON text.
pub fn from_slice<T: Binding>(text: &[u8]) -> (r: Result<T, ReadError>)
    ensures
        answers(r, text@),
{
    match parse_value(text) {
        Err(e) => Err(
            ReadError::Syntax { line: e.line(), column: e.column(), message: diagnostic(&e) },
        ),
        Ok(v) => match T::decode(&v) {
            Ok(x) => Ok(x),
            Err(e) => Err(ReadError::Decode(e)),
        },
    }
}

/// What reading a text with an audit gave, set against what the text is read
/// as and against the ignored keys of its tree.
pub open spec fn audited<T: Audit>(r: Result<(T, Vec<String>), ReadError>, text: Seq<u8>) -> bool {
    match r {
        Ok((x, ignored)) => {
            &&& read_as::<T>(text) == Some(Ok::<T::M, DecodeErrorV>(x.model()))
            &&& ignored.model() == all_dotted(T::ignored(parsed(text)->0))
        },
        Err(ReadError::Decode(e)) => read_as::<T>(text) == Some(
            Err::<T::M, DecodeErrorV>(e.model()),
        ),
        Err(ReadError::Syntax { .. }) => read_as::<T>(text) is None,
    }
}

/// Reads a value from the bytes of a JSON text and names, in dotted form, the
/// keys that the model passed over.
pub fn from_slice_with_ignored<T: Audit>(text: &[u8]) -> (r: Result<(T, Vec<String>), ReadError>)
    ensures
        audited(r, text@),
{
    match parse_value(text) {
        Err(e) => Err(
            ReadError::Syntax { line: e.line(), column: e.column(), message: diagnostic(&e) },
        ),
        Ok(v) => match T::decode(&v) {
            Ok(x) => {
                let paths = ignored_keys::<T>(&v);
                Ok((x, render_paths(&paths)))
            },
            Err(e) => Err(ReadError::Decode(e)),
        },
    }
}

/// Reads a value from a JSON text.
pub fn from_str<T: Binding>(text: &str) -> (r: Result<T, ReadError>)
    ensures
        answers(r, text.spec_bytes()),
{
    from_slice::<T>(text.as_bytes())
}

/// Writes a value as a JSON text, in the compact form.
pub fn to_string<T: Binding>(value: &T) -> (s: String)
    ensures
        s@ == printed(T::to_json(value.model())),
{
    let v = value.encode();
    print_value(&v)
}

} // verus!
