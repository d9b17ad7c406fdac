//! Small predicates on booleans that the binding uses to decide whether a
//! field is written.

use vstd::prelude::*;

verus! {

/// Whether a boolean field holds `false`, the value at which it is left out.
#[inline]
pub fn is_false(v: &bool) -> (r: bool)
    ensures
        r == !*v,
{
    !(*v)
}

/// Whether a boolean field holds `true`.
#[inline]
pub fn is_true(v: &bool) -> (r: bool)
    ensures
        r == *v,
{
    *v
}

/// The default of a boolean field that is on unless switched off.
pub fn default_as_true() -> (r: bool)
    ensures
        r,
{
    true
}

} // verus!
