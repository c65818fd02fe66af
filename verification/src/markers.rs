//! Marker types that record, in a builder's type, which parts have been supplied.

use vstd::prelude::*;
use std::marker::PhantomData;

verus! {

/// Marks a builder slot that has not been filled.
pub struct Empty;

/// Marks a builder slot that has been filled with `T`.
pub struct Assigned<T>(PhantomData<T>);

/// Tells whether a marker stands for a filled slot.
pub trait Assignable {
    /// Whether the slot is filled.
    const IS_ASSIGNED: bool;
}

impl Assignable for Empty {
    const IS_ASSIGNED: bool = false;
}

impl<T> Assignable for Assigned<T> {
    const IS_ASSIGNED: bool = true;
}

/// An open slot is not assigned.
pub proof fn lemma_empty_is_unassigned()
    ensures
        !Empty::IS_ASSIGNED,
{
}

/// A filled slot is assigned, whatever fills it.
pub proof fn lemma_assigned_is_assigned<T>()
    ensures
        <Assigned<T> as Assignable>::IS_ASSIGNED,
{
}

} // verus!
