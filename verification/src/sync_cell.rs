//! A cell that gives exclusive access to the value it holds.

use vstd::prelude::*;

verus! {

/// Cell around a value; `with_mut` runs a closure with exclusive access to it.
pub struct SyncCell<T> {
    value: T,
}

impl<T> SyncCell<T> {
    /// The value held by the cell.
    pub closed spec fn inner(&self) -> T {
        self.value
    }

    /// Wraps `value` in a new cell.
    pub fn new(value: T) -> (cell: Self)
        ensures
            cell.inner() == value,
    {
        SyncCell { value }
    }
}

impl<T: Default> Default for SyncCell<T> {
    /// A cell holding the default value of `T`.
    fn default() -> (cell: Self)
        ensures
            call_ensures(T::default, (), cell.inner()),
    {
        Self::new(T::default())
    }
}

/// Runs `f` with exclusive access to the value in `cell` and returns what `f` returns.
pub fn with_mut<T, R, F: FnOnce(&mut T) -> R>(cell: &mut SyncCell<T>, f: F) -> (r: R)
    requires
        forall|v: &mut T| *v == old(cell).inner() ==> call_requires(f, (v,)),
    ensures
        exists|v: &mut T| *v == old(cell).inner() && *final(v) == final(cell).inner() && call_ensures(f, (v,), r),
{
    f(&mut cell.value)
}

} // verus!
