//! Callers of the handle, each beside the same routine written without it.
//!
//! Every pair has one contract: the two bodies do the same thing. What differs
//! is where the reason lies that no element is missing. Without the handle it
//! is an argument about the lines above; with it, it is the precondition of
//! the access itself.

use crate::constraints::ConstIndex;
use crate::sandbox::{swapped, GuaranteedLength, NonEmptyOps, SandboxMut, Sandboxed};
use vstd::prelude::*;

verus! {

/// A list of values in ascending order, with its smallest and largest value
/// kept beside it. The bounds are `None` exactly when the list is empty.
pub struct SortedList {
    pub sorted_values: Vec<usize>,
    pub bounds: Option<(usize, usize)>,
}

/// Whether `values` is in ascending order.
pub open spec fn ascending(values: Seq<usize>) -> bool {
    forall|i: int, j: int| 0 <= i <= j < values.len() ==> values[i] <= values[j]
}

/// The first and the last of `values`, or `None` where there are none.
pub open spec fn bounds_of(values: Seq<usize>) -> Option<(usize, usize)> {
    if values.len() == 0 {
        None
    } else {
        Some((values.first(), values.last()))
    }
}

/// What popping does to a list: nothing where it is empty; else the last
/// value leaves and the bounds are those of the values that stay.
pub open spec fn pops(before: SortedList, after: SortedList, popped: Option<usize>) -> bool {
    if before.sorted_values@.len() == 0 {
        &&& popped is None
        &&& after.sorted_values@ == before.sorted_values@
        &&& after.bounds == before.bounds
    } else {
        &&& popped == Some(before.sorted_values@.last())
        &&& after.sorted_values@ == before.sorted_values@.drop_last()
        &&& after.bounds == bounds_of(before.sorted_values@.drop_last())
    }
}

/// Whether `value` is refused: it is below the largest value on record.
pub open spec fn refuses(list: SortedList, value: usize) -> bool {
    list.bounds matches Some((_, max)) && max > value
}

/// What pushing does to a list: nothing where the value is refused; else the
/// value is appended and the bounds are those of the longer list.
pub open spec fn pushes(
    before: SortedList,
    after: SortedList,
    value: usize,
    outcome: Result<(), ()>,
) -> bool {
    if refuses(before, value) {
        &&& outcome is Err
        &&& after.sorted_values@ == before.sorted_values@
        &&& after.bounds == before.bounds
    } else {
        &&& outcome is Ok
        &&& after.sorted_values@ == before.sorted_values@.push(value)
        &&& after.bounds == bounds_of(before.sorted_values@.push(value))
    }
}

impl SortedList {
    /// The values are in order and the bounds are theirs.
    pub open spec fn wf(&self) -> bool {
        &&& ascending(self.sorted_values@)
        &&& self.bounds == bounds_of(self.sorted_values@)
    }

    /// Removes the largest value and brings the bounds up to date.
    pub fn pop_and_update_bounds(&mut self) -> (popped: Option<usize>)
        ensures
            pops(*old(self), *final(self), popped),
            old(self).wf() ==> final(self).wf(),
    {
        let popped = self.sorted_values.pop();
        if popped.is_some() {
            // Where there is a first value there is a last one too, but the
            // two lookups do not say so: both options have to be opened.
            self.bounds = match self.sorted_values.first() {
                Some(first) => match self.sorted_values.last() {
                    Some(last) => Some((*first, *last)),
                    None => None,
                },
                None => None,
            };
        }
        popped
    }

    /// Removes the largest value and brings the bounds up to date. One check
    /// for emptiness opens the way to both ends.
    pub fn pop_and_update_bounds_sandboxed(&mut self) -> (popped: Option<usize>)
        ensures
            pops(*old(self), *final(self), popped),
            old(self).wf() ==> final(self).wf(),
    {
        broadcast use SandboxMut::lemma_resolved;

        let popped = self.sorted_values.pop();
        if popped.is_some() {
            self.bounds = match self.sorted_values.as_non_empty() {
                Some(sandbox) => Some((*sandbox.first(), *sandbox.last())),
                None => None,
            };
        }
        popped
    }

    /// Appends `value` unless it is below the largest value on record, and
    /// brings the bounds up to date.
    pub fn try_push_and_update_bounds(&mut self, value: usize) -> (outcome: Result<(), ()>)
        ensures
            pushes(*old(self), *final(self), value, outcome),
            old(self).wf() ==> final(self).wf(),
    {
        match self.bounds {
            Some((_, max)) if max > value => Err(()),
            _ => {
                self.sorted_values.push(value);
                // Both lookups succeed because of the push above; nothing in
                // their signatures says so.
                let new_min = self.sorted_values.first().expect(
                    "first value should exist after push",
                );
                let new_max = self.sorted_values.last().expect(
                    "last value should exist after push",
                );
                self.bounds = Some((*new_min, *new_max));
                Ok(())
            },
        }
    }

    /// Appends `value` unless it is below the largest value on record, and
    /// brings the bounds up to date. The push itself is what permits the two
    /// lookups.
    pub fn try_push_and_update_bounds_sandboxed(&mut self, value: usize) -> (outcome: Result<
        (),
        (),
    >)
        ensures
            pushes(*old(self), *final(self), value, outcome),
            old(self).wf() ==> final(self).wf(),
    {
        broadcast use SandboxMut::lemma_resolved;

        match self.bounds {
            Some((_, max)) if max > value => Err(()),
            _ => {
                let sandbox = self.sorted_values.sandboxed().push(value);
                self.bounds = Some((*sandbox.first(), *sandbox.last()));
                Ok(())
            },
        }
    }
}

/// A list in which a new value goes to the front, and the value that was at
/// the front goes to the end.
pub struct SwapInsertFront {
    pub values: Vec<String>,
}

impl SwapInsertFront {
    /// Appends `value` and exchanges it with the first value.
    pub fn swap_insert_front_panicking(&mut self, value: String)
        ensures
            final(self).values@ == swapped(
                old(self).values@.push(value),
                0,
                old(self).values@.len() as int,
            ),
    {
        let last_index = self.values.len();
        self.values.push(value);
        self.values.swap(0, last_index);
    }

    /// Appends `value` and exchanges it with the first value. Both indices are
    /// valid because of the push.
    pub fn swap_insert_front_sandboxed(&mut self, value: String)
        ensures
            final(self).values@ == swapped(
                old(self).values@.push(value),
                0,
                old(self).values@.len() as int,
            ),
    {
        broadcast use SandboxMut::lemma_resolved;

        let insert = |sandbox: SandboxMut<String>| -> (out: ())
            requires
                sandbox.min_len() == 0,
            ensures
                final(sandbox.backing())@ == swapped(
                    sandbox@.push(value),
                    0,
                    sandbox@.len() as int,
                ),
            {
                let first = ConstIndex::new(0);
                let last = ConstIndex::new(-1);
                sandbox.push(value).swap(first, last);
            };
        self.values.sandboxed_scope(insert)
    }
}

/// A list that hands out its newest value for writing.
pub struct PushAndGetMut {
    pub values: Vec<String>,
}

impl PushAndGetMut {
    /// Appends `value` and returns a reference to it.
    pub fn push_and_get_mut_panicking(&mut self, value: String) -> (slot: &mut String)
        ensures
            *slot == value,
            final(self).values@ == old(self).values@.push(*final(slot)),
    {
        self.values.push(value);
        self.values.last_mut().expect("value should always exist")
    }

    /// Appends `value` and returns a reference to it, wrapped in an option
    /// that is never `None`.
    pub fn push_and_get_mut_deferring(&mut self, value: String) -> (slot: Option<&mut String>)
        ensures
            slot is Some,
            *slot.unwrap() == value,
            final(self).values@ == old(self).values@.push(*final(slot.unwrap())),
    {
        self.values.push(value);
        self.values.last_mut()
    }

    /// Appends `value` and returns a reference to it.
    pub fn push_and_get_mut_sandboxed(&mut self, value: String) -> (slot: &mut String)
        ensures
            *slot == value,
            final(self).values@ == old(self).values@.push(*final(slot)),
    {
        self.values.sandboxed().push(value).release_get_mut(ConstIndex::new(-1))
    }

    /// Appends `value` and returns a reference to it, with the handle confined
    /// to a closure.
    pub fn push_and_get_mut_sandboxed_scope<'vec>(&'vec mut self, value: String) -> (slot:
        &'vec mut String)
        ensures
            *slot == value,
            final(self).values@ == old(self).values@.push(*final(slot)),
    {
        let push_and_get = |sandbox: SandboxMut<'vec, String>| -> (slot: &'vec mut String)
            requires
                sandbox.min_len() == 0,
            ensures
                *slot == value,
                final(sandbox.backing())@ == sandbox@.push(*final(slot)),
            {
                let slot = sandbox.push(value).release_get_mut(ConstIndex::new(-1));
                assert(sandbox@.push(value).update(sandbox@.len() as int, *final(slot))
                    =~= sandbox@.push(*final(slot)));
                slot
            };
        self.values.sandboxed_scope(push_and_get)
    }
}

} // verus!
