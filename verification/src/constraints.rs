//! Index descriptors, length guarantees, and the two facts that relate them.

use vstd::prelude::*;

verus! {

/// A position in a sequence, counted from either end.
///
/// A forward index is zero-based: magnitude `0` names the first element. A
/// reverse index is one-based: magnitude `1` names the last element, and
/// magnitude `k` the element at `len - k`. The direction is kept apart from
/// the magnitude, so neither branch ever converts a sign.
#[derive(Clone, Copy, Debug)]
pub struct ConstIndex {
    pub magnitude: usize,
    pub reverse: bool,
}

/// A lower bound on the length of a sequence, settled before the program runs.
#[derive(Clone, Copy, Debug)]
pub struct ConstNum {
    pub value: usize,
}

/// The fact that a length guarantee is strictly positive.
pub trait NonZero {
    /// The fact itself.
    spec fn non_zero(&self) -> bool;

    /// Decides the fact on concrete values.
    fn check_non_zero(&self) -> (holds: bool)
        ensures
            holds == self.non_zero(),
    ;
}

impl NonZero for ConstNum {
    open spec fn non_zero(&self) -> bool {
        self.value > 0
    }

    fn check_non_zero(&self) -> (holds: bool) {
        self.value > 0
    }
}

/// The fact that an index is valid in every sequence that is at least as long
/// as a guarantee says.
pub trait WithinBounds {
    /// The fact itself.
    spec fn within_bounds(&self) -> bool;

    /// Decides the fact on concrete values.
    fn check_within_bounds(&self) -> (holds: bool)
        ensures
            holds == self.within_bounds(),
    ;
}

impl WithinBounds for (ConstIndex, ConstNum) {
    /// A forward index `m` is valid under `N` when `0 <= m < N`; a reverse
    /// index `k` when `1 <= k <= N`.
    open spec fn within_bounds(&self) -> bool {
        if self.0.reverse {
            1 <= self.0.magnitude <= self.1.value
        } else {
            self.0.magnitude < self.1.value
        }
    }

    fn check_within_bounds(&self) -> (holds: bool) {
        if self.0.reverse {
            // `k - 1 < N` in place of `k < N + 1`, which could overflow.
            self.0.magnitude >= 1 && within_bounds(0, self.0.magnitude - 1, self.1.value)
        } else {
            within_bounds(0, self.0.magnitude, self.1.value)
        }
    }
}

/// Whether `value` lies in the half-open range from `min` to `max_exclusive`.
pub fn within_bounds(min: usize, value: usize, max_exclusive: usize) -> (holds: bool)
    ensures
        holds == (min <= value < max_exclusive),
{
    value >= min && value < max_exclusive
}

impl ConstIndex {
    /// A reverse index of magnitude zero names no element of any sequence.
    pub open spec fn wf(&self) -> bool {
        self.reverse ==> self.magnitude >= 1
    }

    /// The descriptor that a signed index stands for: its absolute value, and
    /// the reverse direction when it is negative.
    pub open spec fn from_signed(index: int) -> ConstIndex {
        ConstIndex {
            magnitude: (if index < 0 {
                -index
            } else {
                index
            }) as usize,
            reverse: index < 0,
        }
    }

    /// The zero-based position that the index names in a sequence of `len`
    /// elements.
    pub open spec fn position(&self, len: nat) -> int {
        if self.reverse {
            len - self.magnitude
        } else {
            self.magnitude as int
        }
    }

    /// The descriptor of a signed index: `0` is the first element, `-1` the
    /// last.
    pub fn new(index: isize) -> (descriptor: ConstIndex)
        ensures
            descriptor == ConstIndex::from_signed(index as int),
            descriptor.wf(),
    {
        if index < 0 {
            let below: isize = -(index + 1);
            ConstIndex { magnitude: below as usize + 1, reverse: true }
        } else {
            ConstIndex { magnitude: index as usize, reverse: false }
        }
    }

    /// The index of the element `position` places after the first.
    pub fn from_start(position: usize) -> (descriptor: ConstIndex)
        ensures
            descriptor == (ConstIndex { magnitude: position, reverse: false }),
            descriptor.wf(),
    {
        ConstIndex { magnitude: position, reverse: false }
    }

    /// The index of the element `distance` places before the end; `1` is the
    /// last element.
    pub fn from_end(distance: usize) -> (descriptor: ConstIndex)
        ensures
            descriptor == (ConstIndex { magnitude: distance, reverse: true }),
            descriptor.wf() <==> distance >= 1,
    {
        ConstIndex { magnitude: distance, reverse: true }
    }

    /// Turns the index into a position in a sequence of `len` elements.
    pub fn resolve(&self, len: usize) -> (position: usize)
        requires
            (*self, ConstNum { value: len }).within_bounds(),
        ensures
            position == self.position(len as nat),
            position < len,
    {
        if self.reverse {
            len - self.magnitude
        } else {
            self.magnitude
        }
    }
}

/// An index that is valid under a guarantee names a position inside every
/// sequence that is at least as long as the guarantee.
pub proof fn lemma_within_bounds_in_range(index: ConstIndex, guarantee: ConstNum, len: nat)
    requires
        (index, guarantee).within_bounds(),
        guarantee.value <= len,
    ensures
        0 <= index.position(len) < len,
{
}

/// Nothing is valid under a guarantee of zero: no index of either direction,
/// and none of the accesses that need a non-empty sequence.
pub proof fn lemma_zero_admits_nothing(index: ConstIndex)
    ensures
        !(index, ConstNum { value: 0 }).within_bounds(),
        !(ConstNum { value: 0 }).non_zero(),
{
}

/// The two directions are symmetric: a forward index `m` and the reverse
/// index `len - m` name the same element of a sequence of exactly `len`
/// elements, and one is valid under `len` exactly when the other is.
pub proof fn lemma_directions_symmetric(forward: ConstIndex, backward: ConstIndex, len: ConstNum)
    requires
        !forward.reverse,
        backward.reverse,
        forward.magnitude + backward.magnitude == len.value,
    ensures
        (forward, len).within_bounds() <==> (backward, len).within_bounds(),
        forward.position(len.value as nat) == backward.position(len.value as nat),
{
}

/// A guarantee is non-zero exactly when the first and the last element can be
/// named under it.
pub proof fn lemma_non_zero_first_last(guarantee: ConstNum)
    ensures
        guarantee.non_zero() <==> (ConstIndex { magnitude: 0, reverse: false }, guarantee).within_bounds(),
        guarantee.non_zero() <==> (ConstIndex { magnitude: 1, reverse: true }, guarantee).within_bounds(),
{
}

} // verus!
