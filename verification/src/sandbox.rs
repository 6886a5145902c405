//! The handle, its operations, and the ways to obtain one.

use crate::constraints::{ConstIndex, ConstNum, NonZero, WithinBounds};
use vstd::prelude::*;

verus! {

/// `<[T]>::swap` of the standard library exchanges the elements at positions
/// `a` and `b` and leaves every other element where it was. It panics when a
/// position is out of bounds, so both are required to be inside the slice.
pub assume_specification<E>[ <[E]>::swap ](slice: &mut [E], a: usize, b: usize)
    requires
        a < old(slice)@.len(),
        b < old(slice)@.len(),
    ensures
        final(slice)@ == old(slice)@.update(a as int, old(slice)@[b as int]).update(
            b as int,
            old(slice)@[a as int],
        ),
;

/// The sequence `elements` with the elements at positions `i` and `j`
/// exchanged.
pub open spec fn swapped<T>(elements: Seq<T>, i: int, j: int) -> Seq<T> {
    elements.update(i, elements[j]).update(j, elements[i])
}

/// Exchanging the same two elements twice restores the sequence.
pub proof fn lemma_swap_twice_restores<T>(
    elements: Seq<T>,
    left_index: ConstIndex,
    right_index: ConstIndex,
    guarantee: ConstNum,
)
    requires
        (left_index, guarantee).within_bounds(),
        (right_index, guarantee).within_bounds(),
        guarantee.value <= elements.len(),
    ensures
        ({
            let once = swapped(
                elements,
                left_index.position(elements.len()),
                right_index.position(elements.len()),
            );
            swapped(once, left_index.position(once.len()), right_index.position(once.len()))
                == elements
        }),
{
    let once = swapped(
        elements,
        left_index.position(elements.len()),
        right_index.position(elements.len()),
    );
    assert(swapped(once, left_index.position(once.len()), right_index.position(once.len()))
        =~= elements);
}

/// Last in, first out: what a pop removes after a push is the value that was
/// pushed, and what stays is the sequence from before the push.
pub proof fn lemma_pop_undoes_push<T>(elements: Seq<T>, value: T)
    ensures
        elements.push(value).last() == value,
        elements.push(value).drop_last() == elements,
{
    assert(elements.push(value).drop_last() =~= elements);
}

/// Exclusive access to a `Vec`, together with a lower bound on its length.
///
/// The bound exists only for the verifier. A handle is never copied: an
/// operation that changes the length, or that hands out a reference for the
/// rest of the borrow, takes the handle by value, so a bound that the real
/// length has left behind cannot authorize a later access.
pub struct SandboxMut<'vec, T> {
    vec: &'vec mut Vec<T>,
    min_len: Ghost<ConstNum>,
}

impl<'vec, T> SandboxMut<'vec, T> {
    /// The reference that the handle holds. Dereferenced, it is the sequence
    /// as it stands now; its `final` is the sequence as the borrow will leave
    /// it to the owner.
    pub closed spec fn backing(self) -> &'vec mut Vec<T> {
        self.vec
    }

    /// The elements of the sequence as it stands now.
    pub open spec fn view(&self) -> Seq<T> {
        self.backing()@
    }

    /// The length guarantee that the handle carries.
    pub closed spec fn guarantee(&self) -> ConstNum {
        self.min_len@
    }

    /// The guaranteed minimum length, as a number.
    pub open spec fn min_len(&self) -> nat {
        self.guarantee().value as nat
    }

    #[verifier::type_invariant]
    spec fn length_is_guaranteed(&self) -> bool {
        self.min_len@.value <= self.vec@.len()
    }

    /// Once a handle is dropped nothing writes through it any more, so the
    /// sequence that the borrow leaves behind is the one the handle saw last.
    pub broadcast proof fn lemma_resolved(self)
        ensures
            #[trigger] has_resolved(self) ==> has_resolved(self.backing()),
    {
    }

    fn get_checked_index(vec: &Vec<T>, index: ConstIndex) -> (element: &T)
        requires
            (index, ConstNum { value: vec.len() }).within_bounds(),
        ensures
            *element == vec@[index.position(vec@.len())],
    {
        let position = index.resolve(vec.len());
        &vec[position]
    }

    fn get_mut_checked_index(vec: &mut Vec<T>, index: ConstIndex) -> (element: &mut T)
        requires
            (index, ConstNum { value: old(vec).len() }).within_bounds(),
        ensures
            *element == old(vec)@[index.position(old(vec)@.len())],
            final(vec)@ == old(vec)@.update(index.position(old(vec)@.len()), *final(element)),
    {
        let position = index.resolve(vec.len());
        &mut vec[position]
    }

    /// The real length of the sequence, which is never below the guarantee.
    pub fn len(&self) -> (len: usize)
        ensures
            len == self@.len(),
            self.min_len() <= len,
    {
        proof {
            use_type_invariant(self);
        }
        self.vec.len()
    }

    /// The element that `index` names. The reference lives as long as the
    /// borrow of the handle.
    pub fn get(&self, index: ConstIndex) -> (element: &T)
        requires
            (index, self.guarantee()).within_bounds(),
        ensures
            0 <= index.position(self@.len()) < self@.len(),
            *element == self@[index.position(self@.len())],
    {
        proof {
            use_type_invariant(self);
        }
        Self::get_checked_index(self.vec, index)
    }

    /// Gives up the handle for a reference to the element that `index` names.
    /// The reference lives as long as the borrow of the sequence, which stays
    /// as it is from here on.
    pub fn release_get(self, index: ConstIndex) -> (element: &'vec T)
        requires
            (index, self.guarantee()).within_bounds(),
        ensures
            0 <= index.position(self@.len()) < self@.len(),
            *element == self@[index.position(self@.len())],
            final(self.backing())@ == self@,
    {
        proof {
            use_type_invariant(&self);
        }
        let vec: &'vec Vec<T> = self.vec;
        Self::get_checked_index(vec, index)
    }

    /// Gives up the handle for a mutable reference to the element that `index`
    /// names. What is written through the reference is what the sequence holds
    /// at that position when the borrow ends; the rest stays as it is.
    pub fn release_get_mut(self, index: ConstIndex) -> (element: &'vec mut T)
        requires
            (index, self.guarantee()).within_bounds(),
        ensures
            0 <= index.position(self@.len()) < self@.len(),
            *element == self@[index.position(self@.len())],
            final(self.backing())@ == self@.update(
                index.position(self@.len()),
                *final(element),
            ),
    {
        proof {
            use_type_invariant(&self);
        }
        let vec = self.vec;
        Self::get_mut_checked_index(vec, index)
    }

    /// Exchanges the elements that `left_index` and `right_index` name. The
    /// length and the guarantee stay as they are.
    pub fn swap(self, left_index: ConstIndex, right_index: ConstIndex) -> (next: SandboxMut<'vec, T>)
        requires
            (left_index, self.guarantee()).within_bounds(),
            (right_index, self.guarantee()).within_bounds(),
        ensures
            next.guarantee() == self.guarantee(),
            next@ == swapped(
                self@,
                left_index.position(self@.len()),
                right_index.position(self@.len()),
            ),
            next@.len() == self@.len(),
            final(next.backing())@ == final(self.backing())@,
    {
        proof {
            use_type_invariant(&self);
        }
        let ghost guarantee = self.min_len@;
        let vec = self.vec;
        let len = vec.len();
        let left = left_index.resolve(len);
        let right = right_index.resolve(len);
        vec.swap(left, right);
        SandboxMut { vec, min_len: Ghost(guarantee) }
    }

    /// Appends `value`. The length grows by one, and the guarantee with it.
    pub fn push(self, value: T) -> (next: SandboxMut<'vec, T>)
        ensures
            next.min_len() == self.min_len() + 1,
            next@ == self@.push(value),
            next@.len() == self@.len() + 1,
            final(next.backing())@ == final(self.backing())@,
    {
        proof {
            use_type_invariant(&self);
        }
        let ghost guarantee = self.min_len@;
        let vec = self.vec;
        vec.push(value);
        proof {
            // The new length is that of a `Vec`, so the guarantee still fits.
            assert(vec@.len() == vec.len());
        }
        SandboxMut { vec, min_len: Ghost(ConstNum { value: (guarantee.value + 1) as usize }) }
    }

    /// Compares the real length with `LEN`, once. Where the sequence is long
    /// enough, the handle comes back with `LEN` as its guarantee, whatever the
    /// guarantee was; where it is not, the handle comes back as it was. The
    /// sequence is the same either way.
    pub fn try_guarantee_length<const LEN: usize>(self) -> (outcome: Result<
        SandboxMut<'vec, T>,
        SandboxMut<'vec, T>,
    >)
        ensures
            outcome is Ok <==> self@.len() >= LEN,
            outcome matches Ok(narrowed) ==> narrowed.guarantee() == (ConstNum { value: LEN })
                && narrowed@ == self@ && final(narrowed.backing())@ == final(self.backing())@,
            outcome matches Err(unchanged) ==> unchanged == self,
    {
        if self.vec.len() >= LEN {
            let vec = self.vec;
            Ok(SandboxMut { vec, min_len: Ghost(ConstNum { value: LEN }) })
        } else {
            Err(self)
        }
    }

    /// Asks for a guarantee of one: `try_guarantee_length` with `1`. Where the
    /// sequence is empty the handle comes back as it was, guarantee and all.
    pub fn as_non_empty(self) -> (outcome: Result<SandboxMut<'vec, T>, SandboxMut<'vec, T>>)
        ensures
            outcome is Ok <==> self@.len() >= 1,
            outcome matches Ok(narrowed) ==> narrowed.guarantee() == (ConstNum { value: 1 })
                && narrowed@ == self@ && final(narrowed.backing())@ == final(self.backing())@,
            outcome matches Err(unchanged) ==> unchanged == self,
    {
        self.try_guarantee_length::<1>()
    }

    /// Gives up the handle for one with a guarantee of `LEN`, where the
    /// sequence holds at least `LEN` elements. Where it does not, nothing comes
    /// back and the borrow ends with the sequence as it is; a caller who wants
    /// the handle back in that case asks `try_guarantee_length`.
    pub fn with_min_length<const LEN: usize>(self) -> (out: Option<SandboxMut<'vec, T>>)
        ensures
            out is Some <==> self@.len() >= LEN,
            out matches Some(handle) ==> handle.guarantee() == (ConstNum { value: LEN })
                && handle@ == self@ && final(handle.backing())@ == final(self.backing())@,
            out is None ==> final(self.backing())@ == self@,
    {
        match self.try_guarantee_length::<LEN>() {
            Ok(narrowed) => Some(narrowed),
            Err(_) => None,
        }
    }
}

/// The operations that need no index but a non-empty sequence.
pub trait NonEmptyOps<'vec, T>: Sized {
    /// The handle that the operations work on.
    spec fn sandbox(self) -> SandboxMut<'vec, T>;

    /// The first element.
    fn first(&'vec self) -> (element: &'vec T)
        requires
            self.sandbox().guarantee().non_zero(),
        ensures
            self.sandbox()@.len() > 0,
            *element == self.sandbox()@.first(),
    ;

    /// The last element.
    fn last(&self) -> (element: &T)
        requires
            self.sandbox().guarantee().non_zero(),
        ensures
            self.sandbox()@.len() > 0,
            *element == self.sandbox()@.last(),
    ;

    /// Removes the last element and returns it beside the handle. The length
    /// shrinks by one, and the guarantee with it.
    fn pop(self) -> (out: (SandboxMut<'vec, T>, T))
        requires
            self.sandbox().guarantee().non_zero(),
        ensures
            self.sandbox()@.len() > 0,
            out.0.min_len() == self.sandbox().min_len() - 1,
            out.0@ == self.sandbox()@.drop_last(),
            out.0@.len() == self.sandbox()@.len() - 1,
            out.1 == self.sandbox()@.last(),
            final(out.0.backing())@ == final(self.sandbox().backing())@,
    ;
}

impl<'vec, T> NonEmptyOps<'vec, T> for SandboxMut<'vec, T> {
    open spec fn sandbox(self) -> SandboxMut<'vec, T> {
        self
    }

    fn first(&'vec self) -> (element: &'vec T) {
        proof {
            use_type_invariant(self);
        }
        &self.vec[0]
    }

    fn last(&self) -> (element: &T) {
        proof {
            use_type_invariant(self);
        }
        let len = self.vec.len();
        &self.vec[len - 1]
    }

    fn pop(self) -> (out: (SandboxMut<'vec, T>, T)) {
        proof {
            use_type_invariant(&self);
        }
        let ghost guarantee = self.min_len@;
        let vec = self.vec;
        let popped = vec.pop().unwrap();
        (
            SandboxMut { vec, min_len: Ghost(ConstNum { value: (guarantee.value - 1) as usize }) },
            popped,
        )
    }
}

/// Ways from a plain sequence to a handle with a guarantee of one's choice, at
/// the price of one comparison with the real length. Where the sequence is too
/// short there is no handle, and the borrow ends with the sequence as it was.
pub trait GuaranteedLength<'vec, T>: Sized {
    /// The exclusive reference to the sequence that is asked about.
    spec fn sequence(self) -> &'vec mut Vec<T>;

    /// A handle with a guarantee of one, where the sequence is not empty.
    fn as_non_empty(self) -> (out: Option<SandboxMut<'vec, T>>)
        ensures
            out is Some <==> self.sequence()@.len() >= 1,
            out matches Some(handle) ==> handle.guarantee() == (ConstNum { value: 1 })
                && handle@ == self.sequence()@
                && final(handle.backing())@ == final(self.sequence())@,
            out is None ==> final(self.sequence())@ == self.sequence()@,
    ;

    /// A handle with a guarantee of `LEN`, where the sequence holds at least
    /// `LEN` elements. The sequence is the same either way.
    fn with_min_length<const LEN: usize>(self) -> (out: Option<SandboxMut<'vec, T>>)
        ensures
            out is Some <==> self.sequence()@.len() >= LEN,
            out matches Some(handle) ==> handle.guarantee() == (ConstNum { value: LEN })
                && handle@ == self.sequence()@
                && final(handle.backing())@ == final(self.sequence())@,
            out is None ==> final(self.sequence())@ == self.sequence()@,
    ;
}

impl<'vec, T> GuaranteedLength<'vec, T> for &'vec mut Vec<T> {
    open spec fn sequence(self) -> &'vec mut Vec<T> {
        self
    }

    fn as_non_empty(self) -> (out: Option<SandboxMut<'vec, T>>) {
        self.with_min_length::<1>()
    }

    fn with_min_length<const LEN: usize>(self) -> (out: Option<SandboxMut<'vec, T>>) {
        if self.len() >= LEN {
            Some(SandboxMut { vec: self, min_len: Ghost(ConstNum { value: LEN }) })
        } else {
            None
        }
    }
}

/// Promotion of a plain sequence to a handle.
pub trait Sandboxed<'vec, T> where T: 'vec {
    /// The elements of the sequence.
    spec fn elements(&self) -> Seq<T>;

    /// A handle over the sequence. It guarantees nothing about the length,
    /// however long the sequence is.
    fn sandboxed(&'vec mut self) -> (handle: SandboxMut<'vec, T>)
        ensures
            handle.guarantee() == (ConstNum { value: 0 }),
            handle@ == old(self).elements(),
            final(handle.backing())@ == final(self).elements(),
    ;

    /// Runs `sandboxed_fn` on a handle over the sequence and returns what it
    /// returns. The handle is the one that `sandboxed` makes, and the sequence
    /// is left as the function leaves it.
    fn sandboxed_scope<R, F: FnOnce(SandboxMut<'vec, T>) -> R>(
        &'vec mut self,
        sandboxed_fn: F,
    ) -> (out: R)
        requires
            forall|handle: SandboxMut<'vec, T>|
                handle.guarantee() == (ConstNum { value: 0 }) && handle@ == old(self).elements()
                    ==> #[trigger] sandboxed_fn.requires((handle,)),
        ensures
            exists|handle: SandboxMut<'vec, T>|
                handle.guarantee() == (ConstNum { value: 0 }) && handle@ == old(self).elements()
                    && final(handle.backing())@ == final(self).elements()
                    && #[trigger] sandboxed_fn.ensures((handle,), out),
    ;
}

impl<'vec, T> Sandboxed<'vec, T> for Vec<T> where T: 'vec {
    open spec fn elements(&self) -> Seq<T> {
        self@
    }

    fn sandboxed(&'vec mut self) -> (handle: SandboxMut<'vec, T>) {
        SandboxMut { vec: self, min_len: Ghost(ConstNum { value: 0 }) }
    }

    fn sandboxed_scope<R, F: FnOnce(SandboxMut<'vec, T>) -> R>(
        &'vec mut self,
        sandboxed_fn: F,
    ) -> (out: R) {
        let sandbox = self.sandboxed();
        sandboxed_fn(sandbox)
    }
}

} // verus!
