//! Handles around lent buffer segments that notify an owner-supplied reclaim
//! hook when the borrow ends.
//!
//! A backing buffer that lends a segment may need to learn when the borrower
//! is done with it (for example to advance an internal cursor).  The handle
//! types here carry the lent elements together with an optional reclaimer;
//! releasing a handle consumes it and fires the reclaimer at most once, and
//! a handle built without a reclaimer never calls back at all.

use core::marker::PhantomData;
use vstd::prelude::*;

verus! {

/// Reclaim hook invoked when an immutable lent slice is released.
///
/// The hook consumes itself, so it can fire at most once per handle.
pub trait TrReclaimIoSliceRef<T: Copy>: Sized {
    fn reclaim_ref(self, slice_ref: &mut IoSliceRef<T, Self>);
}

/// Reclaim hook invoked when a mutable lent slice is released.
///
/// The hook consumes itself, so it can fire at most once per handle.
pub trait TrReclaimIoSliceMut<T: Copy>: Sized {
    fn reclaim_mut(self, slice_mut: &mut IoSliceMut<T, Self>);
}

/// Reclaimer that does nothing on release, for lends that need no
/// bookkeeping (for example pure peeking).
pub struct NoReclaim<T: Copy>(PhantomData<[T; 0]>);

impl<T: Copy> NoReclaim<T> {
    pub fn new() -> Self {
        NoReclaim(PhantomData)
    }
}

impl<T: Copy> TrReclaimIoSliceRef<T> for NoReclaim<T> {
    fn reclaim_ref(self, slice_ref: &mut IoSliceRef<T, Self>) {
        let _ = slice_ref;
    }
}

impl<T: Copy> TrReclaimIoSliceMut<T> for NoReclaim<T> {
    fn reclaim_mut(self, slice_mut: &mut IoSliceMut<T, Self>) {
        let _ = slice_mut;
    }
}

/// An immutable slice lent by a backing buffer, with an optional reclaim
/// hook that fires exactly once when the handle is released.
pub struct IoSliceRef<T: Copy, R: TrReclaimIoSliceRef<T>> {
    slice_ref_: Vec<T>,
    reclaimer_: Option<R>,
}

impl<T: Copy, R: TrReclaimIoSliceRef<T>> View for IoSliceRef<T, R> {
    type V = Seq<T>;

    closed spec fn view(&self) -> Seq<T> {
        self.slice_ref_@
    }
}

impl<T: Copy, R: TrReclaimIoSliceRef<T>> IoSliceRef<T, R> {
    /// Whether releasing this handle will notify a reclaimer.
    pub closed spec fn has_reclaimer(&self) -> bool {
        self.reclaimer_ is Some
    }

    pub fn new_with_reclaimer(slice_ref: Vec<T>, reclaimer: R) -> (r: Self)
        ensures
            r@ == slice_ref@,
            r.has_reclaimer(),
    {
        IoSliceRef { slice_ref_: slice_ref, reclaimer_: Option::Some(reclaimer) }
    }

    /// Creates a handle that will not invoke any reclaimer, for example for
    /// pure peeking, which must not touch the buffer's bookkeeping.
    pub fn new(slice: Vec<T>) -> (r: Self)
        ensures
            r@ == slice@,
            !r.has_reclaimer(),
    {
        IoSliceRef { slice_ref_: slice, reclaimer_: Option::None }
    }

    pub fn len(&self) -> (r: usize)
        ensures
            r == self@.len(),
    {
        self.slice_ref_.len()
    }

    pub fn get(&self, i: usize) -> (r: T)
        requires
            i < self@.len(),
        ensures
            r == self@[i as int],
    {
        self.slice_ref_[i]
    }

    /// Ends the borrow: consumes the handle and notifies the reclaimer, if
    /// one was supplied, exactly once.
    pub fn release(self) {
        let mut this = self;
        let taken = this.reclaimer_.take();
        if let Option::Some(r) = taken {
            r.reclaim_ref(&mut this);
        }
    }
}

/// A mutable slice lent by a backing buffer, with an optional reclaim hook
/// that fires exactly once when the handle is released.
pub struct IoSliceMut<T: Copy, R: TrReclaimIoSliceMut<T>> {
    slice_mut_: Vec<T>,
    reclaimer_: Option<R>,
}

impl<T: Copy, R: TrReclaimIoSliceMut<T>> View for IoSliceMut<T, R> {
    type V = Seq<T>;

    closed spec fn view(&self) -> Seq<T> {
        self.slice_mut_@
    }
}

impl<T: Copy, R: TrReclaimIoSliceMut<T>> IoSliceMut<T, R> {
    /// Whether releasing this handle will notify a reclaimer.
    pub closed spec fn has_reclaimer(&self) -> bool {
        self.reclaimer_ is Some
    }

    pub fn new_with_reclaimer(slice_mut: Vec<T>, reclaimer: R) -> (r: Self)
        ensures
            r@ == slice_mut@,
            r.has_reclaimer(),
    {
        IoSliceMut { slice_mut_: slice_mut, reclaimer_: Option::Some(reclaimer) }
    }

    pub fn new(slice: Vec<T>) -> (r: Self)
        ensures
            r@ == slice@,
            !r.has_reclaimer(),
    {
        IoSliceMut { slice_mut_: slice, reclaimer_: Option::None }
    }

    pub fn len(&self) -> (r: usize)
        ensures
            r == self@.len(),
    {
        self.slice_mut_.len()
    }

    pub fn get(&self, i: usize) -> (r: T)
        requires
            i < self@.len(),
        ensures
            r == self@[i as int],
    {
        self.slice_mut_[i]
    }

    /// Overwrites one lent element; the handle's length never changes.
    pub fn set(&mut self, i: usize, value: T)
        requires
            i < old(self)@.len(),
        ensures
            final(self)@ == old(self)@.update(i as int, value),
            final(self).has_reclaimer() == old(self).has_reclaimer(),
    {
        self.slice_mut_.set(i, value);
    }

    /// Ends the borrow: consumes the handle and notifies the reclaimer, if
    /// one was supplied, exactly once.
    pub fn release(self) {
        let mut this = self;
        let taken = this.reclaimer_.take();
        if let Option::Some(r) = taken {
            r.reclaim_mut(&mut this);
        }
    }
}

} // verus!
