//! The write capability: a buffer that lends short mutable slices into its
//! free capacity and advances a production cursor once they are committed.

use vstd::prelude::*;

use crate::reclaim::{IoSliceMut, TrReclaimIoSliceMut};

verus! {

/// Buffer that lends mutable slices into free capacity in short, possibly
/// partial chunks.
///
/// The model of such a buffer is the sequence of elements committed into it
/// so far, `written()`.  A lend reserves room: `write` hands out a mutable
/// slice of at most the requested length whose final contents, once the
/// caller is done writing, are appended by `commit`.  `lend_ok(len)` says
/// that the buffer stands ready to accept a committed slice of the given
/// length; every successful lend establishes it for the lent length.
///
/// As with reading, a zero-length lend is legal and means "no room right
/// now, but not an error"; `lend_fuel()` bounds how many of those may still
/// come, which keeps every accumulation loop over the buffer terminating.
pub trait TrBuffIterWrite<T: Copy>: Sized {
    /// Implementation-defined error; cancellation of a lend surfaces as a
    /// value of this type as well.
    type Err;

    /// Reclaim hook type carried by the lent slices.
    type Reclaimer: TrReclaimIoSliceMut<T>;

    /// The elements committed into the buffer so far, in order.
    spec fn written(&self) -> Seq<T>;

    /// Whether the buffer accepts a committed slice of this length.
    spec fn lend_ok(&self, len: nat) -> bool;

    /// Upper bound on the zero-length successful lends still to come.
    spec fn lend_fuel(&self) -> nat;

    /// Non-blocking, best-effort readiness probe.  It must not be relied
    /// upon: a subsequent lend may still return zero elements or fail.
    fn can_write(&mut self) -> (r: bool)
        ensures
            final(self).written() == old(self).written(),
            final(self).lend_fuel() == old(self).lend_fuel(),
    ;

    /// Lends a mutable slice of at most `max_len` elements of free capacity.
    /// The caller fills it and hands it back through `commit`.
    fn write(&mut self, max_len: usize) -> (r: Result<IoSliceMut<T, Self::Reclaimer>, Self::Err>)
        ensures
            (match r {
                Result::Ok(m) => {
                    &&& m@.len() <= max_len
                    &&& final(self).lend_ok(m@.len() as nat)
                    &&& final(self).written() == old(self).written()
                    &&& final(self).lend_fuel() <= old(self).lend_fuel()
                    &&& (m@.len() == 0 && max_len > 0 ==> final(self).lend_fuel()
                        < old(self).lend_fuel())
                },
                Result::Err(_) => final(self).written() == old(self).written(),
            }),
    ;

    /// Ends a lend: appends the slice's final contents to the buffer and
    /// advances the production cursor by its length.  Implementations
    /// release the handle, which fires its reclaim hook.
    fn commit(&mut self, slice_mut: IoSliceMut<T, Self::Reclaimer>)
        requires
            old(self).lend_ok(slice_mut@.len() as nat),
        ensures
            final(self).written() == old(self).written() + slice_mut@,
            final(self).lend_fuel() <= old(self).lend_fuel(),
    ;
}

} // verus!
