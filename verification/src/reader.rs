//! The read capability: a buffer that lends short slices and advances a
//! consumption cursor.

use vstd::prelude::*;

use crate::reclaim::{IoSliceRef, TrReclaimIoSliceRef};

verus! {

/// Buffer that lends read-only slices in short, possibly partial chunks and
/// advances a consumption cursor by each lent length.
///
/// The model of such a buffer is its unread region, `unread()`: every lend
/// hands out a prefix of that region and removes it.  A lend may return fewer
/// elements than requested, including none at all; a zero-length lend is not
/// an error and not completion.  Because this library is synchronous, a
/// buffer cannot suspend while waiting for more data; instead `lend_fuel()`
/// bounds how many zero-length lends the buffer may still answer with
/// success before it has to report an error, which keeps every accumulation
/// loop over the buffer terminating.
pub trait TrBuffIterRead<T: Copy>: Sized {
    /// Implementation-defined error; cancellation of a lend surfaces as a
    /// value of this type as well.
    type Err;

    /// Reclaim hook type carried by the lent slices.
    type Reclaimer: TrReclaimIoSliceRef<T>;

    /// The unread region: what the buffer still holds for its consumer.
    spec fn unread(&self) -> Seq<T>;

    /// Upper bound on the zero-length successful lends still to come.
    spec fn lend_fuel(&self) -> nat;

    /// Non-blocking, best-effort readiness probe.  It must not be relied
    /// upon: a subsequent lend may still return zero elements or fail.
    fn can_read(&mut self) -> (r: bool)
        ensures
            final(self).unread() == old(self).unread(),
            final(self).lend_fuel() == old(self).lend_fuel(),
    ;

    /// Lends at most `max_len` elements from the front of the unread region
    /// and advances the consumption cursor by the lent length.
    fn read(&mut self, max_len: usize) -> (r: Result<IoSliceRef<T, Self::Reclaimer>, Self::Err>)
        ensures
            (match r {
                Result::Ok(s) => {
                    &&& s@.len() <= max_len
                    &&& s@.len() <= old(self).unread().len()
                    &&& s@ == old(self).unread().take(s@.len() as int)
                    &&& final(self).unread() == old(self).unread().skip(s@.len() as int)
                    &&& final(self).lend_fuel() <= old(self).lend_fuel()
                    &&& (s@.len() == 0 && max_len > 0 ==> final(self).lend_fuel()
                        < old(self).lend_fuel())
                },
                Result::Err(_) => final(self).unread() == old(self).unread(),
            }),
    ;
}

} // verus!
