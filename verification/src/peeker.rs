//! The peek capability: a buffer that lends short slices without advancing
//! any cursor.

use vstd::prelude::*;

use crate::reclaim::{IoSliceRef, NoReclaim};

verus! {

/// Buffer that lends read-only slices for inspection, without consuming
/// anything: repeated peeks see the same data.
///
/// The model of such a buffer is the peekable region, `peekable()`, which a
/// peek never changes.  Since peeking has no cursor, a peek names the
/// logical offset it wants to look at: `peek(skip, max_len)` lends at most
/// `max_len` elements starting `skip` elements into the region.  The lent
/// handles carry no reclaim hook, because pure peeking must not touch the
/// buffer's bookkeeping.
///
/// As with reading, a zero-length lend is legal; `lend_fuel()` bounds how
/// many of those may still come, which keeps every accumulation loop over
/// the buffer terminating.
pub trait TrBuffIterPeek<T: Copy>: Sized {
    /// Implementation-defined error; cancellation of a lend surfaces as a
    /// value of this type as well.
    type Err;

    /// The peekable region: what the buffer holds for inspection.
    spec fn peekable(&self) -> Seq<T>;

    /// Upper bound on the zero-length successful lends still to come.
    spec fn lend_fuel(&self) -> nat;

    /// Non-blocking, best-effort probe of whether anything can be peeked
    /// beyond the first `skip` elements.  It must not be relied upon: a
    /// subsequent lend may still return zero elements or fail.
    fn can_peek(&mut self, skip: usize) -> (r: bool)
        ensures
            final(self).peekable() == old(self).peekable(),
            final(self).lend_fuel() == old(self).lend_fuel(),
    ;

    /// Lends at most `max_len` elements starting `skip` elements into the
    /// peekable region, without consuming anything.
    fn peek(&mut self, skip: usize, max_len: usize) -> (r: Result<
        IoSliceRef<T, NoReclaim<T>>,
        Self::Err,
    >)
        ensures
            final(self).peekable() == old(self).peekable(),
            (match r {
                Result::Ok(s) => {
                    &&& s@.len() <= max_len
                    &&& (s@.len() > 0 ==> skip + s@.len() <= old(self).peekable().len()
                        && s@ == old(self).peekable().subrange(skip as int, skip + s@.len()))
                    &&& final(self).lend_fuel() <= old(self).lend_fuel()
                    &&& (s@.len() == 0 && max_len > 0 ==> final(self).lend_fuel()
                        < old(self).lend_fuel())
                },
                Result::Err(_) => true,
            }),
    ;
}

} // verus!
