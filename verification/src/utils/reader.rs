//! Adapter that turns a read capability into a "fill this exact destination"
//! operation.

use core::marker::PhantomData;
use vstd::prelude::*;

use crate::reader::TrBuffIterRead;
use crate::reclaim::{IoSliceRef, TrReclaimIoSliceRef};
use crate::utils::abs::{IoAbortReport, TrChunkFiller};

verus! {

/// Copies every element of `src` into `dst` starting at index `at`.
pub(crate) fn copy_into_vec<T: Copy, R: TrReclaimIoSliceRef<T>>(
    dst: &mut Vec<T>,
    at: usize,
    src: &IoSliceRef<T, R>,
)
    requires
        at + src@.len() <= old(dst)@.len(),
    ensures
        final(dst)@.len() == old(dst)@.len(),
        forall|i: int| 0 <= i < at ==> final(dst)@[i] == old(dst)@[i],
        forall|i: int| at <= i < at + src@.len() ==> final(dst)@[i] == src@[i - at],
        forall|i: int| at + src@.len() <= i < old(dst)@.len() ==> final(dst)@[i] == old(dst)@[i],
{
    let ghost dst0 = dst@;
    let dst_len = dst.len();
    let n = src.len();
    let mut j: usize = 0;
    while j < n
        invariant
            j <= n,
            n == src@.len(),
            dst_len == dst0.len(),
            at + n <= dst_len,
            dst@.len() == dst0.len(),
            forall|i: int| 0 <= i < at ==> dst@[i] == dst0[i],
            forall|i: int| at <= i < at + j ==> dst@[i] == src@[i - at],
            forall|i: int| at + j <= i < dst0.len() ==> dst@[i] == dst0[i],
        decreases n - j,
    {
        let v = src.get(j);
        dst.set(at + j, v);
        j = j + 1;
    }
}

/// Adapter that drives repeated short lends of a read capability until an
/// exact-length destination is filled, an error occurs, or progress stops.
pub struct ReaderAsChunkFiller<R, T>
    where
        R: TrBuffIterRead<T>,
        T: Copy,
{
    reader_: R,
    _use_t_: PhantomData<[T; 0]>,
}

impl<R, T> ReaderAsChunkFiller<R, T>
    where
        R: TrBuffIterRead<T>,
        T: Copy,
{
    /// The wrapped read capability.
    pub closed spec fn reader(&self) -> R {
        self.reader_
    }

    pub fn new(reader: R) -> (r: Self)
        ensures
            r.reader() == reader,
    {
        ReaderAsChunkFiller { reader_: reader, _use_t_: PhantomData }
    }

    /// Gives the wrapped read capability back.
    pub fn into_inner(self) -> (r: R)
        ensures
            r == self.reader(),
    {
        self.reader_
    }

    /// Best-effort probe, forwarded to the read capability.
    pub fn can_fill(&mut self) -> (r: bool)
        ensures
            final(self).reader().unread() == old(self).reader().unread(),
            final(self).reader().lend_fuel() == old(self).reader().lend_fuel(),
    {
        self.reader_.can_read()
    }

    /// Fills `target` completely from the read capability, or reports how
    /// many elements were transferred before the capability failed.
    ///
    /// On `Ok(n)`, `n` is the full length of `target` and `target` now holds
    /// exactly the first `n` unread elements, which the lends removed from
    /// the buffer.  On `Err(report)`, the report's performed length counts
    /// exactly the elements already copied into `target`'s prefix, which are
    /// exactly the elements removed from the buffer; it is strictly less
    /// than the requested length, and the rest of `target` is untouched.
    pub fn fill(&mut self, target: &mut Vec<T>) -> (r: Result<
        usize,
        IoAbortReport<<R as TrBuffIterRead<T>>::Err>,
    >)
        ensures
            final(target)@.len() == old(target)@.len(),
            (match r {
                Result::Ok(n) => {
                    &&& n == old(target)@.len()
                    &&& n <= old(self).reader().unread().len()
                    &&& final(target)@ == old(self).reader().unread().take(n as int)
                    &&& final(self).reader().unread() == old(self).reader().unread().skip(n as int)
                },
                Result::Err(rep) => {
                    &&& rep.perform_len() < old(target)@.len()
                    &&& rep.perform_len() <= old(self).reader().unread().len()
                    &&& final(target)@ == old(self).reader().unread().take(
                        rep.perform_len() as int,
                    ) + old(target)@.skip(rep.perform_len() as int)
                    &&& final(self).reader().unread() == old(self).reader().unread().skip(
                        rep.perform_len() as int,
                    )
                },
            }),
    {
        let ghost unread0 = self.reader_.unread();
        let ghost target0 = target@;
        let target_len = target.len();
        let mut perform_len: usize = 0;
        while perform_len < target_len
            invariant
                target0 == old(target)@,
                unread0 == old(self).reader().unread(),
                perform_len <= target_len,
                perform_len <= unread0.len(),
                target_len == target@.len(),
                target@.len() == target0.len(),
                self.reader_.unread() == unread0.skip(perform_len as int),
                forall|i: int| 0 <= i < perform_len ==> target@[i] == unread0[i],
                forall|i: int| perform_len <= i < target0.len() ==> target@[i] == target0[i],
            decreases self.reader_.lend_fuel(), target_len - perform_len,
        {
            let req_len = target_len - perform_len;
            let r = self.reader_.read(req_len);
            match r {
                Result::Ok(src) => {
                    let src_len = src.len();
                    copy_into_vec(target, perform_len, &src);
                    src.release();
                    perform_len = perform_len + src_len;
                },
                Result::Err(last_error) => {
                    let report = IoAbortReport::new(perform_len, last_error);
                    proof {
                        assert(target@ =~= unread0.take(perform_len as int) + target0.skip(
                            perform_len as int,
                        ));
                    }
                    return Result::Err(report);
                },
            }
        }
        proof {
            assert(target@ =~= unread0.take(perform_len as int));
        }
        Result::Ok(perform_len)
    }
}

impl<R, T> TrChunkFiller<T> for ReaderAsChunkFiller<R, T>
    where
        R: TrBuffIterRead<T>,
        T: Copy,
{
    type FillError = IoAbortReport<<R as TrBuffIterRead<T>>::Err>;

    /// A reader-backed filler copies from the reader's unread region.
    open spec fn fill_source(&self) -> Seq<T> {
        self.reader().unread()
    }

    /// A reader-backed filler imposes no precondition of its own.
    open spec fn fill_pre(&self, len: nat) -> bool {
        true
    }

    fn can_fill(&mut self) -> (r: bool) {
        ReaderAsChunkFiller::can_fill(self)
    }

    fn fill(&mut self, target: &mut Vec<T>) -> (r: Result<
        usize,
        IoAbortReport<<R as TrBuffIterRead<T>>::Err>,
    >) {
        ReaderAsChunkFiller::fill(self, target)
    }
}

} // verus!
