//! Adapter that turns a peek capability into a "fill this exact destination"
//! operation, tracking its own progress offset because peeking consumes
//! nothing.

use core::marker::PhantomData;
use vstd::prelude::*;

use crate::peeker::TrBuffIterPeek;
use crate::utils::abs::{IoAbortReport, TrChunkFiller};
use crate::utils::reader::copy_into_vec;

verus! {

/// Adapter that drives repeated short peeks of a peek capability until an
/// exact-length destination is filled, an error occurs, or progress stops.
///
/// Since a peek does not advance any cursor in the buffer, the adapter keeps
/// a private offset: how much it has already durably copied out.  The offset
/// persists across `fill` calls, so successive fills inspect ever deeper
/// prefixes of the peekable region instead of re-reading the same data.
pub struct PeekerAsChunkFiller<P, T>
    where
        P: TrBuffIterPeek<T>,
        T: Copy,
{
    peeker_: P,
    offset_: usize,
    _use_t_: PhantomData<[T; 0]>,
}

impl<P, T> PeekerAsChunkFiller<P, T>
    where
        P: TrBuffIterPeek<T>,
        T: Copy,
{
    /// The wrapped peek capability.
    pub closed spec fn peeker(&self) -> P {
        self.peeker_
    }

    /// How many elements the adapter has already copied out of the front of
    /// the peekable region.
    pub closed spec fn offset(&self) -> usize {
        self.offset_
    }

    /// Coherence of the private offset: it never runs past the peekable
    /// region it has been copying from.
    pub open spec fn wf(&self) -> bool {
        self.offset() <= self.peeker().peekable().len()
    }

    pub fn new(peeker: P) -> (r: Self)
        ensures
            r.peeker() == peeker,
            r.offset() == 0,
            r.wf(),
    {
        PeekerAsChunkFiller { peeker_: peeker, offset_: 0, _use_t_: PhantomData }
    }

    /// Gives the wrapped peek capability back.
    pub fn into_inner(self) -> (r: P)
        ensures
            r == self.peeker(),
    {
        self.peeker_
    }

    /// Best-effort probe of whether anything beyond the already-copied
    /// prefix can be peeked.
    pub fn can_fill(&mut self) -> (r: bool)
        ensures
            final(self).peeker().peekable() == old(self).peeker().peekable(),
            final(self).peeker().lend_fuel() == old(self).peeker().lend_fuel(),
            final(self).offset() == old(self).offset(),
    {
        let skip = self.offset_;
        self.peeker_.can_peek(skip)
    }

    /// Fills `target` completely by peeking past the adapter's offset, or
    /// reports how many elements were transferred before the capability
    /// failed.  The offset advances by the performed length on both
    /// outcomes; the peekable region itself is never consumed.
    ///
    /// On `Ok(n)`, `n` is the full length of `target` and `target` now
    /// holds exactly the `n` peekable elements that follow the old offset.
    /// On `Err(report)`, the report's performed length counts exactly the
    /// elements already copied into `target`'s prefix; it is strictly less
    /// than the requested length, and the rest of `target` is untouched.
    pub fn fill(&mut self, target: &mut Vec<T>) -> (r: Result<
        usize,
        IoAbortReport<<P as TrBuffIterPeek<T>>::Err>,
    >)
        requires
            old(self).wf(),
            old(self).offset() + old(target)@.len() <= usize::MAX,
        ensures
            final(self).wf(),
            final(target)@.len() == old(target)@.len(),
            final(self).peeker().peekable() == old(self).peeker().peekable(),
            (match r {
                Result::Ok(n) => {
                    &&& n == old(target)@.len()
                    &&& final(self).offset() == old(self).offset() + n
                    &&& final(target)@ == old(self).peeker().peekable().subrange(
                        old(self).offset() as int,
                        old(self).offset() + n,
                    )
                },
                Result::Err(rep) => {
                    &&& rep.perform_len() < old(target)@.len()
                    &&& final(self).offset() == old(self).offset() + rep.perform_len()
                    &&& final(target)@ == old(self).peeker().peekable().subrange(
                        old(self).offset() as int,
                        old(self).offset() + rep.perform_len(),
                    ) + old(target)@.skip(rep.perform_len() as int)
                },
            }),
    {
        let ghost peekable0 = self.peeker_.peekable();
        let ghost target0 = target@;
        let ghost offset0 = self.offset_;
        let target_len = target.len();
        let mut perform_len: usize = 0;
        while perform_len < target_len
            invariant
                target0 == old(target)@,
                peekable0 == old(self).peeker().peekable(),
                offset0 == old(self).offset(),
                self.peeker_.peekable() == peekable0,
                self.offset_ == offset0,
                offset0 + target_len <= usize::MAX,
                offset0 <= peekable0.len(),
                perform_len <= target_len,
                target_len == target@.len(),
                target@.len() == target0.len(),
                perform_len > 0 ==> offset0 + perform_len <= peekable0.len(),
                forall|i: int| 0 <= i < perform_len ==> target@[i] == peekable0[offset0 + i],
                forall|i: int| perform_len <= i < target0.len() ==> target@[i] == target0[i],
            decreases self.peeker_.lend_fuel(), target_len - perform_len,
        {
            let req_len = target_len - perform_len;
            let skip = self.offset_ + perform_len;
            let r = self.peeker_.peek(skip, req_len);
            match r {
                Result::Ok(src) => {
                    let src_len = src.len();
                    copy_into_vec(target, perform_len, &src);
                    src.release();
                    perform_len = perform_len + src_len;
                },
                Result::Err(last_error) => {
                    self.offset_ = self.offset_ + perform_len;
                    let report = IoAbortReport::new(perform_len, last_error);
                    proof {
                        assert(target@ =~= peekable0.subrange(
                            offset0 as int,
                            offset0 + perform_len,
                        ) + target0.skip(perform_len as int));
                    }
                    return Result::Err(report);
                },
            }
        }
        self.offset_ = self.offset_ + perform_len;
        proof {
            assert(target@ =~= peekable0.subrange(offset0 as int, offset0 + perform_len));
        }
        Result::Ok(perform_len)
    }
}

impl<P, T> TrChunkFiller<T> for PeekerAsChunkFiller<P, T>
    where
        P: TrBuffIterPeek<T>,
        T: Copy,
{
    type FillError = IoAbortReport<<P as TrBuffIterPeek<T>>::Err>;

    /// A peeker-backed filler copies from the peekable region beyond its
    /// own progress offset.
    open spec fn fill_source(&self) -> Seq<T> {
        self.peeker().peekable().skip(self.offset() as int)
    }

    /// Validity of the progress offset, and room for it to advance by the
    /// destination's length without overflowing.
    open spec fn fill_pre(&self, len: nat) -> bool {
        self.wf() && self.offset() + len <= usize::MAX
    }

    fn can_fill(&mut self) -> (r: bool) {
        PeekerAsChunkFiller::can_fill(self)
    }

    fn fill(&mut self, target: &mut Vec<T>) -> (r: Result<
        usize,
        IoAbortReport<<P as TrBuffIterPeek<T>>::Err>,
    >) {
        let ghost peekable0 = self.peeker().peekable();
        let ghost offset0 = self.offset();
        let r = PeekerAsChunkFiller::fill(self, target);
        proof {
            let performed: int = match &r {
                Result::Ok(n) => *n as int,
                Result::Err(rep) => rep.spec_perform_len() as int,
            };
            assert(peekable0.subrange(offset0 as int, offset0 + performed) =~= peekable0.skip(
                offset0 as int,
            ).take(performed));
            assert(peekable0.skip(offset0 + performed) =~= peekable0.skip(offset0 as int).skip(
                performed,
            ));
        }
        r
    }
}

} // verus!
