//! Adapter that turns a write capability into a "drain this exact source"
//! operation.

use core::marker::PhantomData;
use vstd::prelude::*;

use crate::reclaim::{IoSliceMut, TrReclaimIoSliceMut};
use crate::utils::abs::{IoAbortReport, TrChunkWriter};
use crate::writer::TrBuffIterWrite;

verus! {

/// Copies `count` elements of `src` starting at `from` into the front of a
/// lent mutable slice.
fn copy_from_vec<T: Copy, R: TrReclaimIoSliceMut<T>>(
    dst: &mut IoSliceMut<T, R>,
    src: &Vec<T>,
    from: usize,
    count: usize,
)
    requires
        count == old(dst)@.len(),
        from + count <= src@.len(),
    ensures
        final(dst)@.len() == old(dst)@.len(),
        final(dst)@ == src@.subrange(from as int, from + count),
        final(dst).has_reclaimer() == old(dst).has_reclaimer(),
{
    let src_len = src.len();
    let mut j: usize = 0;
    while j < count
        invariant
            j <= count,
            count == dst@.len(),
            src_len == src@.len(),
            from + count <= src_len,
            forall|i: int| 0 <= i < j ==> dst@[i] == src@[from + i],
            dst.has_reclaimer() == old(dst).has_reclaimer(),
        decreases count - j,
    {
        let v = src[from + j];
        dst.set(j, v);
        j = j + 1;
    }
    proof {
        assert(dst@ =~= src@.subrange(from as int, from + count as int));
    }
}

/// Adapter that drives repeated short mutable lends of a write capability
/// until an exact-length source is drained into the buffer, an error
/// occurs, or progress stops.
pub struct ChunkWriter<W, T>
    where
        W: TrBuffIterWrite<T>,
        T: Copy,
{
    writer_: W,
    _use_t_: PhantomData<[T; 0]>,
}

impl<W, T> ChunkWriter<W, T>
    where
        W: TrBuffIterWrite<T>,
        T: Copy,
{
    /// The wrapped write capability.
    pub closed spec fn writer(&self) -> W {
        self.writer_
    }

    pub fn new(writer: W) -> (r: Self)
        ensures
            r.writer() == writer,
    {
        ChunkWriter { writer_: writer, _use_t_: PhantomData }
    }

    /// Gives the wrapped write capability back.
    pub fn into_inner(self) -> (r: W)
        ensures
            r == self.writer(),
    {
        self.writer_
    }

    /// Best-effort probe, forwarded to the write capability.
    pub fn can_write(&mut self) -> (r: bool)
        ensures
            final(self).writer().written() == old(self).writer().written(),
            final(self).writer().lend_fuel() == old(self).writer().lend_fuel(),
    {
        self.writer_.can_write()
    }

    /// Drains `source` completely into the write capability, or reports how
    /// many elements were transferred before the capability failed.
    ///
    /// On `Ok(n)`, `n` is the full length of `source` and the buffer has
    /// received exactly the elements of `source`, in order.  On
    /// `Err(report)`, the report's performed length counts exactly the
    /// elements of `source`'s prefix that the buffer received before the
    /// error; it is strictly less than the requested length.
    pub fn write(&mut self, source: &Vec<T>) -> (r: Result<
        usize,
        IoAbortReport<<W as TrBuffIterWrite<T>>::Err>,
    >)
        ensures
            (match r {
                Result::Ok(n) => {
                    &&& n == source@.len()
                    &&& final(self).writer().written() == old(self).writer().written() + source@
                },
                Result::Err(rep) => {
                    &&& rep.perform_len() < source@.len()
                    &&& final(self).writer().written() == old(self).writer().written()
                        + source@.take(rep.perform_len() as int)
                },
            }),
    {
        let ghost written0 = self.writer_.written();
        let source_len = source.len();
        let mut perform_len: usize = 0;
        while perform_len < source_len
            invariant
                written0 == old(self).writer().written(),
                perform_len <= source_len,
                source_len == source@.len(),
                self.writer_.written() == written0 + source@.take(perform_len as int),
            decreases self.writer_.lend_fuel(), source_len - perform_len,
        {
            let req_len = source_len - perform_len;
            let w = self.writer_.write(req_len);
            match w {
                Result::Ok(mut dst) => {
                    let dst_len = dst.len();
                    copy_from_vec(&mut dst, source, perform_len, dst_len);
                    self.writer_.commit(dst);
                    proof {
                        assert(written0 + source@.take(perform_len as int) + source@.subrange(
                            perform_len as int,
                            perform_len + dst_len,
                        ) =~= written0 + source@.take(perform_len + dst_len as int));
                    }
                    perform_len = perform_len + dst_len;
                },
                Result::Err(last_error) => {
                    let report = IoAbortReport::new(perform_len, last_error);
                    return Result::Err(report);
                },
            }
        }
        proof {
            assert(source@.take(perform_len as int) =~= source@);
        }
        Result::Ok(perform_len)
    }
}

impl<W, T> TrChunkWriter<T> for ChunkWriter<W, T>
    where
        W: TrBuffIterWrite<T>,
        T: Copy,
{
    type WriterError = IoAbortReport<<W as TrBuffIterWrite<T>>::Err>;

    /// A buffer-backed chunk writer drains into the buffer's committed
    /// region.
    open spec fn written(&self) -> Seq<T> {
        self.writer().written()
    }

    fn can_write(&mut self) -> (r: bool) {
        ChunkWriter::can_write(self)
    }

    fn write(&mut self, source: &Vec<T>) -> (r: Result<
        usize,
        IoAbortReport<<W as TrBuffIterWrite<T>>::Err>,
    >) {
        ChunkWriter::write(self, source)
    }
}

} // verus!
