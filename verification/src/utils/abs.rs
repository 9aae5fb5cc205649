//! The abort report produced when a chunk operation terminates early, and the
//! abstraction traits for chunk fillers and chunk writers.

use vstd::prelude::*;

verus! {

/// Abstraction over abort reports: a partial-progress count coupled with
/// the error that terminated a chunk operation.
pub trait TrIoAbortReport {
    type LastErr;

    /// The count of elements fully transferred before the error.
    spec fn performed(&self) -> usize;

    /// The error that terminated the chunk operation.
    spec fn last_err(&self) -> &Self::LastErr;

    fn perform_len(&self) -> (r: usize)
        ensures
            r == self.performed(),
    ;

    fn last_error(&self) -> (r: &Self::LastErr)
        ensures
            r == self.last_err(),
    ;
}

/// Abstraction over chunk fillers: operations that copy from some source of
/// elements into an exact-length destination, accounting for partial
/// progress on failure.
///
/// `fill_source()` is the sequence the filler copies from; a successful
/// fill hands over exactly the destination's length of it, front first, and
/// a failed fill reports exactly how much of the destination's prefix was
/// transferred before the error.  `fill_pre(len)` is the machine-limit
/// precondition a particular filler imposes on a destination of the given
/// length.
pub trait TrChunkFiller<T: Copy>: Sized {
    type FillError: TrIoAbortReport;

    /// The elements the filler stands ready to copy out, in order.
    spec fn fill_source(&self) -> Seq<T>;

    /// Machine-limit precondition for filling a destination of length
    /// `len`.
    spec fn fill_pre(&self, len: nat) -> bool;

    /// Non-blocking, best-effort readiness probe.
    fn can_fill(&mut self) -> (r: bool)
        ensures
            final(self).fill_source() == old(self).fill_source(),
            forall|len: nat| old(self).fill_pre(len) ==> final(self).fill_pre(len),
    ;

    /// Fills `target` completely from the source, or reports exactly how
    /// many elements arrived before the terminal error.
    fn fill(&mut self, target: &mut Vec<T>) -> (r: Result<usize, Self::FillError>)
        requires
            old(self).fill_pre(old(target)@.len() as nat),
        ensures
            final(target)@.len() == old(target)@.len(),
            (match r {
                Result::Ok(n) => {
                    &&& n == old(target)@.len()
                    &&& n <= old(self).fill_source().len()
                    &&& final(target)@ == old(self).fill_source().take(n as int)
                    &&& final(self).fill_source() == old(self).fill_source().skip(n as int)
                },
                Result::Err(rep) => {
                    &&& rep.performed() < old(target)@.len()
                    &&& rep.performed() <= old(self).fill_source().len()
                    &&& final(target)@ == old(self).fill_source().take(rep.performed() as int)
                        + old(target)@.skip(rep.performed() as int)
                    &&& final(self).fill_source() == old(self).fill_source().skip(
                        rep.performed() as int,
                    )
                },
            }),
    ;
}

/// Abstraction over chunk writers: operations that drain an exact-length
/// source into some sink of elements, accounting for partial progress on
/// failure.
///
/// `written()` is what the sink has received so far; a successful drain
/// appends exactly the source, and a failed one appends exactly the
/// source's prefix the report counts.
pub trait TrChunkWriter<T: Copy>: Sized {
    type WriterError: TrIoAbortReport;

    /// The elements the sink has received so far, in order.
    spec fn written(&self) -> Seq<T>;

    /// Non-blocking, best-effort readiness probe.
    fn can_write(&mut self) -> (r: bool)
        ensures
            final(self).written() == old(self).written(),
    ;

    /// Drains `source` completely into the sink, or reports exactly how
    /// many elements left before the terminal error.
    fn write(&mut self, source: &Vec<T>) -> (r: Result<usize, Self::WriterError>)
        ensures
            (match r {
                Result::Ok(n) => {
                    &&& n == source@.len()
                    &&& final(self).written() == old(self).written() + source@
                },
                Result::Err(rep) => {
                    &&& rep.performed() < source@.len()
                    &&& final(self).written() == old(self).written() + source@.take(
                        rep.performed() as int,
                    )
                },
            }),
    ;
}

/// Error value of a chunk operation that terminated early: the number of
/// elements fully transferred before the terminal condition, paired with the
/// error that stopped the operation.
///
/// Invariant: `perform_len` counts exactly the elements that were fully and
/// successfully transferred into (or out of) the caller's buffer before
/// `last_error` occurred; it is never used to report success.
#[derive(Debug, PartialEq, Eq)]
pub struct IoAbortReport<E> {
    perform_len_: usize,
    last_error_: E,
}

impl<E> IoAbortReport<E> {
    /// The reported count of elements transferred before the error.
    pub closed spec fn spec_perform_len(&self) -> usize {
        self.perform_len_
    }

    /// The error that terminated the chunk operation.
    pub closed spec fn spec_last_error(&self) -> &E {
        &self.last_error_
    }

    pub fn new(perform_len: usize, last_error: E) -> (r: Self)
        ensures
            r.spec_perform_len() == perform_len,
            r.spec_last_error() == &last_error,
    {
        IoAbortReport { perform_len_: perform_len, last_error_: last_error }
    }

    #[verifier::when_used_as_spec(spec_perform_len)]
    pub fn perform_len(&self) -> (r: usize)
        ensures
            r == self.spec_perform_len(),
    {
        self.perform_len_
    }

    #[verifier::when_used_as_spec(spec_last_error)]
    pub fn last_error(&self) -> (r: &E)
        ensures
            r == self.spec_last_error(),
    {
        &self.last_error_
    }
}

/// Zero-length short-circuit: a chunk operation asked for zero elements can
/// only answer with full completion, `Ok(0)`.  Any other answer would
/// violate the contracts of this module's chunk operations: a success
/// reports the full requested length, and an abort report counts strictly
/// fewer performed elements than requested, which nothing undercuts here.
pub proof fn lemma_zero_length_chunk_op_succeeds<E>(
    r: Result<usize, IoAbortReport<E>>,
    req_len: nat,
)
    requires
        req_len == 0,
        (match r {
            Result::Ok(n) => n == req_len,
            Result::Err(rep) => rep.perform_len() < req_len,
        }),
    ensures
        r matches Result::Ok(n) && n == 0,
{
}

impl<E> TrIoAbortReport for IoAbortReport<E> {
    type LastErr = E;

    open spec fn performed(&self) -> usize {
        self.spec_perform_len()
    }

    open spec fn last_err(&self) -> &E {
        self.spec_last_error()
    }

    fn perform_len(&self) -> (r: usize) {
        self.perform_len_
    }

    fn last_error(&self) -> (r: &E) {
        &self.last_error_
    }
}

} // verus!
