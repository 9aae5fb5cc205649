//! A placeholder buffer with no backing storage: readiness probes always
//! answer no, and every lend resolves immediately to an error with nothing
//! lent and zero progress made.
//!
//! It serves as a safe default where no real buffer is configured, and as a
//! test double checking that consumers propagate "always fails, never any
//! progress" correctly.

use core::marker::PhantomData;
use vstd::prelude::*;

use crate::peeker::TrBuffIterPeek;
use crate::reader::TrBuffIterRead;
use crate::reclaim::{IoSliceMut, IoSliceRef, NoReclaim};
use crate::writer::TrBuffIterWrite;

verus! {

/// A placeholder buffer that never lends any slice.
pub struct EmptyBuffIter<T: Copy>(PhantomData<[T; 0]>);

/// The error every lend of [`EmptyBuffIter`] resolves to.
#[derive(Clone, Copy, Debug, PartialEq, Eq, Structural)]
pub struct EmptyBuffIterError;

impl<T: Copy> EmptyBuffIter<T> {
    pub fn new() -> Self {
        EmptyBuffIter(PhantomData)
    }
}

/// The immediately resolved outcome of asking [`EmptyBuffIter`] for a peek
/// lend: always the failure value, with no suspension.
pub struct DisabledPeekAsync<T: Copy>(PhantomData<[T; 0]>);

impl<T: Copy> DisabledPeekAsync<T> {
    pub fn new() -> Self {
        DisabledPeekAsync(PhantomData)
    }

    /// Resolves the disabled lend: always an error, nothing lent.
    pub fn resolve(self) -> (r: Result<IoSliceRef<T, NoReclaim<T>>, EmptyBuffIterError>)
        ensures
            r == Result::<IoSliceRef<T, NoReclaim<T>>, EmptyBuffIterError>::Err(
                EmptyBuffIterError,
            ),
    {
        Result::Err(EmptyBuffIterError)
    }
}

/// The immediately resolved outcome of asking [`EmptyBuffIter`] for a read
/// lend: always the failure value, with no suspension.
pub struct DisabledReadAsync<T: Copy>(PhantomData<[T; 0]>);

impl<T: Copy> DisabledReadAsync<T> {
    pub fn new() -> Self {
        DisabledReadAsync(PhantomData)
    }

    /// Resolves the disabled lend: always an error, nothing lent.
    pub fn resolve(self) -> (r: Result<IoSliceRef<T, NoReclaim<T>>, EmptyBuffIterError>)
        ensures
            r == Result::<IoSliceRef<T, NoReclaim<T>>, EmptyBuffIterError>::Err(
                EmptyBuffIterError,
            ),
    {
        Result::Err(EmptyBuffIterError)
    }
}

/// The immediately resolved outcome of asking [`EmptyBuffIter`] for a write
/// lend: always the failure value, with no suspension.
pub struct DisabledWriteAsync<T: Copy>(PhantomData<[T; 0]>);

impl<T: Copy> DisabledWriteAsync<T> {
    pub fn new() -> Self {
        DisabledWriteAsync(PhantomData)
    }

    /// Resolves the disabled lend: always an error, nothing lent.
    pub fn resolve(self) -> (r: Result<IoSliceMut<T, NoReclaim<T>>, EmptyBuffIterError>)
        ensures
            r == Result::<IoSliceMut<T, NoReclaim<T>>, EmptyBuffIterError>::Err(
                EmptyBuffIterError,
            ),
    {
        Result::Err(EmptyBuffIterError)
    }
}

impl<T: Copy> TrBuffIterPeek<T> for EmptyBuffIter<T> {
    type Err = EmptyBuffIterError;

    /// Nothing is ever peekable.
    open spec fn peekable(&self) -> Seq<T> {
        Seq::empty()
    }

    open spec fn lend_fuel(&self) -> nat {
        0
    }

    /// Always answers no.
    fn can_peek(&mut self, skip: usize) -> (r: bool)
        ensures
            r == false,
    {
        let _ = skip;
        false
    }

    /// Always resolves immediately to the failure value.
    fn peek(&mut self, skip: usize, max_len: usize) -> (r: Result<
        IoSliceRef<T, NoReclaim<T>>,
        EmptyBuffIterError,
    >)
        ensures
            r == Result::<IoSliceRef<T, NoReclaim<T>>, EmptyBuffIterError>::Err(
                EmptyBuffIterError,
            ),
    {
        let _ = skip;
        let _ = max_len;
        DisabledPeekAsync::new().resolve()
    }
}

impl<T: Copy> TrBuffIterRead<T> for EmptyBuffIter<T> {
    type Err = EmptyBuffIterError;

    type Reclaimer = NoReclaim<T>;

    /// Nothing is ever unread.
    open spec fn unread(&self) -> Seq<T> {
        Seq::empty()
    }

    open spec fn lend_fuel(&self) -> nat {
        0
    }

    /// Always answers no.
    fn can_read(&mut self) -> (r: bool)
        ensures
            r == false,
    {
        false
    }

    /// Always resolves immediately to the failure value.
    fn read(&mut self, max_len: usize) -> (r: Result<
        IoSliceRef<T, NoReclaim<T>>,
        EmptyBuffIterError,
    >)
        ensures
            r == Result::<IoSliceRef<T, NoReclaim<T>>, EmptyBuffIterError>::Err(
                EmptyBuffIterError,
            ),
    {
        let _ = max_len;
        DisabledReadAsync::new().resolve()
    }
}

impl<T: Copy> TrBuffIterWrite<T> for EmptyBuffIter<T> {
    type Err = EmptyBuffIterError;

    type Reclaimer = NoReclaim<T>;

    /// Nothing is ever committed.
    open spec fn written(&self) -> Seq<T> {
        Seq::empty()
    }

    /// No lend is ever valid, so no commit is ever owed.
    open spec fn lend_ok(&self, len: nat) -> bool {
        false
    }

    open spec fn lend_fuel(&self) -> nat {
        0
    }

    /// Always answers no.
    fn can_write(&mut self) -> (r: bool)
        ensures
            r == false,
    {
        false
    }

    /// Always resolves immediately to the failure value.
    fn write(&mut self, max_len: usize) -> (r: Result<
        IoSliceMut<T, NoReclaim<T>>,
        EmptyBuffIterError,
    >)
        ensures
            r == Result::<IoSliceMut<T, NoReclaim<T>>, EmptyBuffIterError>::Err(
                EmptyBuffIterError,
            ),
    {
        let _ = max_len;
        DisabledWriteAsync::new().resolve()
    }

    /// Unreachable: no lend of this buffer is ever valid.
    fn commit(&mut self, slice_mut: IoSliceMut<T, NoReclaim<T>>) {
        slice_mut.release();
    }
}

} // verus!
