//! A simple in-memory capability buffer backed by vectors.
//!
//! It lends from a fixed store of contents (read and peek) and accepts
//! committed slices into a bounded sink (write).  An optional lend script
//! caps the length of each successive lend, which makes the buffer a
//! convenient stand-in for backing stores that under-deliver: a script
//! entry of `3` makes the next lend hand out at most three elements, an
//! entry of `0` makes it a legal zero-length success.  Once the contents
//! (or the free capacity) are exhausted, every further lend fails.

use core::marker::PhantomData;
use vstd::prelude::*;

use crate::peeker::TrBuffIterPeek;
use crate::reader::TrBuffIterRead;
use crate::reclaim::{IoSliceMut, IoSliceRef, NoReclaim};
use crate::writer::TrBuffIterWrite;

verus! {

/// The length an in-memory lend hands out: the least of the scripted cap,
/// the requested maximum, and what is available.
pub open spec fn spec_lend_len(cap: nat, max_len: nat, avail: nat) -> nat {
    if cap <= max_len && cap <= avail {
        cap
    } else if max_len <= avail {
        max_len
    } else {
        avail
    }
}

/// The cap the script imposes on the next lend: its first entry, or the
/// requested maximum where no script runs.
pub open spec fn spec_script_cap(script: Seq<usize>, max_len: nat) -> nat {
    if script.len() > 0 {
        script[0] as nat
    } else {
        max_len
    }
}

/// The error a [`VecBuffIter`] lend resolves to once nothing can be lent
/// there any more.
#[derive(Clone, Copy, Debug, PartialEq, Eq, Structural)]
pub struct VecBuffIterError;

/// In-memory capability buffer: a vector of unread contents to lend out,
/// and a bounded sink receiving committed slices.
pub struct VecBuffIter<T: Copy> {
    data_: Vec<T>,
    sink_: Vec<T>,
    capacity_: usize,
    blank_: Option<T>,
    script_: Vec<usize>,
    lend_calls_: usize,
    _use_t_: PhantomData<[T; 0]>,
}

impl<T: Copy> VecBuffIter<T> {
    /// The unread contents still to be lent for reading or peeking.
    pub closed spec fn contents(&self) -> Seq<T> {
        self.data_@
    }

    /// The elements committed into the sink so far.
    pub closed spec fn sink(&self) -> Seq<T> {
        self.sink_@
    }

    /// The bound on how many elements the sink accepts in total.
    pub closed spec fn capacity(&self) -> usize {
        self.capacity_
    }

    /// The upcoming lend caps; empty means every lend offers as much as it
    /// can.
    pub closed spec fn script(&self) -> Seq<usize> {
        self.script_@
    }

    /// How many lends have been asked of this buffer so far.
    pub closed spec fn spec_lend_calls(&self) -> usize {
        self.lend_calls_
    }

    /// The blank element used to initialize mutable lends, if one was
    /// given.
    pub closed spec fn blank(&self) -> Option<T> {
        self.blank_
    }

    /// A buffer that lends the given contents and accepts no writes.
    pub fn new(data: Vec<T>) -> (r: Self)
        ensures
            r.contents() == data@,
            r.sink() == Seq::<T>::empty(),
            r.capacity() == 0,
            r.script() == Seq::<usize>::empty(),
            r.spec_lend_calls() == 0,
    {
        VecBuffIter {
            data_: data,
            sink_: Vec::new(),
            capacity_: 0,
            blank_: Option::None,
            script_: Vec::new(),
            lend_calls_: 0,
            _use_t_: PhantomData,
        }
    }

    /// A buffer with nothing to lend that accepts up to `capacity` written
    /// elements; lent slices come initialized with copies of `blank`.
    pub fn with_capacity(capacity: usize, blank: T) -> (r: Self)
        ensures
            r.contents() == Seq::<T>::empty(),
            r.sink() == Seq::<T>::empty(),
            r.capacity() == capacity,
            r.script() == Seq::<usize>::empty(),
            r.spec_lend_calls() == 0,
    {
        VecBuffIter {
            data_: Vec::new(),
            sink_: Vec::new(),
            capacity_: capacity,
            blank_: Option::Some(blank),
            script_: Vec::new(),
            lend_calls_: 0,
            _use_t_: PhantomData,
        }
    }

    /// Caps the next lends: the first entry bounds the next lend, and so
    /// on.  An entry of zero scripts a legal zero-length lend.
    pub fn set_script(&mut self, script: Vec<usize>)
        ensures
            final(self).contents() == old(self).contents(),
            final(self).sink() == old(self).sink(),
            final(self).capacity() == old(self).capacity(),
            final(self).script() == script@,
            final(self).spec_lend_calls() == old(self).spec_lend_calls(),
    {
        self.script_ = script;
    }

    #[verifier::when_used_as_spec(spec_lend_calls)]
    pub fn lend_calls(&self) -> (r: usize)
        ensures
            r == self.spec_lend_calls(),
    {
        self.lend_calls_
    }

    /// Hands the sink's received elements out, consuming the buffer.
    pub fn into_sink(self) -> (r: Vec<T>)
        ensures
            r@ == self.sink(),
    {
        self.sink_
    }

    /// Counts a lend call; saturates rather than overflowing.
    fn count_lend_call(&mut self)
        ensures
            final(self).contents() == old(self).contents(),
            final(self).sink() == old(self).sink(),
            final(self).capacity() == old(self).capacity(),
            final(self).script() == old(self).script(),
            final(self).blank_ == old(self).blank_,
            old(self).spec_lend_calls() < usize::MAX ==> final(self).spec_lend_calls()
                == old(self).spec_lend_calls() + 1,
            old(self).spec_lend_calls() == usize::MAX ==> final(self).spec_lend_calls()
                == usize::MAX,
    {
        if self.lend_calls_ < usize::MAX {
            self.lend_calls_ = self.lend_calls_ + 1;
        }
    }

    /// Takes the next scripted cap, or `max_len` where no script runs.
    fn next_cap(&mut self, max_len: usize) -> (r: usize)
        ensures
            final(self).contents() == old(self).contents(),
            final(self).sink() == old(self).sink(),
            final(self).capacity() == old(self).capacity(),
            final(self).blank_ == old(self).blank_,
            final(self).spec_lend_calls() == old(self).spec_lend_calls(),
            (if old(self).script().len() > 0 {
                r == old(self).script()[0] && final(self).script() == old(self).script().skip(1)
            } else {
                r == max_len && final(self).script() == old(self).script()
            }),
    {
        if self.script_.len() > 0 {
            let cap = self.script_.remove(0);
            proof {
                assert(self.script_@ =~= old(self).script().skip(1));
            }
            cap
        } else {
            max_len
        }
    }
}

impl<T: Copy> TrBuffIterRead<T> for VecBuffIter<T> {
    type Err = VecBuffIterError;

    type Reclaimer = NoReclaim<T>;

    /// Reading consumes the buffer's contents from the front.
    open spec fn unread(&self) -> Seq<T> {
        self.contents()
    }

    /// Zero-length lends come only out of the script.
    open spec fn lend_fuel(&self) -> nat {
        self.script().len()
    }

    /// Ready whenever any contents remain.
    fn can_read(&mut self) -> (r: bool)
        ensures
            r == (old(self).contents().len() > 0),
            *final(self) == *old(self),
    {
        self.data_.len() > 0
    }

    /// Lends the longest prefix the request, the script and the remaining
    /// contents allow; fails once the contents are exhausted.
    fn read(&mut self, max_len: usize) -> (r: Result<
        IoSliceRef<T, NoReclaim<T>>,
        VecBuffIterError,
    >)
        ensures
            (r is Ok) == (max_len == 0 || old(self).contents().len() > 0),
            final(self).sink() == old(self).sink(),
            final(self).capacity() == old(self).capacity(),
            final(self).blank() == old(self).blank(),
            old(self).spec_lend_calls() < usize::MAX ==> final(self).spec_lend_calls()
                == old(self).spec_lend_calls() + 1,
            (match r {
                Result::Ok(s) => {
                    &&& s@.len() == (if max_len == 0 {
                        0nat
                    } else {
                        spec_lend_len(
                            spec_script_cap(old(self).script(), max_len as nat),
                            max_len as nat,
                            old(self).contents().len(),
                        )
                    })
                    &&& final(self).script() == (if max_len > 0 && old(self).script().len() > 0 {
                        old(self).script().skip(1)
                    } else {
                        old(self).script()
                    })
                },
                Result::Err(_) => final(self).script() == old(self).script(),
            }),
    {
        self.count_lend_call();
        if max_len == 0 {
            let s = IoSliceRef::new(Vec::new());
            proof {
                assert(s@ =~= old(self).unread().take(0));
                assert(self.unread() =~= old(self).unread().skip(0));
            }
            return Result::Ok(s);
        }
        if self.data_.len() == 0 {
            return Result::Err(VecBuffIterError);
        }
        let cap = self.next_cap(max_len);
        let mut k = if cap < max_len {
            cap
        } else {
            max_len
        };
        let dlen = self.data_.len();
        if k > dlen {
            k = dlen;
        }
        if k == 0 {
            let s = IoSliceRef::new(Vec::new());
            proof {
                assert(s@ =~= old(self).unread().take(0));
                assert(self.unread() =~= old(self).unread().skip(0));
            }
            return Result::Ok(s);
        }
        let mut tail = self.data_.split_off(k);
        core::mem::swap(&mut self.data_, &mut tail);
        let s = IoSliceRef::new(tail);
        proof {
            assert(s@ =~= old(self).unread().take(k as int));
            assert(self.unread() =~= old(self).unread().skip(k as int));
        }
        Result::Ok(s)
    }
}

impl<T: Copy> TrBuffIterPeek<T> for VecBuffIter<T> {
    type Err = VecBuffIterError;

    /// Peeking sees the same contents reading would consume.
    open spec fn peekable(&self) -> Seq<T> {
        self.contents()
    }

    /// Zero-length lends come only out of the script.
    open spec fn lend_fuel(&self) -> nat {
        self.script().len()
    }

    /// Ready whenever any contents lie beyond the skipped prefix.
    fn can_peek(&mut self, skip: usize) -> (r: bool)
        ensures
            r == (skip < old(self).contents().len()),
            *final(self) == *old(self),
    {
        skip < self.data_.len()
    }

    /// Lends the longest run after `skip` the request, the script and the
    /// contents allow, consuming nothing; fails once nothing lies there.
    fn peek(&mut self, skip: usize, max_len: usize) -> (r: Result<
        IoSliceRef<T, NoReclaim<T>>,
        VecBuffIterError,
    >)
        ensures
            (r is Ok) == (max_len == 0 || skip < old(self).contents().len()),
            final(self).sink() == old(self).sink(),
            final(self).capacity() == old(self).capacity(),
            final(self).blank() == old(self).blank(),
            old(self).spec_lend_calls() < usize::MAX ==> final(self).spec_lend_calls()
                == old(self).spec_lend_calls() + 1,
            (match r {
                Result::Ok(s) => {
                    &&& s@.len() == (if max_len == 0 {
                        0nat
                    } else {
                        spec_lend_len(
                            spec_script_cap(old(self).script(), max_len as nat),
                            max_len as nat,
                            (old(self).contents().len() - skip) as nat,
                        )
                    })
                    &&& final(self).script() == (if max_len > 0 && old(self).script().len() > 0 {
                        old(self).script().skip(1)
                    } else {
                        old(self).script()
                    })
                },
                Result::Err(_) => final(self).script() == old(self).script(),
            }),
    {
        self.count_lend_call();
        if max_len == 0 {
            return Result::Ok(IoSliceRef::new(Vec::new()));
        }
        if skip >= self.data_.len() {
            return Result::Err(VecBuffIterError);
        }
        let cap = self.next_cap(max_len);
        let mut k = if cap < max_len {
            cap
        } else {
            max_len
        };
        let dlen = self.data_.len();
        let avail = dlen - skip;
        if k > avail {
            k = avail;
        }
        if k == 0 {
            return Result::Ok(IoSliceRef::new(Vec::new()));
        }
        let ghost self0 = *self;
        let mut lent: Vec<T> = Vec::new();
        let mut j: usize = 0;
        while j < k
            invariant
                *self == self0,
                j <= k,
                dlen == self0.contents().len(),
                skip + k <= dlen,
                lent@.len() == j,
                forall|i: int| 0 <= i < j ==> lent@[i] == self0.contents()[skip + i],
            decreases k - j,
        {
            let v = self.data_[skip + j];
            lent.push(v);
            j = j + 1;
        }
        let s = IoSliceRef::new(lent);
        proof {
            assert(s@ =~= old(self).peekable().subrange(skip as int, skip + k));
        }
        Result::Ok(s)
    }
}

impl<T: Copy> TrBuffIterWrite<T> for VecBuffIter<T> {
    type Err = VecBuffIterError;

    type Reclaimer = NoReclaim<T>;

    /// Writing appends to the sink.
    open spec fn written(&self) -> Seq<T> {
        self.sink()
    }

    /// The sink accepts a slice as long as it stays within capacity; an
    /// empty slice is always welcome.
    open spec fn lend_ok(&self, len: nat) -> bool {
        self.sink().len() + len <= self.capacity() || len == 0
    }

    /// Zero-length lends come only out of the script.
    open spec fn lend_fuel(&self) -> nat {
        self.script().len()
    }

    /// Ready whenever free capacity remains.
    fn can_write(&mut self) -> (r: bool)
        ensures
            r == (old(self).sink().len() < old(self).capacity()),
            *final(self) == *old(self),
    {
        self.sink_.len() < self.capacity_
    }

    /// Lends the longest blank-initialized slice the request, the script
    /// and the free capacity allow; fails once the capacity is used up.
    fn write(&mut self, max_len: usize) -> (r: Result<
        IoSliceMut<T, NoReclaim<T>>,
        VecBuffIterError,
    >)
        ensures
            (r is Ok) == (max_len == 0 || (old(self).sink().len() < old(self).capacity()
                && old(self).blank() is Some)),
            final(self).contents() == old(self).contents(),
            final(self).capacity() == old(self).capacity(),
            final(self).blank() == old(self).blank(),
            old(self).spec_lend_calls() < usize::MAX ==> final(self).spec_lend_calls()
                == old(self).spec_lend_calls() + 1,
            (match r {
                Result::Ok(m) => {
                    &&& m@.len() == (if max_len == 0 {
                        0nat
                    } else {
                        spec_lend_len(
                            spec_script_cap(old(self).script(), max_len as nat),
                            max_len as nat,
                            (old(self).capacity() - old(self).sink().len()) as nat,
                        )
                    })
                    &&& final(self).script() == (if max_len > 0 && old(self).script().len() > 0 {
                        old(self).script().skip(1)
                    } else {
                        old(self).script()
                    })
                },
                Result::Err(_) => final(self).script() == old(self).script(),
            }),
    {
        self.count_lend_call();
        if max_len == 0 {
            return Result::Ok(IoSliceMut::new(Vec::new()));
        }
        if self.sink_.len() >= self.capacity_ {
            return Result::Err(VecBuffIterError);
        }
        let blank_opt = self.blank_;
        let blank = match blank_opt {
            Option::Some(b) => b,
            Option::None => {
                return Result::Err(VecBuffIterError);
            },
        };
        let free = self.capacity_ - self.sink_.len();
        let cap = self.next_cap(max_len);
        let mut k = if cap < max_len {
            cap
        } else {
            max_len
        };
        if k > free {
            k = free;
        }
        if k == 0 {
            return Result::Ok(IoSliceMut::new(Vec::new()));
        }
        let mut lent: Vec<T> = Vec::new();
        let mut j: usize = 0;
        while j < k
            invariant
                j <= k,
                lent@.len() == j,
            decreases k - j,
        {
            lent.push(blank);
            j = j + 1;
        }
        Result::Ok(IoSliceMut::new(lent))
    }

    /// Appends the slice's final contents to the sink and releases the
    /// handle.
    fn commit(&mut self, slice_mut: IoSliceMut<T, NoReclaim<T>>)
        ensures
            final(self).contents() == old(self).contents(),
            final(self).capacity() == old(self).capacity(),
            final(self).blank() == old(self).blank(),
            final(self).script() == old(self).script(),
            final(self).spec_lend_calls() == old(self).spec_lend_calls(),
    {
        let ghost self0 = *self;
        let n = slice_mut.len();
        let mut j: usize = 0;
        while j < n
            invariant
                n == slice_mut@.len(),
                j <= n,
                self.data_ == self0.data_,
                self.capacity_ == self0.capacity_,
                self.blank_ == self0.blank_,
                self.script_ == self0.script_,
                self.lend_calls_ == self0.lend_calls_,
                self.sink_@ == self0.sink_@ + slice_mut@.take(j as int),
            decreases n - j,
        {
            let v = slice_mut.get(j);
            self.sink_.push(v);
            proof {
                assert(self.sink_@ =~= self0.sink_@ + slice_mut@.take(j + 1));
            }
            j = j + 1;
        }
        slice_mut.release();
        proof {
            assert(self.sink_@ =~= self0.sink_@ + slice_mut@);
        }
    }
}

} // verus!
