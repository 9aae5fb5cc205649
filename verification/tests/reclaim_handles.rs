use std::cell::Cell;
use std::rc::Rc;

use abs_buff::{IoSliceMut, IoSliceRef, NoReclaim, TrReclaimIoSliceMut, TrReclaimIoSliceRef};

struct CountReclaim(Rc<Cell<u32>>, Rc<Cell<usize>>);

impl TrReclaimIoSliceRef<u8> for CountReclaim {
    fn reclaim_ref(self, slice_ref: &mut IoSliceRef<u8, Self>) {
        self.0.set(self.0.get() + 1);
        self.1.set(slice_ref.len());
    }
}

impl TrReclaimIoSliceMut<u8> for CountReclaim {
    fn reclaim_mut(self, slice_mut: &mut IoSliceMut<u8, Self>) {
        self.0.set(self.0.get() + 1);
        self.1.set(slice_mut.len());
    }
}

fn consume_or_bail(handle: IoSliceRef<u8, CountReclaim>, bail: bool) -> Result<usize, ()> {
    if bail {
        handle.release();
        return Err(());
    }
    let n = handle.len();
    handle.release();
    Ok(n)
}

#[test]
fn reclaimer_fires_exactly_once_on_release() {
    let count = Rc::new(Cell::new(0u32));
    let seen_len = Rc::new(Cell::new(0usize));
    let handle = IoSliceRef::new_with_reclaimer(
        vec![1u8, 2, 3],
        CountReclaim(count.clone(), seen_len.clone()),
    );
    assert_eq!(count.get(), 0);
    handle.release();
    assert_eq!(count.get(), 1);
    assert_eq!(seen_len.get(), 3);
}

#[test]
fn reclaimer_fires_exactly_once_on_early_error_exit() {
    let count = Rc::new(Cell::new(0u32));
    let seen_len = Rc::new(Cell::new(0usize));
    let handle = IoSliceRef::new_with_reclaimer(
        vec![9u8; 5],
        CountReclaim(count.clone(), seen_len.clone()),
    );
    assert_eq!(consume_or_bail(handle, true), Err(()));
    assert_eq!(count.get(), 1);

    let other = IoSliceRef::new_with_reclaimer(
        vec![9u8; 5],
        CountReclaim(count.clone(), seen_len.clone()),
    );
    assert_eq!(consume_or_bail(other, false), Ok(5));
    assert_eq!(count.get(), 2);
}

#[test]
fn handle_without_reclaimer_never_calls_back() {
    let handle: IoSliceRef<u8, NoReclaim<u8>> = IoSliceRef::new(vec![4u8, 5]);
    assert_eq!(handle.len(), 2);
    assert_eq!(handle.get(0), 4);
    assert_eq!(handle.get(1), 5);
    handle.release();
}

#[test]
fn mutable_reclaimer_fires_exactly_once_and_sees_final_state() {
    let count = Rc::new(Cell::new(0u32));
    let seen_len = Rc::new(Cell::new(0usize));
    let mut handle = IoSliceMut::new_with_reclaimer(
        vec![0u8; 4],
        CountReclaim(count.clone(), seen_len.clone()),
    );
    handle.set(0, 7);
    handle.set(3, 8);
    assert_eq!(handle.get(0), 7);
    assert_eq!(handle.get(3), 8);
    handle.release();
    assert_eq!(count.get(), 1);
    assert_eq!(seen_len.get(), 4);
}

#[test]
fn mutable_handle_without_reclaimer_keeps_writes() {
    let mut handle: IoSliceMut<u8, NoReclaim<u8>> = IoSliceMut::new(vec![0u8; 3]);
    handle.set(0, 1);
    handle.set(1, 2);
    handle.set(2, 3);
    assert_eq!(handle.len(), 3);
    assert_eq!(handle.get(2), 3);
    handle.release();
}
