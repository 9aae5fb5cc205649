use abs_buff::utils::{IoAbortReport, TrIoAbortReport};
use abs_buff::{TrBuffIterRead, TrBuffIterWrite, VecBuffIter};

fn report_via_trait<R: TrIoAbortReport>(report: &R) -> usize {
    report.perform_len()
}

#[test]
fn report_carries_count_and_error() {
    let report: IoAbortReport<u32> = IoAbortReport::new(7, 42);
    assert_eq!(report.perform_len(), 7);
    assert_eq!(*report.last_error(), 42);
    assert_eq!(report_via_trait(&report), 7);
}

#[test]
fn report_with_zero_progress() {
    let report: IoAbortReport<&str> = IoAbortReport::new(0, "closed");
    assert_eq!(report.perform_len(), 0);
    assert_eq!(*report.last_error(), "closed");
}

#[test]
fn read_lend_never_exceeds_the_request() {
    let data: Vec<u8> = (0u8..9u8).collect();
    let mut buff = VecBuffIter::new(data);
    let s = buff.read(4).unwrap();
    assert!(s.len() <= 4);
    assert_eq!(s.len(), 4);
    s.release();
    let s = buff.read(100).unwrap();
    assert!(s.len() <= 100);
    assert_eq!(s.len(), 5);
    s.release();
    assert!(buff.read(1).is_err());
}

#[test]
fn scripted_lend_is_clamped_by_the_request() {
    let data: Vec<u8> = (0u8..9u8).collect();
    let mut buff = VecBuffIter::new(data);
    buff.set_script(vec![8]);
    let s = buff.read(2).unwrap();
    assert!(s.len() <= 2);
    s.release();
}

#[test]
fn write_lend_never_exceeds_the_request() {
    let mut buff = VecBuffIter::with_capacity(8, 0u8);
    let m = buff.write(3).unwrap();
    assert!(m.len() <= 3);
    assert_eq!(m.len(), 3);
    buff.commit(m);
    let m = buff.write(100).unwrap();
    assert!(m.len() <= 100);
    assert_eq!(m.len(), 5);
    buff.commit(m);
    assert!(buff.write(1).is_err());
}
