use abs_buff::utils::PeekerAsChunkFiller;
use abs_buff::{TrBuffIterPeek, VecBuffIter};

#[test]
fn peek_fill_copies_without_consuming() {
    let data: Vec<u8> = (10u8..20u8).collect();
    let buff = VecBuffIter::new(data.clone());
    let mut filler = PeekerAsChunkFiller::new(buff);
    let mut target: Vec<u8> = vec![0u8; 4];
    assert_eq!(filler.fill(&mut target), Ok(4));
    assert_eq!(&target[..], &data[..4]);
    let mut buff = filler.into_inner();
    let s = buff.peek(0, 10).unwrap();
    assert_eq!(s.len(), 10);
}

#[test]
fn peek_fill_offset_persists_across_fills() {
    let data: Vec<u8> = (10u8..20u8).collect();
    let buff = VecBuffIter::new(data.clone());
    let mut filler = PeekerAsChunkFiller::new(buff);
    let mut first: Vec<u8> = vec![0u8; 4];
    let mut second: Vec<u8> = vec![0u8; 4];
    assert_eq!(filler.fill(&mut first), Ok(4));
    assert_eq!(filler.fill(&mut second), Ok(4));
    assert_eq!(&first[..], &data[..4]);
    assert_eq!(&second[..], &data[4..8]);
}

#[test]
fn peek_fill_reports_progress_at_end_of_data() {
    let data: Vec<u8> = (1u8..=6u8).collect();
    let buff = VecBuffIter::new(data.clone());
    let mut filler = PeekerAsChunkFiller::new(buff);
    let mut target: Vec<u8> = vec![0u8; 9];
    match filler.fill(&mut target) {
        Ok(_) => panic!("fill should not complete"),
        Err(report) => assert_eq!(report.perform_len(), 6),
    }
    assert_eq!(&target[..6], &data[..]);
    assert_eq!(&target[6..], &[0u8; 3][..]);
}

#[test]
fn peek_fill_zero_length_returns_ok_without_lending() {
    let buff = VecBuffIter::new(vec![3u8; 5]);
    let mut filler = PeekerAsChunkFiller::new(buff);
    let mut target: Vec<u8> = Vec::new();
    assert_eq!(filler.fill(&mut target), Ok(0));
    let buff = filler.into_inner();
    assert_eq!(buff.lend_calls(), 0);
}

#[test]
fn peek_fill_continues_through_scripted_short_lends() {
    let data: Vec<u8> = (1u8..=10u8).collect();
    let mut buff = VecBuffIter::new(data.clone());
    buff.set_script(vec![3, 0, 4, 3]);
    let mut filler = PeekerAsChunkFiller::new(buff);
    let mut target: Vec<u8> = vec![0u8; 10];
    assert_eq!(filler.fill(&mut target), Ok(10));
    assert_eq!(target, data);
    let buff = filler.into_inner();
    assert_eq!(buff.lend_calls(), 4);
}

#[test]
fn peek_lends_bounded_window_at_offset() {
    let data: Vec<u8> = (0u8..8u8).collect();
    let mut buff = VecBuffIter::new(data.clone());
    assert!(buff.can_peek(7));
    assert!(!buff.can_peek(8));
    let s = buff.peek(2, 3).unwrap();
    assert_eq!(s.len(), 3);
    assert_eq!(s.get(0), 2);
    assert_eq!(s.get(1), 3);
    assert_eq!(s.get(2), 4);
    s.release();
    let s = buff.peek(6, 5).unwrap();
    assert_eq!(s.len(), 2);
    s.release();
    assert!(buff.peek(8, 1).is_err());
}
