use abs_buff::utils::{ReaderAsChunkFiller, TrChunkFiller};
use abs_buff::{VecBuffIter, VecBuffIterError};

fn fill_generic<F: TrChunkFiller<u8>>(
    filler: &mut F,
    target: &mut Vec<u8>,
) -> Result<usize, F::FillError> {
    filler.fill(target)
}

#[test]
fn fill_completes_when_buffer_lends_freely() {
    let data: Vec<u8> = (0u8..100u8).collect();
    let buff = VecBuffIter::new(data.clone());
    let mut filler = ReaderAsChunkFiller::new(buff);
    let mut target: Vec<u8> = vec![0u8; 10];
    let r = filler.fill(&mut target);
    assert_eq!(r, Ok(10));
    assert_eq!(&target[..], &data[..10]);
}

#[test]
fn fill_consumes_so_successive_fills_advance() {
    let data: Vec<u8> = (0u8..100u8).collect();
    let buff = VecBuffIter::new(data.clone());
    let mut filler = ReaderAsChunkFiller::new(buff);
    let mut first: Vec<u8> = vec![0u8; 10];
    let mut second: Vec<u8> = vec![0u8; 20];
    assert_eq!(filler.fill(&mut first), Ok(10));
    assert_eq!(filler.fill(&mut second), Ok(20));
    assert_eq!(&first[..], &data[..10]);
    assert_eq!(&second[..], &data[10..30]);
}

#[test]
fn fill_ten_from_three_scripted_lends() {
    let data: Vec<u8> = (1u8..=10u8).collect();
    let mut buff = VecBuffIter::new(data.clone());
    buff.set_script(vec![3, 4, 3]);
    let mut filler = ReaderAsChunkFiller::new(buff);
    let mut target: Vec<u8> = vec![0u8; 10];
    let r = filler.fill(&mut target);
    assert_eq!(r, Ok(10));
    assert_eq!(target, data);
    let buff = filler.into_inner();
    assert_eq!(buff.lend_calls(), 3);
}

#[test]
fn fill_reports_progress_when_buffer_fails_after_five() {
    let data: Vec<u8> = (1u8..=5u8).collect();
    let mut buff = VecBuffIter::new(data.clone());
    buff.set_script(vec![5]);
    let mut filler = ReaderAsChunkFiller::new(buff);
    let mut target: Vec<u8> = vec![0u8; 10];
    let r = filler.fill(&mut target);
    match r {
        Ok(_) => panic!("fill should not complete"),
        Err(report) => {
            assert_eq!(report.perform_len(), 5);
            assert_eq!(*report.last_error(), VecBuffIterError);
        },
    }
    assert_eq!(&target[..5], &data[..]);
    assert_eq!(&target[5..], &[0u8; 5][..]);
}

#[test]
fn fill_zero_length_returns_ok_without_lending() {
    let buff = VecBuffIter::new(vec![7u8; 4]);
    let mut filler = ReaderAsChunkFiller::new(buff);
    let mut target: Vec<u8> = Vec::new();
    let r = filler.fill(&mut target);
    assert_eq!(r, Ok(0));
    let buff = filler.into_inner();
    assert_eq!(buff.lend_calls(), 0);
}

#[test]
fn fill_accounts_sum_of_successful_lends_exactly() {
    let data: Vec<u8> = (1u8..=6u8).collect();
    let mut buff = VecBuffIter::new(data.clone());
    buff.set_script(vec![2, 0, 3, 1]);
    let mut filler = ReaderAsChunkFiller::new(buff);
    let mut target: Vec<u8> = vec![0u8; 9];
    let r = filler.fill(&mut target);
    match r {
        Ok(_) => panic!("fill should not complete"),
        Err(report) => assert_eq!(report.perform_len(), 2 + 0 + 3 + 1),
    }
    assert_eq!(&target[..6], &data[..]);
}

#[test]
fn fill_through_the_chunk_filler_trait() {
    let data: Vec<u8> = (1u8..=8u8).collect();
    let buff = VecBuffIter::new(data.clone());
    let mut filler = ReaderAsChunkFiller::new(buff);
    assert!(filler.can_fill());
    let mut target: Vec<u8> = vec![0u8; 8];
    let r = fill_generic(&mut filler, &mut target);
    assert_eq!(r, Ok(8));
    assert_eq!(target, data);
    assert!(!filler.can_fill());
}

#[test]
fn fill_continues_through_scripted_zero_lends() {
    let data: Vec<u8> = (1u8..=4u8).collect();
    let mut buff = VecBuffIter::new(data.clone());
    buff.set_script(vec![0, 0, 2, 2]);
    let mut filler = ReaderAsChunkFiller::new(buff);
    let mut target: Vec<u8> = vec![0u8; 4];
    let r = filler.fill(&mut target);
    assert_eq!(r, Ok(4));
    assert_eq!(target, data);
    let buff = filler.into_inner();
    assert_eq!(buff.lend_calls(), 4);
}
