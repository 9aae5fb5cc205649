use abs_buff::utils::{ChunkWriter, PeekerAsChunkFiller, ReaderAsChunkFiller};
use abs_buff::{
    DisabledPeekAsync, DisabledReadAsync, DisabledWriteAsync, EmptyBuffIter, EmptyBuffIterError,
    TrBuffIterPeek, TrBuffIterRead, TrBuffIterWrite,
};

#[test]
fn probes_always_answer_no() {
    let mut buff: EmptyBuffIter<u8> = EmptyBuffIter::new();
    assert!(!buff.can_peek(0));
    assert!(!buff.can_read());
    assert!(!buff.can_write());
}

#[test]
fn every_lend_resolves_to_the_error_at_once() {
    let mut buff: EmptyBuffIter<u8> = EmptyBuffIter::new();
    assert_eq!(buff.peek(0, 8).map(|s| s.len()), Err(EmptyBuffIterError));
    assert_eq!(buff.read(8).map(|s| s.len()), Err(EmptyBuffIterError));
    assert_eq!(buff.write(8).map(|m| m.len()), Err(EmptyBuffIterError));
}

#[test]
fn disabled_operations_resolve_to_the_error() {
    let peek: DisabledPeekAsync<u8> = DisabledPeekAsync::new();
    assert_eq!(peek.resolve().map(|s| s.len()), Err(EmptyBuffIterError));
    let read: DisabledReadAsync<u8> = DisabledReadAsync::new();
    assert_eq!(read.resolve().map(|s| s.len()), Err(EmptyBuffIterError));
    let write: DisabledWriteAsync<u8> = DisabledWriteAsync::new();
    assert_eq!(write.resolve().map(|m| m.len()), Err(EmptyBuffIterError));
}

#[test]
fn fill_over_disabled_buffer_reports_zero_progress() {
    let mut filler = ReaderAsChunkFiller::new(EmptyBuffIter::<u8>::new());
    assert!(!filler.can_fill());
    let mut target: Vec<u8> = vec![0u8; 4];
    match filler.fill(&mut target) {
        Ok(_) => panic!("fill over the disabled buffer should fail"),
        Err(report) => {
            assert_eq!(report.perform_len(), 0);
            assert_eq!(*report.last_error(), EmptyBuffIterError);
        },
    }
    assert_eq!(target, vec![0u8; 4]);
}

#[test]
fn peek_fill_over_disabled_buffer_reports_zero_progress() {
    let mut filler = PeekerAsChunkFiller::new(EmptyBuffIter::<u8>::new());
    assert!(!filler.can_fill());
    let mut target: Vec<u8> = vec![0u8; 4];
    match filler.fill(&mut target) {
        Ok(_) => panic!("fill over the disabled buffer should fail"),
        Err(report) => assert_eq!(report.perform_len(), 0),
    }
}

#[test]
fn drain_into_disabled_buffer_reports_zero_progress() {
    let mut writer = ChunkWriter::new(EmptyBuffIter::<u8>::new());
    assert!(!writer.can_write());
    let source: Vec<u8> = vec![1u8, 2, 3];
    match writer.write(&source) {
        Ok(_) => panic!("drain into the disabled buffer should fail"),
        Err(report) => {
            assert_eq!(report.perform_len(), 0);
            assert_eq!(*report.last_error(), EmptyBuffIterError);
        },
    }
}

#[test]
fn zero_length_requests_succeed_even_on_disabled_buffer() {
    let mut filler = ReaderAsChunkFiller::new(EmptyBuffIter::<u8>::new());
    let mut target: Vec<u8> = Vec::new();
    assert_eq!(filler.fill(&mut target), Ok(0));
    let mut writer = ChunkWriter::new(EmptyBuffIter::<u8>::new());
    let source: Vec<u8> = Vec::new();
    assert_eq!(writer.write(&source), Ok(0));
}
