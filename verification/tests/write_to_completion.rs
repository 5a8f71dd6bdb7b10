use nb::scripted::{ScriptedWriter, WriteStep};
use nb::write_all::Error;
use nb::{write_all, OpResult};

#[test]
fn writes_whole_buffer_in_one_call() {
    let writer = ScriptedWriter::new(vec![0, 0, 0], vec![WriteStep::Accept(9)]);
    let mut writing = write_all(writer, vec![5, 6]);
    match writing.poll() {
        OpResult::Ready((writer, buffer)) => {
            assert_eq!(writer.store(), &vec![5, 6, 0]);
            assert_eq!(writer.calls(), 1);
            assert_eq!(buffer, vec![5, 6]);
        },
        _ => panic!("expected success"),
    }
}

#[test]
fn accumulates_across_would_blocks() {
    let writer = ScriptedWriter::new(vec![0, 0], vec![
        WriteStep::Accept(1),
        WriteStep::Block,
        WriteStep::Accept(1),
    ]);
    let mut writing = write_all(writer, vec![7, 8]);
    assert!(matches!(writing.poll(), OpResult::WouldBlock));
    match writing.poll() {
        OpResult::Ready((writer, buffer)) => {
            assert_eq!(writer.store(), &vec![7, 8]);
            assert_eq!(writer.calls(), 3);
            assert_eq!(buffer, vec![7, 8]);
        },
        _ => panic!("expected success"),
    }
}

#[test]
fn zero_bytes_is_write_zero() {
    let writer = ScriptedWriter::new(vec![0], vec![WriteStep::Accept(1), WriteStep::Accept(1)]);
    let mut writing = write_all(writer, vec![1, 2]);
    assert!(matches!(writing.poll(), OpResult::Failed(Error::WriteZero)));
}

#[test]
fn offering_nothing_is_a_would_block() {
    let writer = ScriptedWriter::new(vec![0, 0], vec![WriteStep::Accept(0), WriteStep::Accept(2)]);
    let mut writing = write_all(writer, vec![1, 2]);
    assert!(matches!(writing.poll(), OpResult::WouldBlock));
    match writing.poll() {
        OpResult::Ready((writer, _)) => assert_eq!(writer.store(), &vec![1, 2]),
        _ => panic!("expected success"),
    }
}

#[test]
fn full_store_is_write_zero() {
    let writer = ScriptedWriter::new(vec![], vec![WriteStep::Accept(5)]);
    let mut writing = write_all(writer, vec![1]);
    assert!(matches!(writing.poll(), OpResult::Failed(Error::WriteZero)));
}

#[test]
fn writer_error_is_surfaced_verbatim() {
    let writer = ScriptedWriter::new(vec![0, 0], vec![WriteStep::Fail(9)]);
    let mut writing = write_all(writer, vec![1, 2]);
    assert!(matches!(writing.poll(), OpResult::Failed(Error::Other(9))));
}

#[test]
fn repeated_would_block_changes_nothing_for_writes() {
    let writer = ScriptedWriter::new(vec![0, 0], vec![
        WriteStep::Block,
        WriteStep::Block,
        WriteStep::Accept(2),
    ]);
    let mut writing = write_all(writer, vec![4, 5]);
    for _ in 0..2 {
        assert!(matches!(writing.poll(), OpResult::WouldBlock));
    }
    match writing.poll() {
        OpResult::Ready((writer, _)) => {
            assert_eq!(writer.store(), &vec![4, 5]);
            assert_eq!(writer.calls(), 3);
        },
        _ => panic!("expected success"),
    }
}

#[test]
fn empty_buffer_succeeds_without_writing() {
    let writer = ScriptedWriter::new(vec![0], vec![WriteStep::Accept(1)]);
    let mut writing = write_all(writer, vec![]);
    match writing.poll() {
        OpResult::Ready((writer, buffer)) => {
            assert_eq!(writer.store(), &vec![0]);
            assert_eq!(writer.calls(), 0);
            assert_eq!(buffer, Vec::<u8>::new());
        },
        _ => panic!("expected success"),
    }
}
