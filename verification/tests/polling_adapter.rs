use nb::scripted::{ReadStep, ScriptedReader, ScriptedWriter, WriteStep};
use nb::{AsAsyncReadExt, AsAsyncWriteExt, IoError, OpResult};

#[test]
fn one_underlying_call_per_poll_when_writing() {
    let writer = ScriptedWriter::new(vec![0, 0], vec![
        WriteStep::Block,
        WriteStep::Accept(1),
        WriteStep::Block,
        WriteStep::Accept(1),
    ]);
    let mut task = AsAsyncWriteExt::as_async(writer);
    let message = vec![5, 6];
    let mut cursor: usize = 0;
    let mut polls: usize = 0;
    let mut blocked_polls: Vec<usize> = Vec::new();
    while cursor < message.len() {
        polls += 1;
        match task.poll_write(&message, cursor) {
            OpResult::Ready(n) => cursor += n,
            OpResult::WouldBlock => blocked_polls.push(polls),
            OpResult::Failed(_) => panic!("unexpected failure"),
        }
    }
    assert_eq!(polls, 4);
    assert_eq!(blocked_polls, vec![1, 3]);
}

#[test]
fn poll_read_passes_bytes_through() {
    let reader = ScriptedReader::new(vec![1, 2, 3], vec![ReadStep::Block, ReadStep::Give(2)]);
    let mut task = AsAsyncReadExt::as_async(reader);
    let mut buffer = vec![0, 0, 0];
    assert!(matches!(task.poll_read(&mut buffer, 0), OpResult::WouldBlock));
    assert_eq!(buffer, vec![0, 0, 0]);
    match task.poll_read(&mut buffer, 0) {
        OpResult::Ready(n) => assert_eq!(n, 2),
        _ => panic!("expected progress"),
    }
    assert_eq!(buffer, vec![1, 2, 0]);
}

#[test]
fn poll_read_wraps_the_domain_error() {
    let reader = ScriptedReader::new(vec![1], vec![ReadStep::Fail(3)]);
    let mut task = AsAsyncReadExt::as_async(reader);
    let mut buffer = vec![0];
    assert!(matches!(
        task.poll_read(&mut buffer, 0),
        OpResult::Failed(IoError::Other(3))
    ));
}

#[test]
fn poll_write_wraps_the_domain_error() {
    let writer = ScriptedWriter::new(vec![0], vec![WriteStep::Fail(4)]);
    let mut task = AsAsyncWriteExt::as_async(writer);
    assert!(matches!(
        task.poll_write(&vec![1], 0),
        OpResult::Failed(IoError::Other(4))
    ));
}

#[test]
fn flush_and_close_pass_through() {
    let writer = ScriptedWriter::new(vec![0], vec![WriteStep::Block, WriteStep::Fail(2)]);
    let mut task = AsAsyncWriteExt::as_async(writer);
    assert!(matches!(task.poll_flush(), OpResult::WouldBlock));
    assert!(matches!(task.poll_flush(), OpResult::Failed(IoError::Other(2))));
    assert!(matches!(task.poll_close(), OpResult::Ready(())));
}

#[test]
fn error_constructors_build_each_condition() {
    assert!(matches!(
        IoError::<u8>::write_zero("write zero"),
        IoError::WriteZero("write zero")
    ));
    assert!(matches!(
        IoError::<u8>::unexpected_eof("unexpected eof"),
        IoError::UnexpectedEof("unexpected eof")
    ));
    assert!(matches!(IoError::<u8>::other(6), IoError::Other(6)));
}
