use nb::read_exact::Error;
use nb::scripted::{ReadStep, ScriptedReader};
use nb::{read_exact, OpResult};

#[test]
fn fills_buffer_one_byte_at_a_time() {
    let reader = ScriptedReader::new(vec![5, 6, 7], vec![
        ReadStep::Give(1),
        ReadStep::Give(1),
        ReadStep::Give(1),
    ]);
    let mut reading = read_exact(reader, vec![0, 0]);
    match reading.poll() {
        OpResult::Ready((reader, buffer)) => {
            assert_eq!(buffer, vec![5, 6]);
            assert_eq!(reader.calls(), 2);
        },
        _ => panic!("expected success"),
    }
}

#[test]
fn accumulates_across_mixed_outcomes() {
    let reader = ScriptedReader::new(vec![10, 20, 30, 40], vec![
        ReadStep::Give(2),
        ReadStep::Block,
        ReadStep::Give(1),
        ReadStep::Give(5),
    ]);
    let mut reading = read_exact(reader, vec![0, 0, 0, 0]);
    assert!(matches!(reading.poll(), OpResult::WouldBlock));
    match reading.poll() {
        OpResult::Ready((reader, buffer)) => {
            assert_eq!(buffer, vec![10, 20, 30, 40]);
            assert_eq!(reader.calls(), 4);
        },
        _ => panic!("expected success"),
    }
}

#[test]
fn zero_bytes_is_unexpected_eof() {
    let reader = ScriptedReader::new(vec![], vec![ReadStep::Give(1), ReadStep::Give(1)]);
    let mut reading = read_exact(reader, vec![0, 0]);
    assert!(matches!(reading.poll(), OpResult::Failed(Error::UnexpectedEof)));
}

#[test]
fn asking_for_nothing_is_a_would_block() {
    let reader = ScriptedReader::new(vec![1, 2], vec![ReadStep::Give(0), ReadStep::Give(2)]);
    let mut reading = read_exact(reader, vec![0, 0]);
    assert!(matches!(reading.poll(), OpResult::WouldBlock));
    match reading.poll() {
        OpResult::Ready((_, buffer)) => assert_eq!(buffer, vec![1, 2]),
        _ => panic!("expected success"),
    }
}

#[test]
fn reader_error_is_surfaced_verbatim() {
    let reader = ScriptedReader::new(vec![1, 2], vec![ReadStep::Fail(7)]);
    let mut reading = read_exact(reader, vec![0, 0]);
    assert!(matches!(reading.poll(), OpResult::Failed(Error::Other(7))));
}

#[test]
fn would_block_resumes_from_same_cursor() {
    let reader = ScriptedReader::new(vec![1, 2], vec![ReadStep::Block, ReadStep::Give(2)]);
    let mut reading = read_exact(reader, vec![0, 0]);
    assert!(matches!(reading.poll(), OpResult::WouldBlock));
    match reading.poll() {
        OpResult::Ready((reader, buffer)) => {
            assert_eq!(buffer, vec![1, 2]);
            assert_eq!(reader.calls(), 2);
        },
        _ => panic!("expected success"),
    }
}

#[test]
fn repeated_would_block_changes_nothing() {
    let reader = ScriptedReader::new(vec![3, 4], vec![
        ReadStep::Block,
        ReadStep::Block,
        ReadStep::Block,
        ReadStep::Give(2),
    ]);
    let mut reading = read_exact(reader, vec![0, 0]);
    for _ in 0..3 {
        assert!(matches!(reading.poll(), OpResult::WouldBlock));
    }
    match reading.poll() {
        OpResult::Ready((reader, buffer)) => {
            assert_eq!(buffer, vec![3, 4]);
            assert_eq!(reader.calls(), 4);
        },
        _ => panic!("expected success"),
    }
}

#[test]
fn empty_buffer_succeeds_without_reading() {
    let reader = ScriptedReader::new(vec![1, 2, 3], vec![ReadStep::Give(3)]);
    let mut reading = read_exact(reader, vec![]);
    match reading.poll() {
        OpResult::Ready((reader, buffer)) => {
            assert_eq!(buffer, Vec::<u8>::new());
            assert_eq!(reader.calls(), 0);
        },
        _ => panic!("expected success"),
    }
}

#[test]
fn exhausted_script_means_end_of_data() {
    let reader = ScriptedReader::new(vec![8], vec![ReadStep::Give(1)]);
    let mut reading = read_exact(reader, vec![0, 0]);
    assert!(matches!(reading.poll(), OpResult::Failed(Error::UnexpectedEof)));
}
