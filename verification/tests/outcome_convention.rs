use nb::OpResult;

#[test]
fn ready_is_distinguishable() {
    let outcome: OpResult<usize, u8> = OpResult::Ready(3);
    assert!(outcome.is_ready());
    assert!(!outcome.is_would_block());
}

#[test]
fn would_block_is_distinguishable() {
    let outcome: OpResult<usize, u8> = OpResult::WouldBlock;
    assert!(!outcome.is_ready());
    assert!(outcome.is_would_block());
}

#[test]
fn failure_is_neither_ready_nor_would_block() {
    let outcome: OpResult<usize, u8> = OpResult::Failed(2);
    assert!(!outcome.is_ready());
    assert!(!outcome.is_would_block());
}
