//! The non-blocking write capability.

use vstd::prelude::*;

use crate::op_result::OpResult;

verus! {

/// A non-blocking sink for bytes.
///
/// A writer owns some internal sink; `sink` is the abstract sequence of all
/// bytes it has accepted so far, in the order they were accepted. Each
/// successful write appends a prefix of the offered bytes to that sequence.
pub trait Write {
    /// Terminal error reported by this writer.
    type Error;

    /// All bytes this writer has accepted so far, in order.
    spec fn sink(&self) -> Seq<u8>;

    /// Whether the sink definitively accepts no more bytes. An exhausted
    /// writer stays exhausted across writes and never reports progress
    /// again.
    spec fn exhausted(&self) -> bool;

    /// Attempt to write the bytes `buf[start..]`, without blocking.
    ///
    /// `Ready(n)` means exactly the bytes `buf[start..start + n]` were
    /// accepted, in order. `Ready(0)` means the sink is definitively
    /// exhausted, never "retry later": that must be reported as
    /// `WouldBlock`, which accepts nothing. `Failed` is terminal; no
    /// further writes may be attempted.
    fn attempt_write(&mut self, buf: &Vec<u8>, start: usize) -> (r: OpResult<usize, Self::Error>)
        requires
            start <= buf.len(),
        ensures
            match r {
                OpResult::Ready(n) => {
                    &&& start + n <= buf.len()
                    &&& final(self).sink() == old(self).sink() + buf@.subrange(
                        start as int,
                        start + n,
                    )
                    &&& (n == 0 && start < buf.len() ==> old(self).exhausted())
                    &&& (old(self).exhausted() ==> n == 0)
                    &&& (old(self).exhausted() ==> final(self).exhausted())
                },
                OpResult::WouldBlock => {
                    &&& final(self).sink() == old(self).sink()
                    &&& final(self).exhausted() == old(self).exhausted()
                },
                OpResult::Failed(_) => true,
            },
    ;

    /// Attempt to flush buffered bytes towards their destination, without
    /// blocking. Safe to retry on `WouldBlock`; never un-accepts bytes.
    fn attempt_flush(&mut self) -> (r: OpResult<(), Self::Error>)
        ensures
            !(r is Failed) ==> final(self).sink() == old(self).sink(),
    ;

    /// Attempt to close the writer, without blocking. Safe to retry on
    /// `WouldBlock`; never un-accepts bytes.
    fn attempt_close(&mut self) -> (r: OpResult<(), Self::Error>)
        ensures
            !(r is Failed) ==> final(self).sink() == old(self).sink(),
    ;
}

} // verus!
