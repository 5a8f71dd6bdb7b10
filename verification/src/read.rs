//! The non-blocking read capability.

use vstd::prelude::*;

use crate::op_result::OpResult;

verus! {

/// A non-blocking source of bytes.
///
/// A reader owns some internal source of bytes; `source` is the abstract
/// sequence of bytes it has yet to supply, in the order it will supply them.
/// Each successful read hands out a prefix of that sequence and consumes it.
pub trait Read {
    /// Terminal error reported by this reader.
    type Error;

    /// The bytes this reader has yet to supply, in order.
    spec fn source(&self) -> Seq<u8>;

    /// Attempt to read bytes into `buf` at positions `start..`, without
    /// blocking.
    ///
    /// `Ready(n)` means exactly `n` bytes were transferred: the next `n`
    /// bytes of the source now sit at `buf[start..start + n]`, the rest of
    /// the buffer is untouched, and the source has been consumed by `n`.
    /// `Ready(0)` means the source is definitively exhausted, never "retry
    /// later": that must be reported as `WouldBlock`, which transfers nothing
    /// and leaves the source as it was. `Failed` is terminal; no further
    /// reads may be attempted.
    fn attempt_read(&mut self, buf: &mut Vec<u8>, start: usize) -> (r: OpResult<usize, Self::Error>)
        requires
            start <= old(buf).len(),
        ensures
            final(buf).len() == old(buf).len(),
            match r {
                OpResult::Ready(n) => {
                    &&& start + n <= old(buf).len()
                    &&& n <= old(self).source().len()
                    &&& (n == 0 && start < old(buf).len() ==> old(self).source().len() == 0)
                    &&& final(self).source() == old(self).source().skip(n as int)
                    &&& forall|i: int|
                        0 <= i < n ==> final(buf)[start + i] == old(self).source()[i]
                    &&& forall|i: int|
                        0 <= i < old(buf).len() && !(start <= i < start + n) ==> final(buf)[i]
                            == old(buf)[i]
                },
                OpResult::WouldBlock => {
                    &&& final(self).source() == old(self).source()
                    &&& final(buf)@ == old(buf)@
                },
                OpResult::Failed(_) => true,
            },
    ;
}

} // verus!
