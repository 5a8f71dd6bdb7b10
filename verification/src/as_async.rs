//! Adapter presenting a non-blocking capability to a polling scheduler.
//!
//! A cooperative task runtime drives one poll call per scheduler tick and
//! expects a single error contract from both sides of the transport. The
//! adapter performs exactly one underlying attempt per poll — no buffering
//! and no retries of its own — and unifies the read-side and write-side
//! error conditions into [`IoError`]. Retry pacing is entirely the
//! scheduler's responsibility.

use vstd::prelude::*;

use crate::op_result::OpResult;
use crate::read::Read;
use crate::write::Write;

verus! {

/// Wraps a non-blocking reader or writer for use with a cooperative polling
/// scheduler. Stateless beyond owning the wrapped value, which its view
/// exposes.
pub struct AsAsync<T>(T);

/// The unified error a polling runtime sees, regardless of which side of
/// the transport failed: one of the two zero-progress conditions, each with
/// a static description, or the capability's own terminal error.
#[derive(Debug, Clone, Copy)]
pub enum IoError<T> {
    /// A write made zero progress before its buffer was exhausted.
    WriteZero(&'static str),
    /// A read made zero progress before its buffer was filled.
    UnexpectedEof(&'static str),
    /// The underlying capability's own terminal error.
    Other(T),
}

impl<T> View for AsAsync<T> {
    type V = T;

    closed spec fn view(&self) -> T {
        self.0
    }
}

impl<T> IoError<T> {
    /// The zero-progress error for the write side, with a description.
    pub fn write_zero(msg: &'static str) -> (r: Self)
        ensures
            r == IoError::<T>::WriteZero(msg),
    {
        IoError::WriteZero(msg)
    }

    /// The zero-progress error for the read side, with a description.
    pub fn unexpected_eof(msg: &'static str) -> (r: Self)
        ensures
            r == IoError::<T>::UnexpectedEof(msg),
    {
        IoError::UnexpectedEof(msg)
    }

    /// Wraps the capability's own terminal error. The wrapping is an
    /// explicit constructor, so that it cannot be confused with a
    /// conversion between structurally identical error types.
    pub fn other(err: T) -> (r: Self)
        ensures
            r == IoError::<T>::Other(err),
    {
        IoError::Other(err)
    }
}

/// Lifts a non-blocking reader into the polling interface.
pub trait AsAsyncReadExt: Sized {
    /// Wraps this reader for a cooperative polling scheduler.
    fn as_async(self) -> (r: AsAsync<Self>)
        ensures
            r@ == self,
    {
        AsAsync(self)
    }
}

impl<R: Read> AsAsyncReadExt for R {
}

/// Lifts a non-blocking writer into the polling interface.
pub trait AsAsyncWriteExt: Sized {
    /// Wraps this writer for a cooperative polling scheduler.
    fn as_async(self) -> (r: AsAsync<Self>)
        ensures
            r@ == self,
    {
        AsAsync(self)
    }
}

impl<W: Write> AsAsyncWriteExt for W {
}

impl<R: Read> AsAsync<R> {
    /// One scheduler tick of reading: a single `attempt_read`, with the
    /// same outcome, except that a reader error arrives wrapped as
    /// `IoError::Other`. `WouldBlock` tells the scheduler to suspend and
    /// re-poll later; nothing has changed.
    pub fn poll_read(&mut self, buf: &mut Vec<u8>, start: usize) -> (r: OpResult<
        usize,
        IoError<<R as Read>::Error>,
    >)
        requires
            start <= old(buf).len(),
        ensures
            final(buf).len() == old(buf).len(),
            match r {
                OpResult::Ready(n) => {
                    &&& start + n <= old(buf).len()
                    &&& n <= old(self)@.source().len()
                    &&& (n == 0 && start < old(buf).len() ==> old(self)@.source().len() == 0)
                    &&& final(self)@.source() == old(self)@.source().skip(n as int)
                    &&& forall|i: int|
                        0 <= i < n ==> final(buf)[start + i] == old(self)@.source()[i]
                    &&& forall|i: int|
                        0 <= i < old(buf).len() && !(start <= i < start + n) ==> final(buf)[i]
                            == old(buf)[i]
                },
                OpResult::WouldBlock => {
                    &&& final(self)@.source() == old(self)@.source()
                    &&& final(buf)@ == old(buf)@
                },
                OpResult::Failed(e) => e is Other,
            },
    {
        match self.0.attempt_read(buf, start) {
            OpResult::Ready(n) => OpResult::Ready(n),
            OpResult::WouldBlock => OpResult::WouldBlock,
            OpResult::Failed(e) => OpResult::Failed(IoError::other(e)),
        }
    }
}

impl<W: Write> AsAsync<W> {
    /// One scheduler tick of writing: a single `attempt_write`, with the
    /// same outcome, except that a writer error arrives wrapped as
    /// `IoError::Other`. `WouldBlock` tells the scheduler to suspend and
    /// re-poll later; nothing has changed.
    pub fn poll_write(&mut self, buf: &Vec<u8>, start: usize) -> (r: OpResult<
        usize,
        IoError<<W as Write>::Error>,
    >)
        requires
            start <= buf.len(),
        ensures
            match r {
                OpResult::Ready(n) => {
                    &&& start + n <= buf.len()
                    &&& final(self)@.sink() == old(self)@.sink() + buf@.subrange(
                        start as int,
                        start + n,
                    )
                    &&& (n == 0 && start < buf.len() ==> old(self)@.exhausted())
                    &&& (old(self)@.exhausted() ==> n == 0)
                    &&& (old(self)@.exhausted() ==> final(self)@.exhausted())
                },
                OpResult::WouldBlock => {
                    &&& final(self)@.sink() == old(self)@.sink()
                    &&& final(self)@.exhausted() == old(self)@.exhausted()
                },
                OpResult::Failed(e) => e is Other,
            },
    {
        match self.0.attempt_write(buf, start) {
            OpResult::Ready(n) => OpResult::Ready(n),
            OpResult::WouldBlock => OpResult::WouldBlock,
            OpResult::Failed(e) => OpResult::Failed(IoError::other(e)),
        }
    }

    /// One scheduler tick of flushing: a single `attempt_flush`, with the
    /// writer error wrapped as `IoError::Other`.
    pub fn poll_flush(&mut self) -> (r: OpResult<(), IoError<<W as Write>::Error>>)
        ensures
            !(r is Failed) ==> final(self)@.sink() == old(self)@.sink(),
            r matches OpResult::Failed(e) ==> e is Other,
    {
        match self.0.attempt_flush() {
            OpResult::Ready(v) => OpResult::Ready(v),
            OpResult::WouldBlock => OpResult::WouldBlock,
            OpResult::Failed(e) => OpResult::Failed(IoError::other(e)),
        }
    }

    /// One scheduler tick of closing: a single `attempt_close`, with the
    /// writer error wrapped as `IoError::Other`.
    pub fn poll_close(&mut self) -> (r: OpResult<(), IoError<<W as Write>::Error>>)
        ensures
            !(r is Failed) ==> final(self)@.sink() == old(self)@.sink(),
            r matches OpResult::Failed(e) ==> e is Other,
    {
        match self.0.attempt_close() {
            OpResult::Ready(v) => OpResult::Ready(v),
            OpResult::WouldBlock => OpResult::WouldBlock,
            OpResult::Failed(e) => OpResult::Failed(IoError::other(e)),
        }
    }
}

} // verus!
