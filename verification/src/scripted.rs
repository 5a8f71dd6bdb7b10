//! Deterministic, script-driven capability implementations.
//!
//! A scripted reader or writer plays back a fixed list of per-call
//! behaviours — make some progress, report would-block, or fail with an
//! error code — and counts the calls made to it. They exercise the
//! completion machines and the polling adapter against every outcome a real
//! transport could produce, while themselves being verified against the
//! capability contracts.

use vstd::prelude::*;

use crate::op_result::OpResult;
use crate::read::Read;
use crate::write::Write;

verus! {

/// What one call of a scripted reader does.
#[derive(Debug, Clone, Copy, PartialEq, Eq)]
pub enum ReadStep {
    /// Report would-block and supply nothing.
    Block,
    /// Supply up to this many bytes, bounded by the data left and the room
    /// offered. With no data left this reports definitive end of data;
    /// asked to supply nothing while data and room remain, it reports
    /// would-block instead, since zero bytes are reserved for exhaustion.
    Give(usize),
    /// Fail terminally with this error code.
    Fail(u8),
}

/// What one call of a scripted writer does.
#[derive(Debug, Clone, Copy, PartialEq, Eq)]
pub enum WriteStep {
    /// Report would-block and accept nothing.
    Block,
    /// Accept up to this many bytes, bounded by the room left in the
    /// backing store and the bytes offered. With no room left this reports
    /// definitive rejection; asked to accept nothing while room and bytes
    /// remain, it reports would-block instead, since zero bytes are
    /// reserved for exhaustion. A flush or close call treats this as plain
    /// readiness.
    Accept(usize),
    /// Fail terminally with this error code.
    Fail(u8),
}

/// A reader that supplies bytes from an owned block of data, one script
/// step per call. Once the script is exhausted every further call supplies
/// as much as it can, and reports definitive end of data once none is
/// left.
pub struct ScriptedReader {
    data: Vec<u8>,
    head: usize,
    script: Vec<ReadStep>,
    step: usize,
    calls: usize,
}

impl ScriptedReader {
    /// How many read attempts have been made so far.
    pub closed spec fn calls_made(&self) -> int {
        self.calls as int
    }

    /// Creates a reader that will supply `data`, behaving per `script`.
    pub fn new(data: Vec<u8>, script: Vec<ReadStep>) -> (r: Self)
        ensures
            r.source() == data@,
            r.calls_made() == 0,
    {
        let r = ScriptedReader { data, head: 0, script, step: 0, calls: 0 };
        proof {
            assert(r.source() =~= r.data@);
        }
        r
    }

    /// How many read attempts have been made so far.
    pub fn calls(&self) -> (r: usize)
        ensures
            r == self.calls_made(),
    {
        self.calls
    }
}

impl Read for ScriptedReader {
    type Error = u8;

    closed spec fn source(&self) -> Seq<u8> {
        if self.head <= self.data.len() {
            self.data@.skip(self.head as int)
        } else {
            Seq::empty()
        }
    }

    #[verifier::loop_isolation(false)]
    fn attempt_read(&mut self, buf: &mut Vec<u8>, start: usize) -> (r: OpResult<usize, u8>) {
        if self.calls < usize::MAX {
            self.calls = self.calls + 1;
        }
        let request: usize;
        if self.step >= self.script.len() {
            request = usize::MAX;
        } else {
            let s = self.script[self.step];
            self.step = self.step + 1;
            match s {
                ReadStep::Block => {
                    return OpResult::WouldBlock;
                },
                ReadStep::Fail(code) => {
                    return OpResult::Failed(code);
                },
                ReadStep::Give(n) => {
                    request = n;
                },
            }
        }
        let avail: usize = if self.head < self.data.len() {
            self.data.len() - self.head
        } else {
            0
        };
        let space: usize = buf.len() - start;
        let mut m: usize = request;
        if m > avail {
            m = avail;
        }
        if m > space {
            m = space;
        }
        if m == 0 && avail > 0 && space > 0 {
            return OpResult::WouldBlock;
        }
        {
            let ghost src_pre: Seq<u8> = self.source();
            let ghost buf_pre: Seq<u8> = buf@;
            let mut j: usize = 0;
            while j < m
                invariant
                    j <= m,
                    buf.len() == buf_pre.len(),
                    forall|i: int|
                        0 <= i < j ==> #[trigger] buf[start + i] == self.data[self.head + i],
                    forall|i: int|
                        0 <= i < buf.len() && !(start <= i < start + j) ==> buf[i] == buf_pre[i],
                decreases m - j,
            {
                let b = self.data[self.head + j];
                buf.set(start + j, b);
                j = j + 1;
            }
            self.head = self.head + m;
            proof {
                assert(self.source() =~= src_pre.skip(m as int));
                assert forall|i: int| 0 <= i < m implies buf[start + i] == src_pre[i] by {
                    assert(buf[start + i] == self.data[self.head - m + i]);
                }
            }
            OpResult::Ready(m)
        }
    }
}

/// A writer that accepts bytes into an owned, fixed-size backing store, one
/// script step per call. Bytes land at the front of the store, in order;
/// the rest of the store keeps its prior contents. Once the script is
/// exhausted every further write accepts as much as it can, reporting
/// definitive rejection once the store is full, while flush and close
/// report readiness.
pub struct ScriptedWriter {
    store: Vec<u8>,
    filled: usize,
    script: Vec<WriteStep>,
    step: usize,
    calls: usize,
}

impl ScriptedWriter {
    /// The whole backing store, accepted bytes and untouched tail alike.
    pub closed spec fn backing(&self) -> Seq<u8> {
        self.store@
    }

    /// How many write, flush and close attempts have been made so far.
    pub closed spec fn calls_made(&self) -> int {
        self.calls as int
    }

    /// Creates a writer backed by `store`, behaving per `script`.
    pub fn new(store: Vec<u8>, script: Vec<WriteStep>) -> (r: Self)
        ensures
            r.sink() == Seq::<u8>::empty(),
            r.backing() == store@,
            r.calls_made() == 0,
    {
        let r = ScriptedWriter { store, filled: 0, script, step: 0, calls: 0 };
        proof {
            assert(r.sink() =~= Seq::<u8>::empty());
        }
        r
    }

    /// The backing store as it stands.
    pub fn store(&self) -> (r: &Vec<u8>)
        ensures
            r@ == self.backing(),
    {
        &self.store
    }

    /// How many write, flush and close attempts have been made so far.
    pub fn calls(&self) -> (r: usize)
        ensures
            r == self.calls_made(),
    {
        self.calls
    }

    fn consume_unit_step(&mut self) -> (r: OpResult<(), u8>)
        ensures
            final(self).sink() == old(self).sink(),
            final(self).backing() == old(self).backing(),
    {
        if self.calls < usize::MAX {
            self.calls = self.calls + 1;
        }
        if self.step >= self.script.len() {
            return OpResult::Ready(());
        }
        let s = self.script[self.step];
        self.step = self.step + 1;
        match s {
            WriteStep::Block => OpResult::WouldBlock,
            WriteStep::Fail(code) => OpResult::Failed(code),
            WriteStep::Accept(_) => OpResult::Ready(()),
        }
    }
}

impl Write for ScriptedWriter {
    type Error = u8;

    closed spec fn sink(&self) -> Seq<u8> {
        if self.filled <= self.store.len() {
            self.store@.take(self.filled as int)
        } else {
            self.store@
        }
    }

    closed spec fn exhausted(&self) -> bool {
        self.filled >= self.store.len()
    }

    #[verifier::loop_isolation(false)]
    fn attempt_write(&mut self, buf: &Vec<u8>, start: usize) -> (r: OpResult<usize, u8>) {
        if self.calls < usize::MAX {
            self.calls = self.calls + 1;
        }
        let request: usize;
        if self.step >= self.script.len() {
            request = usize::MAX;
        } else {
            let s = self.script[self.step];
            self.step = self.step + 1;
            match s {
                WriteStep::Block => {
                    return OpResult::WouldBlock;
                },
                WriteStep::Fail(code) => {
                    return OpResult::Failed(code);
                },
                WriteStep::Accept(n) => {
                    request = n;
                },
            }
        }
        let room: usize = if self.filled < self.store.len() {
            self.store.len() - self.filled
        } else {
            0
        };
        let offered: usize = buf.len() - start;
        let mut m: usize = request;
        if m > room {
            m = room;
        }
        if m > offered {
            m = offered;
        }
        if m == 0 && room > 0 && offered > 0 {
            return OpResult::WouldBlock;
        }
        {
            let ghost sink_pre: Seq<u8> = self.sink();
            let ghost store_pre: Seq<u8> = self.store@;
            let ghost filled0: int = self.filled as int;
            let mut j: usize = 0;
            while j < m
                invariant
                    j <= m,
                    self.store.len() == store_pre.len(),
                    self.filled == filled0,
                    forall|i: int|
                        0 <= i < j ==> #[trigger] self.store[filled0 + i] == buf[start + i],
                    forall|i: int|
                        0 <= i < store_pre.len() && !(filled0 <= i < filled0 + j)
                            ==> self.store[i] == store_pre[i],
                decreases m - j,
            {
                let b = buf[start + j];
                let at = self.filled + j;
                self.store.set(at, b);
                j = j + 1;
            }
            self.filled = self.filled + m;
            proof {
                let target = sink_pre + buf@.subrange(start as int, start + m);
                assert forall|i: int| 0 <= i < target.len() implies self.sink()[i] == target[i] by {
                    if i < sink_pre.len() {
                        assert(self.store[i] == store_pre[i]);
                    } else {
                        let d = i - sink_pre.len();
                        assert(self.store[filled0 + d] == buf[start + d]);
                    }
                }
                assert(self.sink().len() == target.len());
                assert(self.sink() =~= target);
            }
            OpResult::Ready(m)
        }
    }

    fn attempt_flush(&mut self) -> (r: OpResult<(), u8>) {
        self.consume_unit_step()
    }

    fn attempt_close(&mut self) -> (r: OpResult<(), u8>) {
        self.consume_unit_step()
    }
}

} // verus!
