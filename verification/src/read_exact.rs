//! Read-to-completion: drive a reader until a buffer is entirely filled.

use vstd::prelude::*;

use crate::op_result::OpResult;
use crate::read::Read;

verus! {

/// Terminal error of a read-to-completion machine.
#[derive(Debug, Clone, Copy, PartialEq, Eq, PartialOrd, Ord, Hash)]
pub enum Error<E> {
    /// The reader reported zero bytes before the buffer was full.
    UnexpectedEof,
    /// The reader failed with its own terminal error.
    Other(E),
}

enum State<R: Read> {
    Reading { reader: R, buffer: Vec<u8>, position: usize },
    Empty,
}

/// A single-use state machine that repeatedly reads until its buffer is
/// entirely filled, accumulating partial progress across polls.
///
/// While active it exclusively owns the reader, the destination buffer and a
/// cursor counting the bytes already filled. On success it hands the reader
/// and the filled buffer back out; on a terminal error it discards both.
/// Either way it becomes consumed and must not be polled again: `poll`
/// requires `is_active()`.
pub struct ReadExact<R: Read> {
    state: State<R>,
}

/// Creates a machine that will read from `reader` until `buffer` is filled.
///
/// Once the buffer has been filled, polling the machine returns the reader
/// and the buffer together. On an error from the reader the machine discards
/// both and returns only the error.
pub fn read_exact<R: Read>(reader: R, buffer: Vec<u8>) -> (m: ReadExact<R>)
    ensures
        m.is_active(),
        m.wf(),
        m.reader() == reader,
        m.buffer() == buffer@,
        m.position() == 0,
{
    ReadExact { state: State::Reading { reader, buffer, position: 0 } }
}

impl<R: Read> ReadExact<R> {
    /// Whether the machine still owns its reader and buffer and may be
    /// polled. Consumed machines — success already delivered, or a terminal
    /// error surfaced — are no longer active.
    pub closed spec fn is_active(&self) -> bool {
        self.state is Reading
    }

    /// The owned reader, while the machine is active.
    pub closed spec fn reader(&self) -> R
        recommends
            self.is_active(),
    {
        self.state->Reading_reader
    }

    /// The owned destination buffer, while the machine is active.
    pub closed spec fn buffer(&self) -> Seq<u8>
        recommends
            self.is_active(),
    {
        self.state->Reading_buffer@
    }

    /// The cursor: how many leading bytes of the buffer are already filled.
    pub closed spec fn position(&self) -> int
        recommends
            self.is_active(),
    {
        self.state->Reading_position as int
    }

    /// The cursor never exceeds the buffer length.
    pub open spec fn wf(&self) -> bool {
        self.is_active() ==> 0 <= self.position() <= self.buffer().len()
    }

    /// Poll the associated reader for new bytes.
    ///
    /// Reads are attempted on the unfilled suffix of the buffer until it is
    /// full: the filled buffer and the reader are then handed back and the
    /// machine is consumed. A machine whose buffer is already full — in
    /// particular one built over an empty buffer — completes at once,
    /// without consulting the reader. `Ready` states exactly what the buffer holds:
    /// what was already filled, followed by the supplied bytes, in order. A
    /// would-block from the reader surfaces as `WouldBlock` with all
    /// progress retained — in particular, if the reader supplied nothing,
    /// cursor and buffer are exactly as they were. A reader error `e` is
    /// surfaced as `Failed(Other(e))`, and zero bytes supplied before the
    /// buffer was full as `Failed(UnexpectedEof)` — which, since the read
    /// contract reserves zero bytes for a truly exhausted source, only
    /// happens when the reader held fewer bytes than the buffer still
    /// needed. Both discard reader and buffer and consume the machine.
    #[verifier::loop_isolation(false)]
    pub fn poll(&mut self) -> (r: OpResult<(R, Vec<u8>), Error<<R as Read>::Error>>)
        requires
            old(self).is_active(),
            old(self).wf(),
        ensures
            final(self).wf(),
            ({
                let src0 = old(self).reader().source();
                let buf0 = old(self).buffer();
                let pos0 = old(self).position();
                let len = buf0.len() as int;
                &&& (pos0 == len ==> r is Ready)
                &&& match r {
                    OpResult::Ready((reader, buffer)) => {
                        &&& !final(self).is_active()
                        &&& len - pos0 <= src0.len()
                        &&& buffer@ == buf0.take(pos0) + src0.take(len - pos0)
                        &&& reader.source() == src0.skip(len - pos0)
                    },
                    OpResult::WouldBlock => {
                        let k = final(self).position() - pos0;
                        &&& final(self).is_active()
                        &&& final(self).buffer().len() == len
                        &&& 0 <= k <= src0.len()
                        &&& final(self).position() < len
                        &&& final(self).reader().source() == src0.skip(k)
                        &&& final(self).buffer() == buf0.take(pos0) + src0.take(k) + buf0.skip(
                            pos0 + k,
                        )
                        &&& (final(self).reader().source() == src0 ==> final(self).position()
                            == pos0 && final(self).buffer() == buf0)
                    },
                    OpResult::Failed(err) => {
                        &&& !final(self).is_active()
                        &&& (err is UnexpectedEof ==> src0.len() < len - pos0)
                    },
                }
            }),
    {
        let ghost src0: Seq<u8> = old(self).reader().source();
        let ghost buf0: Seq<u8> = old(self).buffer();
        let ghost pos0: int = old(self).position();

        let mut taken = State::Empty;
        core::mem::swap(&mut self.state, &mut taken);
        match taken {
            State::Reading { mut reader, mut buffer, mut position } => {
                let len: usize = buffer.len();
                proof {
                    assert(src0.skip(0) =~= src0);
                }
                while position < len
                    invariant
                        !self.is_active(),
                        buffer.len() == len,
                        pos0 <= position <= len,
                        position - pos0 <= src0.len(),
                        reader.source() == src0.skip(position - pos0),
                        forall|i: int| 0 <= i < pos0 ==> buffer[i] == buf0[i],
                        forall|i: int| pos0 <= i < position ==> buffer[i] == src0[i - pos0],
                        forall|i: int| position <= i < len ==> buffer[i] == buf0[i],
                    decreases len - position,
                {
                    let ghost src_pre: Seq<u8> = reader.source();
                    let ghost buf_pre: Seq<u8> = buffer@;
                    match reader.attempt_read(&mut buffer, position) {
                        OpResult::Ready(n) => {
                            if n == 0 {
                                return OpResult::Failed(Error::UnexpectedEof);
                            }
                            proof {
                                assert forall|i: int| position + n <= i < len implies buffer[i]
                                    == buf0[i] by {
                                    assert(buffer[i] == buf_pre[i]);
                                }
                                assert forall|i: int| 0 <= i < pos0 implies buffer[i] == buf0[i]
                                    by {
                                    assert(buffer[i] == buf_pre[i]);
                                }
                                assert forall|i: int| pos0 <= i < position + n implies buffer[i]
                                    == src0[i - pos0] by {
                                    if i < position {
                                        assert(buffer[i] == buf_pre[i]);
                                    } else {
                                        assert(buffer[i] == src_pre[i - position]);
                                        assert(src_pre[i - position] == src0[i - pos0]);
                                    }
                                }
                                assert(reader.source() =~= src0.skip(position + n - pos0));
                            }
                            position = position + n;
                        },
                        OpResult::WouldBlock => {
                            let ghost k: int = position - pos0;
                            proof {
                                assert(buffer@ =~= buf0.take(pos0) + src0.take(k) + buf0.skip(
                                    pos0 + k,
                                ));
                                if reader.source() == src0 {
                                    assert(src0.skip(k).len() == src0.len() - k);
                                    assert(k == 0);
                                    assert(buf0.take(pos0) + src0.take(0) + buf0.skip(pos0)
                                        =~= buf0);
                                }
                            }
                            self.state = State::Reading { reader, buffer, position };
                            return OpResult::WouldBlock;
                        },
                        OpResult::Failed(e) => {
                            return OpResult::Failed(Error::Other(e));
                        },
                    }
                }
                proof {
                    assert(buffer@ =~= buf0.take(pos0) + src0.take(len - pos0));
                }
                OpResult::Ready((reader, buffer))
            },
            State::Empty => {
                proof {
                    assert(false);
                }
                OpResult::WouldBlock
            },
        }
    }
}

/// Would-block polls compose. If one poll of an active machine ends in
/// would-block, leaving the machine in state `mid`, and a later poll of
/// `mid` ends in would-block again, leaving `post`, then `post` stands to
/// the original machine exactly as after a single would-block poll: the
/// cursor's total advance matches the source bytes consumed, and those
/// bytes sit in the buffer at the original cursor, in order. However often
/// polling blocks, no byte is lost, repeated or reordered.
///
/// The `requires` are the would-block postcondition of `poll` relating
/// `pre` to `mid` and `mid` to `post`; the `ensures` is the would-block
/// postcondition relating `pre` directly to `post`.
pub proof fn lemma_read_would_block_composes<R: Read>(
    pre: ReadExact<R>,
    mid: ReadExact<R>,
    post: ReadExact<R>,
)
    requires
        pre.is_active(),
        pre.wf(),
        mid.is_active(),
        mid.wf(),
        post.is_active(),
        post.wf(),
        mid.buffer().len() == pre.buffer().len(),
        post.buffer().len() == mid.buffer().len(),
        pre.position() <= mid.position(),
        mid.position() <= post.position(),
        mid.position() - pre.position() <= pre.reader().source().len(),
        post.position() - mid.position() <= mid.reader().source().len(),
        post.position() < pre.buffer().len(),
        mid.reader().source() == pre.reader().source().skip(mid.position() - pre.position()),
        post.reader().source() == mid.reader().source().skip(post.position() - mid.position()),
        mid.buffer() == pre.buffer().take(pre.position()) + pre.reader().source().take(
            mid.position() - pre.position(),
        ) + pre.buffer().skip(mid.position()),
        post.buffer() == mid.buffer().take(mid.position()) + mid.reader().source().take(
            post.position() - mid.position(),
        ) + mid.buffer().skip(post.position()),
    ensures
        post.position() - pre.position() <= pre.reader().source().len(),
        post.reader().source() == pre.reader().source().skip(post.position() - pre.position()),
        post.buffer() == pre.buffer().take(pre.position()) + pre.reader().source().take(
            post.position() - pre.position(),
        ) + pre.buffer().skip(post.position()),
{
    let src0 = pre.reader().source();
    let buf0 = pre.buffer();
    let pos0 = pre.position();
    let pos1 = mid.position();
    let pos2 = post.position();
    assert(post.reader().source() =~= src0.skip(pos2 - pos0));
    assert(post.buffer() =~= buf0.take(pos0) + src0.take(pos2 - pos0) + buf0.skip(pos2));
}

/// Partial progress accumulates. If polling an active machine ends in
/// would-block, leaving the machine in state `mid`, and a later poll of
/// `mid` completes, then the buffer handed out holds exactly what a
/// directly completing poll would have produced: the bytes already filled
/// before the first poll, followed by the reader's next bytes, in order —
/// and the reader's source has been consumed by exactly the buffer's
/// length. A would-block never loses, repeats or reorders bytes.
///
/// The `requires` are the would-block postcondition of `poll` relating
/// `pre` to `mid`, and the success postcondition relating `mid` to the
/// returned reader and buffer; the `ensures` is the success postcondition
/// relating `pre` to that same reader and buffer.
pub proof fn lemma_read_progress_composes<R: Read>(
    pre: ReadExact<R>,
    mid: ReadExact<R>,
    out_reader: R,
    out_buf: Seq<u8>,
)
    requires
        pre.is_active(),
        pre.wf(),
        mid.is_active(),
        mid.wf(),
        mid.buffer().len() == pre.buffer().len(),
        pre.position() <= mid.position(),
        mid.position() - pre.position() <= pre.reader().source().len(),
        mid.reader().source() == pre.reader().source().skip(mid.position() - pre.position()),
        mid.buffer() == pre.buffer().take(pre.position()) + pre.reader().source().take(
            mid.position() - pre.position(),
        ) + pre.buffer().skip(mid.position()),
        mid.buffer().len() - mid.position() <= mid.reader().source().len(),
        out_buf == mid.buffer().take(mid.position()) + mid.reader().source().take(
            mid.buffer().len() - mid.position(),
        ),
        out_reader.source() == mid.reader().source().skip(mid.buffer().len() - mid.position()),
    ensures
        pre.buffer().len() - pre.position() <= pre.reader().source().len(),
        out_buf == pre.buffer().take(pre.position()) + pre.reader().source().take(
            pre.buffer().len() - pre.position(),
        ),
        out_reader.source() == pre.reader().source().skip(pre.buffer().len() - pre.position()),
{
    let src0 = pre.reader().source();
    let buf0 = pre.buffer();
    let pos0 = pre.position();
    let pos1 = mid.position();
    let len = buf0.len() as int;
    let k = pos1 - pos0;
    assert(out_buf =~= buf0.take(pos0) + src0.take(len - pos0));
    assert(out_reader.source() =~= src0.skip(len - pos0));
}

} // verus!
