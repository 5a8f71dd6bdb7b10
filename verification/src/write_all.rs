//! Write-to-completion: drive a writer until a buffer is entirely consumed.

use vstd::prelude::*;

use crate::op_result::OpResult;
use crate::write::Write;

verus! {

/// Terminal error of a write-to-completion machine.
#[derive(Debug, Clone, Copy, PartialEq, Eq, PartialOrd, Ord, Hash)]
pub enum Error<E> {
    /// The writer accepted zero bytes before the buffer was exhausted.
    WriteZero,
    /// The writer failed with its own terminal error.
    Other(E),
}

enum State<W: Write> {
    Writing { writer: W, buffer: Vec<u8>, position: usize },
    Empty,
}

/// A single-use state machine that repeatedly writes until its buffer is
/// entirely consumed, accumulating partial progress across polls.
///
/// While active it exclusively owns the writer, the source buffer and a
/// cursor counting the bytes already written. On success it hands the writer
/// and the untouched buffer back out; on a terminal error it discards both.
/// Either way it becomes consumed and must not be polled again: `poll`
/// requires `is_active()`.
pub struct WriteAll<W: Write> {
    state: State<W>,
}

/// Creates a machine that will write all data from `buffer` into `writer`.
///
/// Once the buffer has been written, polling the machine returns the writer
/// and the buffer together. On an error from the writer the machine discards
/// both and returns only the error.
pub fn write_all<W: Write>(writer: W, buffer: Vec<u8>) -> (m: WriteAll<W>)
    ensures
        m.is_active(),
        m.wf(),
        m.writer() == writer,
        m.buffer() == buffer@,
        m.position() == 0,
{
    WriteAll { state: State::Writing { writer, buffer, position: 0 } }
}

impl<W: Write> WriteAll<W> {
    /// Whether the machine still owns its writer and buffer and may be
    /// polled. Consumed machines — success already delivered, or a terminal
    /// error surfaced — are no longer active.
    pub closed spec fn is_active(&self) -> bool {
        self.state is Writing
    }

    /// The owned writer, while the machine is active.
    pub closed spec fn writer(&self) -> W
        recommends
            self.is_active(),
    {
        self.state->Writing_writer
    }

    /// The owned source buffer, while the machine is active.
    pub closed spec fn buffer(&self) -> Seq<u8>
        recommends
            self.is_active(),
    {
        self.state->Writing_buffer@
    }

    /// The cursor: how many leading bytes of the buffer are already written.
    pub closed spec fn position(&self) -> int
        recommends
            self.is_active(),
    {
        self.state->Writing_position as int
    }

    /// The cursor never exceeds the buffer length.
    pub open spec fn wf(&self) -> bool {
        self.is_active() ==> 0 <= self.position() <= self.buffer().len()
    }

    /// Poll the associated writer with some bytes from the buffer.
    ///
    /// Writes are attempted from the unwritten suffix of the buffer until
    /// all of it has been accepted: the writer and the unchanged buffer are
    /// then handed back and the machine is consumed. A machine with nothing
    /// left to write — in particular one built over an empty buffer —
    /// completes at once, without consulting the writer. `Ready` states exactly
    /// what the writer accepted: every byte from the cursor to the end, in
    /// order. A would-block from the writer surfaces as `WouldBlock` with
    /// all progress retained — in particular, if the writer accepted
    /// nothing, cursor and writer sink are exactly as they were. A writer
    /// error `e` is surfaced as `Failed(Other(e))`, and zero bytes accepted
    /// before the buffer was exhausted as `Failed(WriteZero)` — which the
    /// write contract reserves for a sink that definitively accepts no
    /// more; accordingly, a writer that is already exhausted can never
    /// complete a machine with bytes still to write. Both discard writer
    /// and buffer and consume the machine.
    #[verifier::loop_isolation(false)]
    pub fn poll(&mut self) -> (r: OpResult<(W, Vec<u8>), Error<<W as Write>::Error>>)
        requires
            old(self).is_active(),
            old(self).wf(),
        ensures
            final(self).wf(),
            ({
                let sink0 = old(self).writer().sink();
                let buf0 = old(self).buffer();
                let pos0 = old(self).position();
                let len = buf0.len() as int;
                &&& (pos0 == len ==> r is Ready)
                &&& (pos0 < len && old(self).writer().exhausted() ==> !(r is Ready))
                &&& match r {
                    OpResult::Ready((writer, buffer)) => {
                        &&& !final(self).is_active()
                        &&& buffer@ == buf0
                        &&& writer.sink() == sink0 + buf0.subrange(pos0, len)
                    },
                    OpResult::WouldBlock => {
                        let k = final(self).position() - pos0;
                        &&& final(self).is_active()
                        &&& final(self).buffer() == buf0
                        &&& 0 <= k
                        &&& final(self).position() < len
                        &&& final(self).writer().sink() == sink0 + buf0.subrange(pos0, pos0 + k)
                        &&& (final(self).writer().sink() == sink0 ==> final(self).position()
                            == pos0)
                        &&& (final(self).position() == pos0 ==> final(self).writer().exhausted()
                            == old(self).writer().exhausted())
                    },
                    OpResult::Failed(err) => {
                        &&& !final(self).is_active()
                        &&& (err is WriteZero ==> pos0 < len)
                    },
                }
            }),
    {
        let ghost sink0: Seq<u8> = old(self).writer().sink();
        let ghost buf0: Seq<u8> = old(self).buffer();
        let ghost pos0: int = old(self).position();
        let ghost exh0: bool = old(self).writer().exhausted();

        let mut taken = State::Empty;
        core::mem::swap(&mut self.state, &mut taken);
        match taken {
            State::Writing { mut writer, buffer, mut position } => {
                let len: usize = buffer.len();
                proof {
                    assert(sink0 + buf0.subrange(pos0, pos0) =~= sink0);
                }
                while position < len
                    invariant
                        !self.is_active(),
                        buffer@ == buf0,
                        pos0 <= position <= len,
                        writer.sink() == sink0 + buf0.subrange(pos0, position as int),
                        exh0 ==> writer.exhausted(),
                        exh0 && pos0 < len ==> position == pos0,
                        position == pos0 ==> writer.exhausted() == exh0,
                    decreases len - position,
                {
                    let ghost sink_pre: Seq<u8> = writer.sink();
                    match writer.attempt_write(&buffer, position) {
                        OpResult::Ready(n) => {
                            if n == 0 {
                                return OpResult::Failed(Error::WriteZero);
                            }
                            proof {
                                assert(sink_pre + buf0.subrange(
                                    position as int,
                                    position + n,
                                ) =~= sink0 + buf0.subrange(pos0, position + n));
                            }
                            position = position + n;
                        },
                        OpResult::WouldBlock => {
                            let ghost k: int = position - pos0;
                            proof {
                                if writer.sink() == sink0 {
                                    assert(writer.sink().len() == sink0.len() + k);
                                }
                            }
                            self.state = State::Writing { writer, buffer, position };
                            return OpResult::WouldBlock;
                        },
                        OpResult::Failed(e) => {
                            return OpResult::Failed(Error::Other(e));
                        },
                    }
                }
                OpResult::Ready((writer, buffer))
            },
            State::Empty => {
                proof {
                    assert(false);
                }
                OpResult::WouldBlock
            },
        }
    }
}

/// Would-block polls compose. If one poll of an active machine ends in
/// would-block, leaving the machine in state `mid`, and a later poll of
/// `mid` ends in would-block again, leaving `post`, then `post` stands to
/// the original machine exactly as after a single would-block poll: the
/// writer has accepted exactly the buffer's bytes from the original cursor
/// to the new one, once each, in order. However often polling blocks, no
/// byte is lost, repeated or reordered.
///
/// The `requires` are the would-block postcondition of `poll` relating
/// `pre` to `mid` and `mid` to `post`; the `ensures` is the would-block
/// postcondition relating `pre` directly to `post`.
pub proof fn lemma_write_would_block_composes<W: Write>(
    pre: WriteAll<W>,
    mid: WriteAll<W>,
    post: WriteAll<W>,
)
    requires
        pre.is_active(),
        pre.wf(),
        mid.is_active(),
        mid.wf(),
        post.is_active(),
        post.wf(),
        mid.buffer() == pre.buffer(),
        post.buffer() == mid.buffer(),
        pre.position() <= mid.position(),
        mid.position() <= post.position(),
        mid.writer().sink() == pre.writer().sink() + pre.buffer().subrange(
            pre.position(),
            mid.position(),
        ),
        post.writer().sink() == mid.writer().sink() + mid.buffer().subrange(
            mid.position(),
            post.position(),
        ),
    ensures
        post.writer().sink() == pre.writer().sink() + pre.buffer().subrange(
            pre.position(),
            post.position(),
        ),
{
    assert(post.writer().sink() =~= pre.writer().sink() + pre.buffer().subrange(
        pre.position(),
        post.position(),
    ));
}

/// Partial progress accumulates. If polling an active machine ends in
/// would-block, leaving the machine in state `mid`, and a later poll of
/// `mid` completes, then the writer handed out has accepted exactly what a
/// directly completing poll would have delivered: every byte of the buffer
/// from the original cursor to the end, once each, in order. A would-block
/// never loses, repeats or reorders bytes.
///
/// The `requires` are the would-block postcondition of `poll` relating
/// `pre` to `mid`, and the success postcondition relating `mid` to the
/// returned writer; the `ensures` is the success postcondition relating
/// `pre` to that same writer.
pub proof fn lemma_write_progress_composes<W: Write>(
    pre: WriteAll<W>,
    mid: WriteAll<W>,
    out_writer: W,
)
    requires
        pre.is_active(),
        pre.wf(),
        mid.is_active(),
        mid.wf(),
        mid.buffer() == pre.buffer(),
        pre.position() <= mid.position(),
        mid.writer().sink() == pre.writer().sink() + pre.buffer().subrange(
            pre.position(),
            mid.position(),
        ),
        out_writer.sink() == mid.writer().sink() + mid.buffer().subrange(
            mid.position(),
            mid.buffer().len() as int,
        ),
    ensures
        out_writer.sink() == pre.writer().sink() + pre.buffer().subrange(
            pre.position(),
            pre.buffer().len() as int,
        ),
{
    assert(out_writer.sink() =~= pre.writer().sink() + pre.buffer().subrange(
        pre.position(),
        pre.buffer().len() as int,
    ));
}

} // verus!
