//! The paced, chunked delivery of a finished buffer to the server.
//!
//! The publisher cuts the buffer into chunks of a fixed size, the last one
//! possibly shorter, and has each chunk sent and then waited for: after every
//! chunk the connection is synchronised, which holds the sender back to the
//! pace of playback.

use vstd::prelude::*;
use vstd::slice::slice_subrange;
use crate::error::{Error, ErrorKind};

verus! {

/// The chunk size used where none is configured.
pub const DEFAULT_CHUNK_SIZE: usize = 4096;

/// The number of chunks of at most `size` bytes that `len` bytes make.
pub open spec fn chunk_count(len: nat, size: nat) -> nat
    recommends
        size > 0,
{
    (len + size - 1) as nat / size
}

/// The chunk with the given index: `size` bytes from `index * size`, or what
/// is left of the buffer from there.
pub open spec fn chunk(buffer: Seq<u8>, size: nat, index: nat) -> Seq<u8>
    recommends
        size > 0,
        index < chunk_count(buffer.len(), size),
{
    let start = (index * size) as int;
    let end = if start + size <= buffer.len() {
        start + size
    } else {
        buffer.len() as int
    };
    buffer.subrange(start, end)
}

/// All chunks of a buffer, in order.
pub open spec fn chunks(buffer: Seq<u8>, size: nat) -> Seq<Seq<u8>>
    recommends
        size > 0,
{
    Seq::new(chunk_count(buffer.len(), size), |i: int| chunk(buffer, size, i as nat))
}

/// The parts joined end to end.
pub open spec fn joined(parts: Seq<Seq<u8>>) -> Seq<u8>
    decreases parts.len(),
{
    if parts.len() == 0 {
        Seq::empty()
    } else {
        joined(parts.drop_last()) + parts.last()
    }
}

/// Where a publisher stands.
#[derive(Clone, Copy, Debug, PartialEq, Eq, Structural)]
pub enum PublishPhase {
    /// The connection is to be made.
    Connecting,
    /// The next chunk is to be sent.
    Sending,
    /// The chunk is sent; the connection is to be synchronised.
    Syncing,
    /// Every chunk is sent and waited for.
    Done,
    /// A step failed; nothing more is sent.
    Failed,
}

/// The next thing to do for a publisher.
#[derive(Clone, Copy, Debug, PartialEq, Eq, Structural)]
pub enum PublishStep {
    /// Connect to the server and log in.
    Connect,
    /// Send the chunk with this index.
    Send(usize),
    /// Wait until the server wants more.
    Sync,
    /// Nothing: all is delivered.
    Finished,
    /// Nothing: delivery has failed.
    GiveUp,
}

/// The state of a publisher.
pub struct PublishState {
    pub buffer: Seq<u8>,
    pub chunk_size: nat,
    /// The number of chunks sent.
    pub sent: nat,
    pub phase: PublishPhase,
}

impl PublishState {
    /// The number of chunks of the buffer.
    pub open spec fn count(self) -> nat {
        chunk_count(self.buffer.len(), self.chunk_size)
    }

    /// The state before anything is done.
    pub open spec fn initial(buffer: Seq<u8>, chunk_size: nat) -> PublishState {
        PublishState { buffer, chunk_size, sent: 0, phase: PublishPhase::Connecting }
    }

    /// The step that is due.
    pub open spec fn due(self) -> PublishStep {
        match self.phase {
            PublishPhase::Connecting => PublishStep::Connect,
            PublishPhase::Sending => PublishStep::Send(self.sent as usize),
            PublishPhase::Syncing => PublishStep::Sync,
            PublishPhase::Done => PublishStep::Finished,
            PublishPhase::Failed => PublishStep::GiveUp,
        }
    }

    /// The phase that follows the sending of `sent` chunks.
    pub open spec fn phase_at(self, sent: nat) -> PublishPhase {
        if sent < self.count() {
            PublishPhase::Sending
        } else {
            PublishPhase::Done
        }
    }

    /// The state after the step that was due has succeeded (`ok`) or failed.
    pub open spec fn after(self, ok: bool) -> PublishState {
        match self.phase {
            PublishPhase::Done => self,
            PublishPhase::Failed => self,
            _ => if !ok {
                PublishState { phase: PublishPhase::Failed, ..self }
            } else {
                match self.phase {
                    PublishPhase::Connecting => PublishState { phase: self.phase_at(0), ..self },
                    PublishPhase::Sending => PublishState {
                        sent: self.sent + 1,
                        phase: PublishPhase::Syncing,
                        ..self
                    },
                    _ => PublishState { phase: self.phase_at(self.sent), ..self },
                }
            },
        }
    }

    /// The state after the steps with the given outcomes, in order.
    pub open spec fn after_all(self, outcomes: Seq<bool>) -> PublishState
        decreases outcomes.len(),
    {
        if outcomes.len() == 0 {
            self
        } else {
            self.after_all(outcomes.drop_last()).after(outcomes.last())
        }
    }

    /// The chunks sent so far, in the order of sending.
    pub open spec fn delivered(self) -> Seq<Seq<u8>> {
        chunks(self.buffer, self.chunk_size).take(self.sent as int)
    }
}

/// What a failed step is called in the cause of the failure.
pub open spec fn failure_cause(step: PublishStep) -> Seq<char> {
    match step {
        PublishStep::Connect => "connecting failed"@,
        PublishStep::Send(_) => "sending a chunk failed"@,
        PublishStep::Sync => "synchronising failed"@,
        PublishStep::Finished => "nothing was due"@,
        PublishStep::GiveUp => "nothing was due"@,
    }
}

fn cause_of(step: PublishStep) -> (s: &'static str)
    ensures
        s@ == failure_cause(step),
{
    match step {
        PublishStep::Connect => "connecting failed",
        PublishStep::Send(_) => "sending a chunk failed",
        PublishStep::Sync => "synchronising failed",
        PublishStep::Finished => "nothing was due",
        PublishStep::GiveUp => "nothing was due",
    }
}

/// How much of the buffer is sent, in chunks and in bytes.
#[derive(Clone, Copy, Debug)]
struct Cursor {
    sent: usize,
    offset: usize,
}

/// Delivers one buffer in chunks.
#[derive(Debug)]
pub struct Publisher {
    buffer: Vec<u8>,
    chunk_size: usize,
    cursor: Cursor,
    phase: PublishPhase,
}

impl View for Publisher {
    type V = PublishState;

    closed spec fn view(&self) -> PublishState {
        PublishState {
            buffer: self.buffer@,
            chunk_size: self.chunk_size as nat,
            sent: self.cursor.sent as nat,
            phase: self.phase,
        }
    }
}

impl Publisher {
    #[verifier::type_invariant]
    spec fn valid(self) -> bool {
        let count = chunk_count(self.buffer@.len(), self.chunk_size as nat);
        &&& self.chunk_size > 0
        &&& self.cursor.sent <= count
        &&& self.cursor.offset <= self.buffer@.len()
        &&& self.cursor.offset == self.cursor.sent * self.chunk_size || (self.cursor.offset
            == self.buffer@.len() && self.cursor.sent == count)
        &&& self.phase == PublishPhase::Connecting ==> self.cursor.sent == 0
        &&& self.phase == PublishPhase::Sending ==> self.cursor.sent < count
    }

    /// A publisher for `buffer` that has nothing done yet. Without a chunk
    /// size there is no publisher, and the buffer comes back.
    pub fn new(buffer: Vec<u8>, chunk_size: usize) -> (r: Result<Publisher, Vec<u8>>)
        ensures
            r.is_ok() <==> chunk_size > 0,
            r matches Ok(p) ==> p@ == PublishState::initial(buffer@, chunk_size as nat),
            r matches Err(b) ==> b@ == buffer@,
    {
        if chunk_size == 0 {
            Err(buffer)
        } else {
            assert(0 * chunk_size == 0) by (nonlinear_arith);
            Ok(
                Publisher {
                    buffer,
                    chunk_size,
                    cursor: Cursor { sent: 0, offset: 0 },
                    phase: PublishPhase::Connecting,
                },
            )
        }
    }

    /// The step that is due.
    pub fn pending(&self) -> (step: PublishStep)
        ensures
            step == self@.due(),
    {
        match self.phase {
            PublishPhase::Connecting => PublishStep::Connect,
            PublishPhase::Sending => PublishStep::Send(self.cursor.sent),
            PublishPhase::Syncing => PublishStep::Sync,
            PublishPhase::Done => PublishStep::Finished,
            PublishPhase::Failed => PublishStep::GiveUp,
        }
    }

    /// The chunk to send, while one is due; no bytes otherwise.
    pub fn chunk(&self) -> (bytes: &[u8])
        ensures
            self@.phase == PublishPhase::Sending ==> bytes@ == chunk(
                self@.buffer,
                self@.chunk_size,
                self@.sent,
            ) && bytes@.len() > 0,
            self@.phase != PublishPhase::Sending ==> bytes@.len() == 0,
    {
        proof {
            use_type_invariant(self);
        }
        if self.phase == PublishPhase::Sending {
            proof {
                lemma_chunk_bounds(
                    self.buffer@.len(),
                    self.chunk_size as nat,
                    self.cursor.sent as nat,
                );
            }
            let start: usize = self.cursor.offset;
            let left: usize = self.buffer.len() - start;
            let end: usize = if left >= self.chunk_size {
                start + self.chunk_size
            } else {
                self.buffer.len()
            };
            slice_subrange(self.buffer.as_slice(), start, end)
        } else {
            slice_subrange(self.buffer.as_slice(), 0, 0)
        }
    }

    /// Records that the step that was due has succeeded (`ok`) or failed.
    ///
    /// A failed step ends the delivery. The failure is reported once, by the
    /// call that records it.
    pub fn completed(&mut self, ok: bool) -> (r: Result<(), Error>)
        ensures
            final(self)@ == old(self)@.after(ok),
            r.is_err() <==> (final(self)@.phase == PublishPhase::Failed && old(self)@.phase
                != PublishPhase::Failed),
            r matches Err(e) ==> e.kind == ErrorKind::Network && e.cause@ == failure_cause(
                old(self)@.due(),
            ),
    {
        proof {
            use_type_invariant(&*self);
            lemma_chunk_bounds(
                self.buffer@.len(),
                self.chunk_size as nat,
                self.cursor.sent as nat,
            );
            assert(0 * self.chunk_size == 0) by (nonlinear_arith);
        }
        let due: PublishStep = self.pending();
        match self.phase {
            PublishPhase::Done => Ok(()),
            PublishPhase::Failed => Ok(()),
            PublishPhase::Connecting => {
                if !ok {
                    self.phase = PublishPhase::Failed;
                    Err(Error::new(ErrorKind::Network, cause_of(due)))
                } else {
                    self.phase =
                    if self.buffer.len() > 0 {
                        PublishPhase::Sending
                    } else {
                        PublishPhase::Done
                    };
                    Ok(())
                }
            },
            PublishPhase::Sending => {
                if !ok {
                    self.phase = PublishPhase::Failed;
                    Err(Error::new(ErrorKind::Network, cause_of(due)))
                } else {
                    let sent: usize = self.cursor.sent;
                    let start: usize = self.cursor.offset;
                    let left: usize = self.buffer.len() - start;
                    let end: usize = if left >= self.chunk_size {
                        start + self.chunk_size
                    } else {
                        self.buffer.len()
                    };
                    proof {
                        lemma_chunk_bounds(
                            self.buffer@.len(),
                            self.chunk_size as nat,
                            (sent + 1) as nat,
                        );
                        assert((sent + 1) * self.chunk_size == sent * self.chunk_size
                            + self.chunk_size) by (nonlinear_arith);
                    }
                    self.phase = PublishPhase::Syncing;
                    self.cursor = Cursor { sent: sent + 1, offset: end };
                    Ok(())
                }
            },
            PublishPhase::Syncing => {
                if !ok {
                    self.phase = PublishPhase::Failed;
                    Err(Error::new(ErrorKind::Network, cause_of(due)))
                } else {
                    self.phase =
                    if self.cursor.offset < self.buffer.len() {
                        PublishPhase::Sending
                    } else {
                        PublishPhase::Done
                    };
                    Ok(())
                }
            },
        }
    }

    /// The number of chunks sent.
    pub fn sent(&self) -> (n: usize)
        ensures
            n == self@.sent,
    {
        self.cursor.sent
    }

    /// Whether every chunk is sent and waited for.
    pub fn is_done(&self) -> (b: bool)
        ensures
            b == (self@.phase == PublishPhase::Done),
    {
        self.phase == PublishPhase::Done
    }

    /// Gives the buffer back, whole and unchanged, however far the delivery
    /// has come.
    pub fn into_buffer(self) -> (buffer: Vec<u8>)
        ensures
            buffer@ == self@.buffer,
    {
        self.buffer
    }
}

/// Where the chunks of a buffer begin and end: chunk `index` exists exactly
/// when its first byte does, and the bytes before it are `index` whole
/// chunks.
pub proof fn lemma_chunk_bounds(len: nat, size: nat, index: nat)
    requires
        size > 0,
    ensures
        index < chunk_count(len, size) <==> index * size < len,
        index == chunk_count(len, size) ==> (index - 1) * size < len <= index * size || (len == 0
            && index == 0),
        chunk_count(len, size) == 0 <==> len == 0,
        chunk_count(len, size) <= len,
{
    let n = chunk_count(len, size);
    let total = (len + size - 1) as int;
    vstd::arithmetic::div_mod::lemma_fundamental_div_mod(total, size as int);
    let r = total % (size as int);
    assert(total == size * n + r && 0 <= r < size);
    assert(index < n <==> index * size < len) by (nonlinear_arith)
        requires
            len + size - 1 == size * n + r,
            0 <= r < size,
            size > 0,
    ;
    assert(index == n ==> (index - 1) * size < len <= index * size || (len == 0 && index == 0))
        by (nonlinear_arith)
        requires
            len + size - 1 == size * n + r,
            0 <= r < size,
            size > 0,
    ;
    assert(n == 0 <==> len == 0) by (nonlinear_arith)
        requires
            len + size - 1 == size * n + r,
            0 <= r < size,
            size > 0,
    ;
    assert(n <= len) by (nonlinear_arith)
        requires
            len + size - 1 == size * n + r,
            0 <= r < size,
            size > 0,
    ;
}

/// The first `count` chunks, joined, are the buffer up to the end of the last
/// of them.
proof fn lemma_joined_prefix(buffer: Seq<u8>, size: nat, count: nat)
    requires
        size > 0,
        count <= chunk_count(buffer.len(), size),
    ensures
        joined(chunks(buffer, size).take(count as int)) == buffer.take(
            if count * size <= buffer.len() {
                (count * size) as int
            } else {
                buffer.len() as int
            },
        ),
    decreases count,
{
    let all = chunks(buffer, size);
    if count == 0 {
        assert(all.take(0) =~= Seq::<Seq<u8>>::empty());
        assert(0 * size == 0) by (nonlinear_arith);
        assert(buffer.take(0) =~= Seq::<u8>::empty());
    } else {
        let before = (count - 1) as nat;
        lemma_joined_prefix(buffer, size, before);
        lemma_chunk_bounds(buffer.len(), size, before);
        assert(count * size == before * size + size) by (nonlinear_arith)
            requires
                before == count - 1,
        ;
        assert(all.take(count as int).drop_last() =~= all.take(before as int));
        assert(all.take(count as int).last() == chunk(buffer, size, before));
        let end = if count * size <= buffer.len() {
            (count * size) as int
        } else {
            buffer.len() as int
        };
        assert(buffer.take((before * size) as int) + chunk(buffer, size, before) =~= buffer.take(
            end,
        ));
    }
}

/// Chunking is exact. A buffer of `L` bytes cut at size `C` makes
/// `ceil(L / C)` chunks. Each of them holds `C` bytes, but for the last,
/// which holds at least one byte and at most `C`. Joined in order the chunks
/// are the buffer.
pub proof fn lemma_chunking_exact(buffer: Seq<u8>, size: nat)
    requires
        size > 0,
    ensures
        chunks(buffer, size).len() == chunk_count(buffer.len(), size),
        chunk_count(buffer.len(), size) * size >= buffer.len(),
        chunk_count(buffer.len(), size) * size < buffer.len() + size,
        forall|i: int|
            0 <= i < chunks(buffer, size).len() - 1 ==> (#[trigger] chunks(buffer, size)[i]).len()
                == size,
        chunks(buffer, size).len() > 0 ==> 0 < chunks(buffer, size).last().len() <= size,
        joined(chunks(buffer, size)) == buffer,
{
    let n = chunk_count(buffer.len(), size);
    let all = chunks(buffer, size);
    lemma_chunk_bounds(buffer.len(), size, n);
    assert forall|i: int| 0 <= i < all.len() - 1 implies (#[trigger] all[i]).len() == size by {
        lemma_chunk_bounds(buffer.len(), size, (i + 1) as nat);
        assert((i + 1) * size == i * size + size) by (nonlinear_arith);
    }
    if n > 0 {
        lemma_chunk_bounds(buffer.len(), size, (n - 1) as nat);
        assert(n * size == (n - 1) * size + size) by (nonlinear_arith);
    } else {
        assert(n * size == 0) by (nonlinear_arith)
            requires
                n == 0,
        ;
    }
    lemma_joined_prefix(buffer, size, n);
    assert(all.take(n as int) =~= all);
    assert(buffer.take(buffer.len() as int) =~= buffer);
}

/// A delivery without failure. After the connection and `k` chunks sent and
/// waited for the publisher has sent the first `k` chunks and stands at the
/// next, or is done when none is left; it is done after all of them and not
/// before.
pub proof fn lemma_delivery_in_order(buffer: Seq<u8>, size: nat, k: nat)
    requires
        size > 0,
        k <= chunk_count(buffer.len(), size),
    ensures
        ({
            let start = PublishState::initial(buffer, size);
            let now = start.after_all(Seq::new(1 + 2 * k, |i: int| true));
            &&& now.sent == k
            &&& now.buffer == buffer
            &&& now.chunk_size == size
            &&& now.delivered() == chunks(buffer, size).take(k as int)
            &&& now.phase == (if k < chunk_count(buffer.len(), size) {
                PublishPhase::Sending
            } else {
                PublishPhase::Done
            })
            &&& now.phase == PublishPhase::Done ==> joined(now.delivered()) == buffer
        }),
    decreases k,
{
    let start = PublishState::initial(buffer, size);
    let outcomes = Seq::new(1 + 2 * k, |i: int| true);
    if k == 0 {
        assert(outcomes.drop_last() =~= Seq::<bool>::empty());
        assert(start.after_all(outcomes.drop_last()) == start);
    } else {
        let before = Seq::new(1 + 2 * (k - 1) as nat, |i: int| true);
        lemma_delivery_in_order(buffer, size, (k - 1) as nat);
        let mid = outcomes.drop_last();
        assert(mid.drop_last() =~= before);
        assert(mid.last());
        assert(outcomes.last());
        assert(start.after_all(mid) == start.after_all(before).after(true));
    }
    let now = start.after_all(outcomes);
    if now.phase == PublishPhase::Done {
        lemma_chunking_exact(buffer, size);
        assert(chunks(buffer, size).take(k as int) =~= chunks(buffer, size));
    }
}

/// A finished or failed delivery stays as it is: nothing more is sent.
pub proof fn lemma_delivery_ends(state: PublishState, ok: bool)
    requires
        state.phase == PublishPhase::Done || state.phase == PublishPhase::Failed,
    ensures
        state.after(ok) == state,
        state.due() == PublishStep::Finished || state.due() == PublishStep::GiveUp,
{
}

} // verus!
