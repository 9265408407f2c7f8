//! Bookkeeping of one transfer: a cursor that advances by whatever each
//! read or write moved, until the announced length is reached or the peer
//! closes the stream.
//!
//! The same rule serves both directions. A driver performs the I/O and
//! reports each byte count; the session says whether to go on, and how many
//! bytes the next operation may move at most. That limit is never more than
//! what is still owed, so the cursor cannot pass the announced length: the
//! length is authoritative, whatever the peer goes on to send.

use vstd::prelude::*;

verus! {

/// How a transfer stands after a read or a write.
#[derive(Clone, Copy, Debug, PartialEq, Eq, Structural)]
pub enum Progress {
    /// Bytes are still owed: do the next read or write.
    Continue,
    /// The cursor has reached the announced length.
    Complete,
    /// The peer moved no byte while bytes were still owed: it closed the
    /// stream. This ends the transfer early and is not an error.
    PeerClosed,
}

/// The standing of a transfer of `goal` bytes whose cursor stood at
/// `cursor` when an operation moved `n` bytes.
pub open spec fn progress_after(goal: nat, cursor: nat, n: nat) -> Progress {
    if cursor + n == goal {
        Progress::Complete
    } else if n == 0 {
        Progress::PeerClosed
    } else {
        Progress::Continue
    }
}

/// Cursor and standing of a transfer of `goal` bytes that starts at
/// `cursor` and sees the byte counts `steps` in order. Counts after the one
/// that ends the transfer are never looked at; if the counts run out first,
/// the transfer is still going.
pub open spec fn transfer_run(goal: nat, cursor: nat, steps: Seq<nat>) -> (nat, Progress)
    decreases steps.len(),
{
    if steps.len() == 0 {
        (cursor, Progress::Continue)
    } else if progress_after(goal, cursor, steps[0]) == Progress::Continue {
        transfer_run(goal, cursor + steps[0], steps.drop_first())
    } else {
        (cursor + steps[0], progress_after(goal, cursor, steps[0]))
    }
}

/// Whether `steps` are byte counts that a peer can produce which moves
/// `avail` bytes and then closes: each operation moves at least one byte and
/// at most `chunk` while bytes are left, and none once they are gone.
pub open spec fn stream_yields(avail: nat, chunk: nat, steps: Seq<nat>) -> bool
    decreases steps.len(),
{
    steps.len() == 0 || {
        &&& if avail == 0 {
            steps[0] == 0
        } else {
            1 <= steps[0] <= avail && steps[0] <= chunk
        }
        &&& stream_yields((avail - steps[0]) as nat, chunk, steps.drop_first())
    }
}

/// The standing in which a transfer of `goal` bytes ends when the peer
/// moves `moved` of them.
pub open spec fn final_progress(goal: nat, moved: nat) -> Progress {
    if moved == goal {
        Progress::Complete
    } else {
        Progress::PeerClosed
    }
}

/// Whether the byte counts `steps` suffice to end a transfer of `goal`
/// bytes that starts at `cursor`.
pub open spec fn transfer_ends(goal: nat, cursor: nat, steps: Seq<nat>) -> bool {
    transfer_run(goal, cursor, steps).1 != Progress::Continue
}

/// A transfer that has ended stands exactly where the peer stopped: if the
/// peer moves `avail` more bytes from `cursor` and then closes, the total is
/// `cursor + avail`, in whatever pieces the bytes came.
pub proof fn lemma_total_at_end(goal: nat, cursor: nat, avail: nat, chunk: nat, steps: Seq<nat>)
    requires
        cursor + avail <= goal,
        stream_yields(avail, chunk, steps),
        transfer_ends(goal, cursor, steps),
    ensures
        transfer_run(goal, cursor, steps) == (cursor + avail, final_progress(goal, cursor + avail)),
    decreases steps.len(),
{
    if progress_after(goal, cursor, steps[0]) == Progress::Continue {
        lemma_total_at_end(
            goal,
            cursor + steps[0],
            (avail - steps[0]) as nat,
            chunk,
            steps.drop_first(),
        );
    }
}

/// A transfer cannot stall: every operation moves a byte while the peer has
/// one left, so against a peer with `avail` bytes left the transfer has
/// ended after at most `avail + 1` operations.
pub proof fn lemma_transfer_ends(goal: nat, cursor: nat, avail: nat, chunk: nat, steps: Seq<nat>)
    requires
        cursor + avail <= goal,
        stream_yields(avail, chunk, steps),
        steps.len() > avail,
    ensures
        transfer_ends(goal, cursor, steps),
    decreases steps.len(),
{
    if progress_after(goal, cursor, steps[0]) == Progress::Continue {
        lemma_transfer_ends(
            goal,
            cursor + steps[0],
            (avail - steps[0]) as nat,
            chunk,
            steps.drop_first(),
        );
    }
}

/// Conservation: when the peer moves all `goal` bytes, the transfer ends
/// complete with a total of exactly `goal`, whatever the chunk size and
/// however the bytes are split over the operations.
pub proof fn lemma_conservation(goal: nat, chunk: nat, steps: Seq<nat>)
    requires
        stream_yields(goal, chunk, steps),
        transfer_ends(goal, 0, steps),
    ensures
        transfer_run(goal, 0, steps) == (goal, Progress::Complete),
{
    lemma_total_at_end(goal, 0, goal, chunk, steps);
}

/// Early termination: when the peer closes after `moved` bytes, fewer than
/// announced, the transfer ends with a total of exactly `moved` and the
/// standing `PeerClosed`, which is no error.
pub proof fn lemma_early_termination(goal: nat, moved: nat, chunk: nat, steps: Seq<nat>)
    requires
        moved < goal,
        stream_yields(moved, chunk, steps),
        transfer_ends(goal, 0, steps),
    ensures
        transfer_run(goal, 0, steps) == (moved, Progress::PeerClosed),
{
    lemma_total_at_end(goal, 0, moved, chunk, steps);
}

/// Whether `steps` are byte counts of operations that were each offered
/// no more than the transfer still owed, and no more than `chunk`: the
/// first count fits between `cursor` and `goal`, and so does every later one
/// that the transfer gets to.
pub open spec fn within_limit(goal: nat, cursor: nat, chunk: nat, steps: Seq<nat>) -> bool
    decreases steps.len(),
{
    steps.len() == 0 || {
        &&& cursor + steps[0] <= goal
        &&& steps[0] <= chunk
        &&& progress_after(goal, cursor, steps[0]) == Progress::Continue ==> within_limit(
            goal,
            cursor + steps[0],
            chunk,
            steps.drop_first(),
        )
    }
}

/// A peer that has no more to give than is still owed keeps every
/// operation within the limit.
pub proof fn lemma_stream_within_limit(
    goal: nat,
    cursor: nat,
    avail: nat,
    chunk: nat,
    steps: Seq<nat>,
)
    requires
        cursor + avail <= goal,
        stream_yields(avail, chunk, steps),
    ensures
        within_limit(goal, cursor, chunk, steps),
    decreases steps.len(),
{
    if steps.len() > 0 {
        lemma_stream_within_limit(
            goal,
            cursor + steps[0],
            (avail - steps[0]) as nat,
            chunk,
            steps.drop_first(),
        );
    }
}

/// The announced length is authoritative: a transfer whose operations are
/// each offered no more than is still owed never moves its cursor past
/// `goal`, whatever the peer has to give.
pub proof fn lemma_never_past_goal(goal: nat, cursor: nat, chunk: nat, steps: Seq<nat>)
    requires
        cursor <= goal,
        within_limit(goal, cursor, chunk, steps),
    ensures
        transfer_run(goal, cursor, steps).0 <= goal,
    decreases steps.len(),
{
    if steps.len() > 0 && progress_after(goal, cursor, steps[0]) == Progress::Continue {
        lemma_never_past_goal(goal, cursor + steps[0], chunk, steps.drop_first());
    }
}

/// Against a peer that has more to give than was announced and never
/// closes, so that every operation moves at least one byte, the transfer
/// ends complete at exactly `goal` after at most `goal - cursor`
/// operations: it does not wait for bytes beyond the announced length.
pub proof fn lemma_stops_at_goal(goal: nat, cursor: nat, chunk: nat, steps: Seq<nat>)
    requires
        cursor < goal,
        within_limit(goal, cursor, chunk, steps),
        forall|i: int| 0 <= i < steps.len() ==> steps[i] >= 1,
        steps.len() >= goal - cursor,
    ensures
        transfer_run(goal, cursor, steps) == (goal, Progress::Complete),
    decreases steps.len(),
{
    if progress_after(goal, cursor, steps[0]) == Progress::Continue {
        let rest = steps.drop_first();
        assert forall|i: int| 0 <= i < rest.len() implies rest[i] >= 1 by {
            assert(rest[i] == steps[i + 1]);
        }
        lemma_stops_at_goal(goal, cursor + steps[0], chunk, rest);
    }
}

/// The receiving end of a transfer.
#[derive(Clone, Copy, Debug, PartialEq, Eq, Structural)]
pub struct Receiver {
    /// Payload length that the header announced.
    pub expected: u64,
    /// Capacity of the read buffer.
    pub chunk_size: usize,
    /// Bytes received so far.
    pub received: u64,
    /// Standing after the last read.
    pub progress: Progress,
}

impl Receiver {
    /// No more has been received than was announced.
    pub open spec fn wf(&self) -> bool {
        self.received <= self.expected
    }

    /// The most bytes the next read may ask for: what the buffer holds, or
    /// what is still owed if that is less.
    pub open spec fn read_limit(&self) -> nat {
        if self.received + self.chunk_size <= self.expected {
            self.chunk_size as nat
        } else {
            (self.expected - self.received) as nat
        }
    }

    /// A transfer of `expected` bytes of which none has arrived.
    pub fn new(expected: u64, chunk_size: usize) -> (r: Receiver)
        ensures
            r == (Receiver { expected, chunk_size, received: 0, progress: Progress::Continue }),
            r.wf(),
    {
        Receiver { expected, chunk_size, received: 0, progress: Progress::Continue }
    }

    /// The most bytes to ask of the next read. Asking for no more than is
    /// still owed is what keeps the total from passing the announced length.
    pub fn next_read(&self) -> (max: usize)
        requires
            self.wf(),
        ensures
            max == self.read_limit(),
            max <= self.chunk_size,
            self.received + max <= self.expected,
    {
        let owed: u64 = self.expected - self.received;
        if owed >= self.chunk_size as u64 {
            self.chunk_size
        } else {
            owed as usize
        }
    }

    /// Records that a read which was asked for at most the read limit
    /// returned `n` bytes. A read shorter than that is normal; only a read of
    /// nothing, or reaching the announced length, ends the transfer.
    pub fn on_read(&mut self, n: usize) -> (p: Progress)
        requires
            old(self).wf(),
            old(self).progress == Progress::Continue,
            n <= old(self).read_limit(),
        ensures
            final(self).wf(),
            final(self).expected == old(self).expected,
            final(self).chunk_size == old(self).chunk_size,
            final(self).received == old(self).received + n,
            final(self).progress == progress_after(
                old(self).expected as nat,
                old(self).received as nat,
                n as nat,
            ),
            p == final(self).progress,
    {
        self.received = self.received + n as u64;
        self.progress = if self.received == self.expected {
            Progress::Complete
        } else if n == 0 {
            Progress::PeerClosed
        } else {
            Progress::Continue
        };
        self.progress
    }
}

/// The sending end of a transfer.
#[derive(Clone, Copy, Debug, PartialEq, Eq, Structural)]
pub struct Sender {
    /// Length of the payload.
    pub len: usize,
    /// The most bytes offered to one write.
    pub chunk_size: usize,
    /// Bytes written so far: where the next write starts.
    pub pos: usize,
    /// Standing after the last write.
    pub progress: Progress,
}

impl Sender {
    /// The cursor never passes the end of the payload.
    pub open spec fn wf(&self) -> bool {
        self.pos <= self.len
    }

    /// Where the next chunk ends: `chunk_size` bytes on, or at the end of
    /// the payload if that comes first.
    pub open spec fn chunk_end(&self) -> nat {
        if self.pos + self.chunk_size <= self.len {
            (self.pos + self.chunk_size) as nat
        } else {
            self.len as nat
        }
    }

    /// A transfer of `len` bytes of which none has been written.
    pub fn new(len: usize, chunk_size: usize) -> (s: Sender)
        ensures
            s == (Sender { len, chunk_size, pos: 0, progress: Progress::Continue }),
            s.wf(),
    {
        Sender { len, chunk_size, pos: 0, progress: Progress::Continue }
    }

    /// The range of the payload to hand to the next write.
    pub fn next_chunk(&self) -> (range: (usize, usize))
        requires
            self.wf(),
        ensures
            range.0 == self.pos,
            range.1 == self.chunk_end(),
            range.0 <= range.1 <= self.len,
    {
        let left: usize = self.len - self.pos;
        if self.chunk_size <= left {
            (self.pos, self.pos + self.chunk_size)
        } else {
            (self.pos, self.len)
        }
    }

    /// Records that a write took `n` bytes of the chunk offered. A write
    /// that takes only part of the chunk is normal: the next chunk starts
    /// where this write stopped.
    pub fn on_written(&mut self, n: usize) -> (p: Progress)
        requires
            old(self).wf(),
            old(self).progress == Progress::Continue,
            old(self).pos + n <= old(self).chunk_end(),
        ensures
            final(self).wf(),
            final(self).len == old(self).len,
            final(self).chunk_size == old(self).chunk_size,
            final(self).pos == old(self).pos + n,
            final(self).progress == progress_after(
                old(self).len as nat,
                old(self).pos as nat,
                n as nat,
            ),
            p == final(self).progress,
    {
        self.pos = self.pos + n;
        self.progress = if self.pos == self.len {
            Progress::Complete
        } else if n == 0 {
            Progress::PeerClosed
        } else {
            Progress::Continue
        };
        self.progress
    }
}

} // verus!
