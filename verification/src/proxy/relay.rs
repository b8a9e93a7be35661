//! Relay engine accounting. The engine pumps bytes between two duplex
//! streams with one copy loop per direction; each loop counts what it
//! moved. The counting and the end-of-relay policy are verified here; the
//! socket loops that feed them belong to the caller. The engine's
//! documented policy on a mid-stream error is to discard both counters and
//! report zero bytes for both directions, rather than partial counts.

use vstd::prelude::*;

verus! {

/// Total byte length of a sequence of read chunks.
pub open spec fn spec_sum_lens(chunks: Seq<Seq<u8>>) -> int
    decreases chunks.len(),
{
    if chunks.len() == 0 {
        0
    } else {
        chunks[0].len() + spec_sum_lens(chunks.skip(1))
    }
}

pub proof fn lemma_sum_lens_nonneg(chunks: Seq<Seq<u8>>)
    ensures
        spec_sum_lens(chunks) >= 0,
    decreases chunks.len(),
{
    if chunks.len() > 0 {
        lemma_sum_lens_nonneg(chunks.skip(1));
    }
}

/// Summing the first `i + 1` chunks adds the length of chunk `i` to the
/// sum of the first `i`.
pub proof fn lemma_sum_lens_snoc(chunks: Seq<Seq<u8>>, i: int)
    requires
        0 <= i < chunks.len(),
    ensures
        spec_sum_lens(chunks.take(i + 1)) == spec_sum_lens(chunks.take(i)) + chunks[i].len(),
    decreases i,
{
    if i == 0 {
        assert(chunks.take(1) =~= seq![chunks[0]]);
        assert(chunks.take(1).skip(1) =~= Seq::<Seq<u8>>::empty());
        assert(chunks.take(0) =~= Seq::<Seq<u8>>::empty());
    } else {
        lemma_sum_lens_snoc(chunks.skip(1), i - 1);
        assert(chunks.take(i + 1).skip(1) =~= chunks.skip(1).take(i));
        assert(chunks.take(i).skip(1) =~= chunks.skip(1).take(i - 1));
        assert(chunks.skip(1)[i - 1] == chunks[i]);
    }
}

/// The sum splits at any point.
pub proof fn lemma_sum_lens_split(chunks: Seq<Seq<u8>>, i: int)
    requires
        0 <= i <= chunks.len(),
    ensures
        spec_sum_lens(chunks) == spec_sum_lens(chunks.take(i)) + spec_sum_lens(chunks.skip(i)),
    decreases i,
{
    if i == 0 {
        assert(chunks.take(0) =~= Seq::<Seq<u8>>::empty());
        assert(chunks.skip(0) =~= chunks);
    } else {
        lemma_sum_lens_split(chunks, i - 1);
        lemma_sum_lens_snoc(chunks, i - 1);
        assert(chunks.skip(i - 1).skip(1) =~= chunks.skip(i));
        assert(chunks.skip(i - 1)[0] == chunks[i - 1]);
    }
}

/// One direction's copy loop counter: monotonically non-decreasing while
/// the session lives, incremented once per read/write cycle by the number
/// of bytes moved.
pub struct CopyLoop {
    total: u64,
}

impl CopyLoop {
    pub closed spec fn spec_total(&self) -> u64 {
        self.total
    }

    /// A fresh direction that has moved nothing.
    pub fn new() -> (r: CopyLoop)
        ensures
            r.spec_total() == 0,
    {
        CopyLoop { total: 0 }
    }

    /// Account one read/write cycle that moved `n` bytes. The counter
    /// never decreases.
    pub fn on_chunk(&mut self, n: usize)
        requires
            old(self).spec_total() + n <= u64::MAX,
        ensures
            final(self).spec_total() == old(self).spec_total() + n,
    {
        self.total = self.total + n as u64;
    }

    /// The bytes moved so far.
    pub fn total(&self) -> (r: u64)
        ensures
            r == self.spec_total(),
    {
        self.total
    }
}

/// Run one direction's copy loop over an in-memory source that yields
/// these chunks and then end-of-stream: the counter ends at exactly the
/// total length fed in.
pub fn run_copy_loop(chunks: &Vec<Vec<u8>>) -> (r: u64)
    requires
        spec_sum_lens(chunks.deep_view()) <= u64::MAX,
    ensures
        r == spec_sum_lens(chunks.deep_view()),
{
    let ghost all = chunks.deep_view();
    let mut counter = CopyLoop::new();
    let mut i: usize = 0;
    proof {
        assert(all.take(0) =~= Seq::<Seq<u8>>::empty());
    }
    while i < chunks.len()
        invariant
            i <= chunks.len(),
            all == chunks.deep_view(),
            spec_sum_lens(all) <= u64::MAX,
            counter.spec_total() == spec_sum_lens(all.take(i as int)),
        decreases chunks.len() - i,
    {
        let chunk: &Vec<u8> = &chunks[i];
        let n = chunk.len();
        proof {
            lemma_sum_lens_snoc(all, i as int);
            lemma_sum_lens_split(all, i + 1);
            lemma_sum_lens_nonneg(all.skip(i + 1));
            assert(chunk@ == all[i as int]);
        }
        counter.on_chunk(n);
        i = i + 1;
    }
    proof {
        assert(all.take(chunks.len() as int) =~= all);
    }
    counter.total()
}

/// What one read of the source stream produced.
pub enum ReadEvent {
    /// This many bytes arrived and are to be written through.
    Data(usize),
    /// The peer closed its write side cleanly.
    Eof,
    /// The read failed.
    Failed,
}

/// What the copy loop must do next.
#[derive(Debug, PartialEq, Eq, Structural)]
pub enum RelayAction {
    /// Write the bytes just read to the other stream, then read again.
    WriteThrough(usize),
    /// Half-close the other stream's write side; this direction is done
    /// cleanly with this many bytes moved.
    HalfCloseAndFinish(u64),
    /// Stop; the relay reports this direction as failed.
    FinishFailed,
}

impl CopyLoop {
    /// Decide one step of the copy loop from what a read produced: data
    /// is counted and written through, a clean end-of-stream half-closes
    /// the other side and finishes with the total, and a failed read —
    /// or a total beyond the counter's width — finishes the direction as
    /// failed.
    pub fn on_read(&mut self, event: ReadEvent) -> (r: RelayAction)
        ensures
            match event {
                ReadEvent::Data(n) => if old(self).spec_total() + n <= u64::MAX {
                    r == RelayAction::WriteThrough(n) && final(self).spec_total() == old(
                        self,
                    ).spec_total() + n
                } else {
                    r == RelayAction::FinishFailed && final(self).spec_total() == old(
                        self,
                    ).spec_total()
                },
                ReadEvent::Eof => r == RelayAction::HalfCloseAndFinish(old(self).spec_total())
                    && final(self).spec_total() == old(self).spec_total(),
                ReadEvent::Failed => r == RelayAction::FinishFailed && final(self).spec_total()
                    == old(self).spec_total(),
            },
    {
        match event {
            ReadEvent::Data(n) => {
                if n as u64 <= u64::MAX - self.total {
                    self.total = self.total + n as u64;
                    RelayAction::WriteThrough(n)
                } else {
                    RelayAction::FinishFailed
                }
            },
            ReadEvent::Eof => RelayAction::HalfCloseAndFinish(self.total),
            ReadEvent::Failed => RelayAction::FinishFailed,
        }
    }
}

/// How one direction's copy loop ended.
pub enum DirectionEnd {
    /// The peer closed cleanly; the other stream's write side was
    /// half-closed and this many bytes had been moved.
    CleanEof(u64),
    /// An I/O error ended the loop.
    Failed,
}

/// The relay's documented completion policy: when both copy loops ended at
/// a clean end-of-stream the per-direction counters are reported; when
/// either direction failed, both counters are discarded and the relay
/// reports zero bytes each way.
pub fn combine_directions(a_to_b: DirectionEnd, b_to_a: DirectionEnd) -> (r: (u64, u64))
    ensures
        (a_to_b is CleanEof && b_to_a is CleanEof) ==> r == (
            a_to_b->CleanEof_0,
            b_to_a->CleanEof_0,
        ),
        (a_to_b is Failed || b_to_a is Failed) ==> r == (0u64, 0u64),
{
    match (a_to_b, b_to_a) {
        (DirectionEnd::CleanEof(n), DirectionEnd::CleanEof(m)) => (n, m),
        _ => (0, 0),
    }
}

/// The relay engine over connected in-memory duplex endpoints: feeding the
/// chunks of `a_input` through one direction and `b_input` through the
/// other, with both sides closing cleanly, yields exactly the two totals —
/// and does so in bounded time, one loop iteration per chunk.
pub fn relay_in_memory(a_input: &Vec<Vec<u8>>, b_input: &Vec<Vec<u8>>) -> (r: (u64, u64))
    requires
        spec_sum_lens(a_input.deep_view()) <= u64::MAX,
        spec_sum_lens(b_input.deep_view()) <= u64::MAX,
    ensures
        r.0 == spec_sum_lens(a_input.deep_view()),
        r.1 == spec_sum_lens(b_input.deep_view()),
{
    let sent = run_copy_loop(a_input);
    let received = run_copy_loop(b_input);
    combine_directions(DirectionEnd::CleanEof(sent), DirectionEnd::CleanEof(received))
}

} // verus!
