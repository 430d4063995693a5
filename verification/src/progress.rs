//! The running total of one download.

use vstd::prelude::*;

verus! {

/// How many bytes of an update package have arrived. One value serves one
/// update session: it starts at zero and only grows.
#[derive(Clone, Copy, Debug, PartialEq, Eq)]
pub struct DownloadProgress {
    downloaded: usize,
}

impl View for DownloadProgress {
    type V = nat;

    closed spec fn view(&self) -> nat {
        self.downloaded as nat
    }
}

impl DownloadProgress {
    /// The progress of a download of which nothing has arrived.
    pub fn new() -> (progress: DownloadProgress)
        ensures
            progress@ == 0,
    {
        DownloadProgress { downloaded: 0 }
    }

    /// The bytes that have arrived so far.
    pub fn downloaded(&self) -> (total: usize)
        ensures
            total == self@,
    {
        self.downloaded
    }

    /// Whether a chunk of `chunk_length` bytes can be added without the total
    /// leaving the range of `usize`.
    pub fn has_room_for(&self, chunk_length: usize) -> (r: bool)
        ensures
            r == (self@ + chunk_length <= usize::MAX),
    {
        chunk_length <= usize::MAX - self.downloaded
    }

    /// Adds a chunk that has arrived, and returns the new total.
    pub fn record(&mut self, chunk_length: usize) -> (total: usize)
        requires
            old(self)@ + chunk_length <= usize::MAX,
        ensures
            final(self)@ == old(self)@ + chunk_length,
            total == final(self)@,
    {
        self.downloaded = self.downloaded + chunk_length;
        self.downloaded
    }
}

/// The sum of the lengths in `chunks`.
pub open spec fn total_length(chunks: Seq<nat>) -> nat
    decreases chunks.len(),
{
    if chunks.len() == 0 {
        0
    } else {
        chunks.first() + total_length(chunks.drop_first())
    }
}

/// The totals that are reported while `chunks` arrive one after the other,
/// when `start` bytes had arrived before them: one total after each chunk.
pub open spec fn running_totals(start: nat, chunks: Seq<nat>) -> Seq<nat>
    decreases chunks.len(),
{
    if chunks.len() == 0 {
        Seq::empty()
    } else {
        seq![start + chunks.first()] + running_totals(start + chunks.first(), chunks.drop_first())
    }
}

/// One total is reported for each chunk; the totals never decrease and none
/// is below the start; and the last of them is the start plus the length of
/// all chunks. So a download of `n` bytes that starts at zero ends with the
/// report `n`, however it was split.
pub proof fn lemma_running_totals(start: nat, chunks: Seq<nat>)
    ensures
        running_totals(start, chunks).len() == chunks.len(),
        forall|i: int|
            0 <= i < chunks.len() ==> start <= #[trigger] running_totals(start, chunks)[i],
        forall|i: int, j: int|
            0 <= i <= j < chunks.len() ==> running_totals(start, chunks)[i] <= running_totals(
                start,
                chunks,
            )[j],
        chunks.len() > 0 ==> running_totals(start, chunks).last() == start + total_length(chunks),
    decreases chunks.len(),
{
    if chunks.len() > 0 {
        let first = start + chunks.first();
        let rest = running_totals(first, chunks.drop_first());
        lemma_running_totals(first, chunks.drop_first());
        let all = running_totals(start, chunks);
        assert(all == seq![first] + rest);
        assert(all[0] == first);
        assert forall|i: int| 1 <= i < chunks.len() implies all[i] == rest[i - 1] by {}
        assert forall|i: int, j: int| 0 <= i <= j < chunks.len() implies all[i] <= all[j] by {
            if i > 0 {
                assert(all[i] == rest[i - 1]);
                assert(all[j] == rest[j - 1]);
            } else if j > 0 {
                assert(all[j] == rest[j - 1]);
            }
        }
        if chunks.len() > 1 {
            assert(all.last() == rest.last());
        } else {
            assert(chunks.drop_first().len() == 0);
            assert(total_length(chunks.drop_first()) == 0);
        }
    }
}

/// Each report is the one before it plus the chunk that arrived.
pub proof fn lemma_running_totals_step(start: nat, chunks: Seq<nat>, i: int)
    requires
        0 <= i < chunks.len(),
    ensures
        running_totals(start, chunks).len() == chunks.len(),
        running_totals(start, chunks)[i] == chunks[i] + if i == 0 {
            start
        } else {
            running_totals(start, chunks)[i - 1]
        },
    decreases chunks.len(),
{
    lemma_running_totals(start, chunks);
    let first = start + chunks.first();
    let rest = running_totals(first, chunks.drop_first());
    let all = running_totals(start, chunks);
    assert(all == seq![first] + rest);
    if i > 0 {
        lemma_running_totals(first, chunks.drop_first());
        lemma_running_totals_step(first, chunks.drop_first(), i - 1);
        assert(all[i] == rest[i - 1]);
        if i > 1 {
            assert(all[i - 1] == rest[i - 2]);
        }
    }
}

} // verus!
