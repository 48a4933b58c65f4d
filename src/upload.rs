//! Progress of a streamed upload.
//!
//! The file goes out in chunks. After each chunk is queued, the progress
//! callback gets the total size and the number of bytes queued so far.
use vstd::prelude::*;

verus! {

/// How far an upload has come.
pub struct ProgressView {
    pub total: u64,
    pub uploaded: u64,
}

/// Counts the bytes of an upload as its chunks are queued.
#[derive(Debug)]
pub struct UploadProgress {
    total: u64,
    uploaded: u64,
}

impl View for UploadProgress {
    type V = ProgressView;

    closed spec fn view(&self) -> ProgressView {
        ProgressView { total: self.total, uploaded: self.uploaded }
    }
}

/// The count after a chunk of `len` bytes, where `uploaded` were counted before.
pub open spec fn after_chunk(uploaded: u64, len: u64) -> u64 {
    if uploaded + len > u64::MAX {
        u64::MAX
    } else {
        (uploaded + len) as u64
    }
}

/// The arguments of the progress callback, one pair per chunk, for chunks of
/// the lengths `chunks` queued after `uploaded` bytes.
pub open spec fn progress_reports(total: u64, uploaded: u64, chunks: Seq<u64>) -> Seq<(u64, u64)>
    decreases chunks.len(),
{
    if chunks.len() == 0 {
        seq![]
    } else {
        let next = after_chunk(uploaded, chunks[0]);
        seq![(total, next)] + progress_reports(total, next, chunks.drop_first())
    }
}

/// The sum of the chunk lengths.
pub open spec fn total_length(chunks: Seq<u64>) -> int
    decreases chunks.len(),
{
    if chunks.len() == 0 {
        0
    } else {
        chunks[0] + total_length(chunks.drop_first())
    }
}

impl UploadProgress {
    /// Starts counting an upload of `total` bytes
    pub fn new(total: u64) -> (r: UploadProgress)
        ensures
            r@ == (ProgressView { total, uploaded: 0 }),
    {
        UploadProgress { total, uploaded: 0 }
    }

    /// Counts a queued chunk of `len` bytes and gives the arguments of the
    /// progress callback: the total and the bytes queued so far
    pub fn advance(&mut self, len: u64) -> (r: (u64, u64))
        ensures
            final(self)@.total == old(self)@.total,
            final(self)@.uploaded == after_chunk(old(self)@.uploaded, len),
            r == (final(self)@.total, final(self)@.uploaded),
    {
        self.uploaded = self.uploaded.saturating_add(len);
        (self.total, self.uploaded)
    }

    /// The number of bytes the upload carries
    pub fn total(&self) -> (r: u64)
        ensures
            r == self@.total,
    {
        self.total
    }

    /// The number of bytes queued so far
    pub fn uploaded(&self) -> (r: u64)
        ensures
            r == self@.uploaded,
    {
        self.uploaded
    }
}

/// Whether every chunk holds at least one byte.
pub open spec fn all_nonempty(chunks: Seq<u64>) -> bool {
    forall|k: int| 0 <= k < chunks.len() ==> #[trigger] chunks[k] > 0
}

/// Progress reported from `uploaded` on, for chunks that fit: one report per
/// chunk, each with the total first and with `uploaded` plus the chunks so
/// far as its count. The counts never decrease, and the last one is
/// `uploaded` plus all chunks. Where no chunk is empty the counts rise with
/// every report.
pub proof fn lemma_progress_from(total: u64, uploaded: u64, chunks: Seq<u64>)
    requires
        uploaded + total_length(chunks) <= u64::MAX,
    ensures
        progress_reports(total, uploaded, chunks).len() == chunks.len(),
        forall|i: int|
            0 <= i < chunks.len() ==> (#[trigger] progress_reports(total, uploaded, chunks)[i]).0
                == total,
        forall|i: int|
            0 <= i < chunks.len() ==> (#[trigger] progress_reports(total, uploaded, chunks)[i]).1
                >= uploaded,
        forall|i: int, j: int|
            0 <= i <= j < chunks.len() ==> (#[trigger] progress_reports(total, uploaded, chunks)[i]).1
                <= (#[trigger] progress_reports(total, uploaded, chunks)[j]).1,
        forall|i: int|
            0 <= i < chunks.len() ==> (#[trigger] progress_reports(total, uploaded, chunks)[i]).1
                == uploaded + total_length(chunks.subrange(0, i + 1)),
        chunks.len() > 0 ==> progress_reports(total, uploaded, chunks)[chunks.len() - 1].1
            == uploaded + total_length(chunks),
        all_nonempty(chunks) ==> forall|i: int|
            0 <= i < chunks.len() ==> (#[trigger] progress_reports(total, uploaded, chunks)[i]).1
                > uploaded,
        all_nonempty(chunks) ==> forall|i: int, j: int|
            0 <= i < j < chunks.len() ==> (#[trigger] progress_reports(total, uploaded, chunks)[i]).1
                < (#[trigger] progress_reports(total, uploaded, chunks)[j]).1,
    decreases chunks.len(),
{
    if chunks.len() > 0 {
        let rest = chunks.drop_first();
        let next = after_chunk(uploaded, chunks[0]);
        lemma_total_length_nonnegative(rest);
        assert(next == uploaded + chunks[0]);
        lemma_progress_from(total, next, rest);
        let reports = progress_reports(total, uploaded, chunks);
        let tail = progress_reports(total, next, rest);
        assert(reports == seq![(total, next)] + tail);
        assert forall|i: int| 0 < i < chunks.len() implies reports[i] == tail[i - 1] by {}
        assert forall|i: int, j: int| 0 <= i <= j < chunks.len() implies reports[i].1
            <= reports[j].1 by {
            if i > 0 {
                assert(tail[i - 1].1 <= tail[j - 1].1);
            } else if j > 0 {
                assert(tail[j - 1].1 >= next);
            }
        }
        assert forall|i: int| 0 <= i < chunks.len() implies reports[i].1 == uploaded
            + total_length(chunks.subrange(0, i + 1)) by {
            let prefix = chunks.subrange(0, i + 1);
            assert(prefix.drop_first() =~= rest.subrange(0, i));
            assert(prefix[0] == chunks[0]);
            assert(total_length(prefix) == chunks[0] + total_length(rest.subrange(0, i)));
            if i == 0 {
                assert(rest.subrange(0, 0) =~= Seq::<u64>::empty());
                assert(total_length(rest.subrange(0, 0)) == 0);
                assert(reports[0] == (total, next));
            } else {
                assert(reports[i] == tail[i - 1]);
                assert(tail[i - 1].1 == next + total_length(rest.subrange(0, (i - 1) + 1)));
            }
        }
        if all_nonempty(chunks) {
            assert(all_nonempty(rest)) by {
                assert forall|k: int| 0 <= k < rest.len() implies #[trigger] rest[k] > 0 by {
                    assert(rest[k] == chunks[k + 1]);
                }
            }
            assert(chunks[0] > 0);
            assert forall|i: int, j: int| 0 <= i < j < chunks.len() implies reports[i].1
                < reports[j].1 by {
                if i > 0 {
                    assert(tail[i - 1].1 < tail[j - 1].1);
                } else {
                    assert(tail[j - 1].1 > next);
                }
            }
        }
        if chunks.len() > 1 {
            assert(reports[chunks.len() - 1] == tail[rest.len() - 1]);
        }
        assert(chunks.subrange(0, chunks.len() as int) =~= chunks);
    }
}

/// The sum of chunk lengths is never negative.
pub proof fn lemma_total_length_nonnegative(chunks: Seq<u64>)
    ensures
        total_length(chunks) >= 0,
    decreases chunks.len(),
{
    if chunks.len() > 0 {
        lemma_total_length_nonnegative(chunks.drop_first());
    }
}

/// For a file of `total` bytes queued in chunks whose lengths add up to
/// `total`, the progress callback is called once per chunk, always with
/// `total` first, with the bytes queued so far as its count, which never
/// decreases, and a last count of `total`. Where no chunk is empty, the
/// counts rise with every call and reach `total` only on the last one.
pub proof fn lemma_upload_progress(total: u64, chunks: Seq<u64>)
    requires
        total_length(chunks) == total,
    ensures
        progress_reports(total, 0, chunks).len() == chunks.len(),
        forall|i: int|
            0 <= i < chunks.len() ==> (#[trigger] progress_reports(total, 0, chunks)[i]).0 == total,
        forall|i: int, j: int|
            0 <= i <= j < chunks.len() ==> (#[trigger] progress_reports(total, 0, chunks)[i]).1
                <= (#[trigger] progress_reports(total, 0, chunks)[j]).1,
        forall|i: int|
            0 <= i < chunks.len() ==> (#[trigger] progress_reports(total, 0, chunks)[i]).1
                == total_length(chunks.subrange(0, i + 1)),
        chunks.len() > 0 ==> progress_reports(total, 0, chunks)[chunks.len() - 1].1 == total,
        all_nonempty(chunks) ==> forall|i: int, j: int|
            0 <= i < j < chunks.len() ==> (#[trigger] progress_reports(total, 0, chunks)[i]).1
                < (#[trigger] progress_reports(total, 0, chunks)[j]).1,
        all_nonempty(chunks) ==> forall|i: int|
            0 <= i < chunks.len() - 1 ==> (#[trigger] progress_reports(total, 0, chunks)[i]).1
                < total,
{
    lemma_progress_from(total, 0, chunks);
    let reports = progress_reports(total, 0, chunks);
    if all_nonempty(chunks) {
        assert forall|i: int| 0 <= i < chunks.len() - 1 implies (#[trigger] reports[i]).1 < total by {
            assert(reports[i].1 < reports[chunks.len() - 1].1);
        }
    }
}

} // verus!
