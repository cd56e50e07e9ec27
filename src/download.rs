use vstd::prelude::*;

use crate::error::LaunchError;

verus! {

/// One progress notification: the bytes written so far and the announced
/// total size, if the server gave one.
#[derive(Clone, Copy, Debug, PartialEq, Eq, Structural)]
pub struct ProgressEvent {
    pub downloaded: u64,
    pub total: Option<u64>,
}

/// The number of bytes in a sequence of chunks of the given lengths.
pub open spec fn total_len(chunks: Seq<nat>) -> nat
    decreases chunks.len(),
{
    if chunks.len() == 0 {
        0
    } else {
        total_len(chunks.drop_last()) + chunks.last()
    }
}

/// The bookkeeping of one download in progress: bytes written, the announced
/// total, and (as ghost state) the chunks written and the progress reported.
pub struct DownloadSession {
    downloaded: u64,
    total: Option<u64>,
    chunks: Ghost<Seq<nat>>,
    reported: Ghost<Seq<u64>>,
}

impl DownloadSession {
    /// The number of bytes written to the destination so far.
    pub closed spec fn downloaded_so_far(&self) -> nat {
        self.downloaded as nat
    }

    /// The total size the server announced, if any.
    pub closed spec fn total_size(&self) -> Option<u64> {
        self.total
    }

    /// The lengths of the chunks written so far, in order.
    pub closed spec fn chunks(&self) -> Seq<nat> {
        self.chunks@
    }

    /// The `downloaded` values of the progress events emitted so far, in order.
    pub closed spec fn reported(&self) -> Seq<u64> {
        self.reported@
    }

    /// The count matches the chunks written, and each report gave the bytes
    /// written up to and including its chunk.
    pub closed spec fn wf(&self) -> bool {
        &&& self.downloaded as nat == total_len(self.chunks@)
        &&& self.reported@.len() == self.chunks@.len()
        &&& forall|i: int|
            0 <= i < self.reported@.len() ==> #[trigger] self.reported@[i] as nat == total_len(
                self.chunks@.take(i + 1),
            )
    }

    /// The number of bytes written to the destination so far.
    pub fn downloaded(&self) -> (r: u64)
        ensures
            r as nat == self.downloaded_so_far(),
    {
        self.downloaded
    }

    /// The total size the server announced, if any.
    pub fn total(&self) -> (r: Option<u64>)
        ensures
            r == self.total_size(),
    {
        self.total
    }

    /// Whether a chunk of `len` bytes can still be counted without overflow.
    pub fn can_accept(&self, len: usize) -> (r: bool)
        ensures
            r <==> self.downloaded_so_far() + len <= u64::MAX,
    {
        len as u64 <= u64::MAX - self.downloaded
    }

    /// Counts a chunk that was just written to the destination and returns
    /// the progress event to emit for it.
    pub fn record_chunk(&mut self, len: usize) -> (e: ProgressEvent)
        requires
            old(self).wf(),
            old(self).downloaded_so_far() + len <= u64::MAX,
        ensures
            final(self).wf(),
            final(self).downloaded_so_far() == old(self).downloaded_so_far() + len,
            final(self).total_size() == old(self).total_size(),
            final(self).chunks() == old(self).chunks().push(len as nat),
            final(self).reported() == old(self).reported().push(e.downloaded),
            e.downloaded as nat == final(self).downloaded_so_far(),
            e.total == old(self).total_size(),
    {
        let ghost old_chunks = self.chunks@;
        let ghost old_reported = self.reported@;
        self.downloaded = self.downloaded + len as u64;
        let e = ProgressEvent { downloaded: self.downloaded, total: self.total };
        self.chunks = Ghost(old_chunks.push(len as nat));
        self.reported = Ghost(old_reported.push(e.downloaded));
        proof {
            let c = self.chunks@;
            assert(c.drop_last() =~= old_chunks);
            assert forall|i: int| 0 <= i < self.reported@.len() implies #[trigger] self.reported@[i]
                as nat == total_len(c.take(i + 1)) by {
                if i < old_reported.len() {
                    assert(c.take(i + 1) =~= old_chunks.take(i + 1));
                } else {
                    assert(c.take(i + 1) =~= c);
                }
            }
        }
        e
    }

    /// Ends the transfer and returns the number of bytes written.
    pub fn finish(self) -> (r: u64)
        requires
            self.wf(),
        ensures
            r as nat == total_len(self.chunks()),
    {
        self.downloaded
    }
}

/// Starts the bookkeeping of a download once the server has answered: a
/// non-success status fails before any file is created.
pub fn begin_download(status_success: bool, status_text: String, content_length: Option<u64>) -> (r:
    Result<DownloadSession, LaunchError>)
    ensures
        status_success <==> r is Ok,
        !status_success ==> r == Err::<DownloadSession, LaunchError>(
            LaunchError::DownloadStatus(status_text),
        ),
        r is Ok ==> {
            &&& r->Ok_0.wf()
            &&& r->Ok_0.downloaded_so_far() == 0
            &&& r->Ok_0.total_size() == content_length
            &&& r->Ok_0.chunks() == Seq::<nat>::empty()
            &&& r->Ok_0.reported() == Seq::<u64>::empty()
        },
{
    if !status_success {
        return Err(LaunchError::DownloadStatus(status_text));
    }
    Ok(
        DownloadSession {
            downloaded: 0,
            total: content_length,
            chunks: Ghost(Seq::empty()),
            reported: Ghost(Seq::empty()),
        },
    )
}

proof fn lemma_total_len_prefix_monotone(c: Seq<nat>, a: int, b: int)
    requires
        0 <= a <= b <= c.len(),
    ensures
        total_len(c.take(a)) <= total_len(c.take(b)),
    decreases b - a,
{
    if a < b {
        assert(c.take(b).drop_last() =~= c.take(b - 1));
        lemma_total_len_prefix_monotone(c, a, b - 1);
    }
}

/// Over a download, the reported byte counts never decrease, and the last one
/// equals the number of bytes written to the destination.
pub proof fn lemma_progress_monotone_and_complete(s: &DownloadSession)
    requires
        s.wf(),
    ensures
        forall|i: int, j: int|
            0 <= i <= j < s.reported().len() ==> s.reported()[i] <= s.reported()[j],
        s.reported().len() > 0 ==> s.reported().last() as nat == total_len(s.chunks()),
        s.downloaded_so_far() == total_len(s.chunks()),
{
    let c = s.chunks@;
    assert forall|i: int, j: int|
        0 <= i <= j < s.reported().len() implies s.reported()[i] <= s.reported()[j] by {
        assert(s.reported@[i] as nat == total_len(c.take(i + 1)));
        assert(s.reported@[j] as nat == total_len(c.take(j + 1)));
        lemma_total_len_prefix_monotone(c, i + 1, j + 1);
    }
    if s.reported@.len() > 0 {
        let k = s.reported@.len() - 1;
        assert(s.reported@[k] as nat == total_len(c.take(k + 1)));
        assert(c.take(k + 1) =~= c);
    }
}

} // verus!
