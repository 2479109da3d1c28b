//! The decisions of a download to a local file, as a state machine. The
//! caller performs each action (create the file, fetch, read a chunk, write
//! it, remove the file) and feeds back what happened; the machine says what
//! to do next and, at the end, how the download went.
//!
//! The file is created before any network request. After it exists, every
//! failure removes it before the download is reported as failed; where the
//! removal itself fails, the outcome is `Cleanup`. Success is reported only
//! after the whole body was read and written.
use crate::error::DownloadError;
use vstd::prelude::*;

verus! {

/// Where a download stands; each state asks for one action.
#[derive(Clone, Copy, Debug)]
pub enum DownloadState {
    /// The destination file is to be created.
    CreatingFile,
    /// The file exists; the response is to be requested.
    Fetching,
    /// The next chunk of the body is to be read.
    Streaming,
    /// The chunk just read is to be written to the file.
    Writing,
    /// The partial file is to be removed; then the download fails with the error.
    Removing(DownloadError),
    /// The download is over, with this outcome.
    Finished(Result<(), DownloadError>),
}

/// What happened when the caller performed the last action.
#[derive(Clone, Copy, Debug)]
pub enum DownloadEvent {
    FileCreated,
    FileCreateFailed,
    ResponseReady,
    FetchFailed,
    ChunkArrived,
    ChunkFailed,
    StreamEnded,
    ChunkWritten,
    WriteFailed,
    FileRemoved,
    RemoveFailed,
}

/// What the caller is to do next.
#[derive(Clone, Copy, Debug)]
pub enum DownloadAction {
    CreateFile,
    Fetch,
    ReadChunk,
    WriteChunk,
    RemoveFile,
    Finish(Result<(), DownloadError>),
}

/// The action that a state asks for.
pub open spec fn action_of(s: DownloadState) -> DownloadAction {
    match s {
        DownloadState::CreatingFile => DownloadAction::CreateFile,
        DownloadState::Fetching => DownloadAction::Fetch,
        DownloadState::Streaming => DownloadAction::ReadChunk,
        DownloadState::Writing => DownloadAction::WriteChunk,
        DownloadState::Removing(_) => DownloadAction::RemoveFile,
        DownloadState::Finished(r) => DownloadAction::Finish(r),
    }
}

/// The state after event `e` in state `s`. An event that does not answer the
/// action of `s` leaves `s` as it is.
pub open spec fn next_state(s: DownloadState, e: DownloadEvent) -> DownloadState {
    match (s, e) {
        (DownloadState::CreatingFile, DownloadEvent::FileCreated) => DownloadState::Fetching,
        (DownloadState::CreatingFile, DownloadEvent::FileCreateFailed) => DownloadState::Finished(
            Err(DownloadError::FileCreate),
        ),
        (DownloadState::Fetching, DownloadEvent::ResponseReady) => DownloadState::Streaming,
        (DownloadState::Fetching, DownloadEvent::FetchFailed) => DownloadState::Removing(
            DownloadError::Fetch,
        ),
        (DownloadState::Streaming, DownloadEvent::ChunkArrived) => DownloadState::Writing,
        (DownloadState::Streaming, DownloadEvent::ChunkFailed) => DownloadState::Removing(
            DownloadError::Stream,
        ),
        (DownloadState::Streaming, DownloadEvent::StreamEnded) => DownloadState::Finished(Ok(())),
        (DownloadState::Writing, DownloadEvent::ChunkWritten) => DownloadState::Streaming,
        (DownloadState::Writing, DownloadEvent::WriteFailed) => DownloadState::Removing(
            DownloadError::Write,
        ),
        (DownloadState::Removing(err), DownloadEvent::FileRemoved) => DownloadState::Finished(
            Err(err),
        ),
        (DownloadState::Removing(_), DownloadEvent::RemoveFailed) => DownloadState::Finished(
            Err(DownloadError::Cleanup),
        ),
        _ => s,
    }
}

/// Whether the destination file exists in state `s`.
pub open spec fn file_present(s: DownloadState) -> bool {
    match s {
        DownloadState::CreatingFile => false,
        DownloadState::Finished(Ok(())) => true,
        DownloadState::Finished(Err(DownloadError::Cleanup)) => true,
        DownloadState::Finished(Err(_)) => false,
        _ => true,
    }
}

/// The state reached from the start after the events `evs`, in order.
pub open spec fn run(evs: Seq<DownloadEvent>) -> DownloadState
    decreases evs.len(),
{
    if evs.len() == 0 {
        DownloadState::CreatingFile
    } else {
        next_state(run(evs.drop_last()), evs.last())
    }
}

/// The states that may follow a failed read of the body: the removal of the
/// partial file, the failure reported once it is gone, or `Cleanup` where it
/// could not be removed.
pub open spec fn after_stream_failure(s: DownloadState) -> bool {
    match s {
        DownloadState::Removing(DownloadError::Stream) => true,
        DownloadState::Finished(Err(DownloadError::Stream)) => true,
        DownloadState::Finished(Err(DownloadError::Cleanup)) => true,
        _ => false,
    }
}

impl DownloadState {
    /// The state of a download that has not begun.
    pub fn new() -> (r: DownloadState)
        ensures
            r == run(Seq::empty()),
    {
        DownloadState::CreatingFile
    }

    /// The action this state asks for.
    pub fn action(&self) -> (r: DownloadAction)
        ensures
            r == action_of(*self),
    {
        match self {
            DownloadState::CreatingFile => DownloadAction::CreateFile,
            DownloadState::Fetching => DownloadAction::Fetch,
            DownloadState::Streaming => DownloadAction::ReadChunk,
            DownloadState::Writing => DownloadAction::WriteChunk,
            DownloadState::Removing(_) => DownloadAction::RemoveFile,
            DownloadState::Finished(r) => DownloadAction::Finish(*r),
        }
    }

    /// The state after `event`.
    pub fn step(self, event: DownloadEvent) -> (r: DownloadState)
        ensures
            r == next_state(self, event),
    {
        match (self, event) {
            (DownloadState::CreatingFile, DownloadEvent::FileCreated) => DownloadState::Fetching,
            (DownloadState::CreatingFile, DownloadEvent::FileCreateFailed) => {
                DownloadState::Finished(Err(DownloadError::FileCreate))
            },
            (DownloadState::Fetching, DownloadEvent::ResponseReady) => DownloadState::Streaming,
            (DownloadState::Fetching, DownloadEvent::FetchFailed) => {
                DownloadState::Removing(DownloadError::Fetch)
            },
            (DownloadState::Streaming, DownloadEvent::ChunkArrived) => DownloadState::Writing,
            (DownloadState::Streaming, DownloadEvent::ChunkFailed) => {
                DownloadState::Removing(DownloadError::Stream)
            },
            (DownloadState::Streaming, DownloadEvent::StreamEnded) => {
                DownloadState::Finished(Ok(()))
            },
            (DownloadState::Writing, DownloadEvent::ChunkWritten) => DownloadState::Streaming,
            (DownloadState::Writing, DownloadEvent::WriteFailed) => {
                DownloadState::Removing(DownloadError::Write)
            },
            (DownloadState::Removing(err), DownloadEvent::FileRemoved) => {
                DownloadState::Finished(Err(err))
            },
            (DownloadState::Removing(_), DownloadEvent::RemoveFailed) => {
                DownloadState::Finished(Err(DownloadError::Cleanup))
            },
            (s, _) => s,
        }
    }
}

proof fn lemma_after_stream_failure_closed(s: DownloadState, e: DownloadEvent)
    requires
        after_stream_failure(s),
    ensures
        after_stream_failure(next_state(s, e)),
{
}

proof fn lemma_stays_after_stream_failure(evs: Seq<DownloadEvent>, i: int, j: int)
    requires
        0 <= i < j <= evs.len(),
        after_stream_failure(run(evs.take(i + 1))),
    ensures
        after_stream_failure(run(evs.take(j))),
    decreases j - i,
{
    if j > i + 1 {
        lemma_stays_after_stream_failure(evs, i, j - 1);
        assert(evs.take(j).drop_last() =~= evs.take(j - 1));
        lemma_after_stream_failure_closed(run(evs.take(j - 1)), evs[j - 1]);
    }
}

/// A download whose body fails to read part way never reports success and
/// never leaves the partial file behind silently: from that event on, the
/// machine only removes the file, then fails with `Stream` once the file is
/// gone, or with `Cleanup` where it could not be removed.
pub proof fn lemma_failed_stream_leaves_no_file(evs: Seq<DownloadEvent>, i: int)
    requires
        0 <= i < evs.len(),
        run(evs.take(i)) == DownloadState::Streaming,
        evs[i] == DownloadEvent::ChunkFailed,
    ensures
        forall|j: int|
            i < j <= evs.len() ==> #[trigger] after_stream_failure(run(evs.take(j))),
        forall|j: int|
            i < j <= evs.len() ==> match #[trigger] run(evs.take(j)) {
                DownloadState::Finished(r) => r != Ok::<(), DownloadError>(()) && (file_present(
                    run(evs.take(j)),
                ) ==> r == Err::<(), DownloadError>(DownloadError::Cleanup)),
                _ => true,
            },
{
    assert(evs.take(i + 1).drop_last() =~= evs.take(i));
    assert forall|j: int| i < j <= evs.len() implies #[trigger] after_stream_failure(
        run(evs.take(j)),
    ) by {
        lemma_stays_after_stream_failure(evs, i, j);
    }
    assert forall|j: int| i < j <= evs.len() implies match #[trigger] run(evs.take(j)) {
        DownloadState::Finished(r) => r != Ok::<(), DownloadError>(()) && (file_present(
            run(evs.take(j)),
        ) ==> r == Err::<(), DownloadError>(DownloadError::Cleanup)),
        _ => true,
    } by {
        lemma_stays_after_stream_failure(evs, i, j);
    }
}

/// Success is reported only right after the end of the body was read, in
/// the state that reads it.
pub proof fn lemma_success_only_at_stream_end(evs: Seq<DownloadEvent>)
    requires
        evs.len() > 0,
        run(evs) == DownloadState::Finished(Ok(())),
        run(evs.drop_last()) != DownloadState::Finished(Ok(())),
    ensures
        run(evs.drop_last()) == DownloadState::Streaming,
        evs.last() == DownloadEvent::StreamEnded,
{
}

} // verus!
