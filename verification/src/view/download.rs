use vstd::prelude::*;

verus! {

/// What a download reports: that it started, how many of how many bytes have arrived, that
/// it finished, or that it failed.
#[derive(Debug, Clone, Copy, PartialEq, Eq)]
pub enum Progress {
    Started,
    Advanced { downloaded: u64, total: u64 },
    Finished,
    Errored,
}

/// The phase of a download. The response being read is held beside it by whoever runs it.
#[derive(Debug, Clone, PartialEq, Eq)]
pub enum DownloadState {
    /// About to request the URL.
    Ready(String),
    /// Reading a response of `total` bytes, of which `downloaded` have arrived.
    Downloading { total: u64, downloaded: u64 },
    Finished,
}

/// How the request for the URL went.
#[derive(Debug, Clone, Copy, PartialEq, Eq)]
pub enum ResponseOutcome {
    /// A response that announces its length.
    Length(u64),
    /// A response that does not announce its length.
    UnknownLength,
    /// No response.
    Failed,
}

/// What one read of the response body gave.
#[derive(Debug, Clone, Copy, PartialEq, Eq)]
pub enum ChunkOutcome {
    /// A chunk of this many bytes.
    Chunk(u64),
    /// The end of the body.
    End,
    /// A failed read.
    Failed,
}

/// What a download does next in a phase.
#[derive(Debug, Clone, PartialEq, Eq)]
pub enum DownloadStep {
    /// Request the URL and hand the outcome to `DownloadState::on_response`.
    Request(String),
    /// Read the body once and hand the outcome to `DownloadState::on_chunk`.
    ReadChunk { total: u64, downloaded: u64 },
    /// Report nothing more, ever.
    Idle,
}

impl DownloadState {
    /// The next move: a ready download requests its URL, a running one reads its body, and a
    /// finished one stays silent.
    pub fn step(self) -> (r: DownloadStep)
        ensures
            match self {
                DownloadState::Ready(url) => r == DownloadStep::Request(url),
                DownloadState::Downloading { total, downloaded } => r == DownloadStep::ReadChunk {
                    total,
                    downloaded,
                },
                DownloadState::Finished => r == DownloadStep::Idle,
            },
    {
        match self {
            DownloadState::Ready(url) => DownloadStep::Request(url),
            DownloadState::Downloading { total, downloaded } => DownloadStep::ReadChunk {
                total,
                downloaded,
            },
            DownloadState::Finished => DownloadStep::Idle,
        }
    }

    /// After the request: a response of known length starts the download with nothing
    /// downloaded yet; a response of unknown length, or none, fails it.
    pub fn on_response(outcome: ResponseOutcome) -> (r: (Progress, DownloadState))
        ensures
            match outcome {
                ResponseOutcome::Length(total) => r == (
                    Progress::Started,
                    DownloadState::Downloading { total, downloaded: 0 },
                ),
                _ => r == (Progress::Errored, DownloadState::Finished),
            },
    {
        match outcome {
            ResponseOutcome::Length(total) => (
                Progress::Started,
                DownloadState::Downloading { total, downloaded: 0 },
            ),
            _ => (Progress::Errored, DownloadState::Finished),
        }
    }

    /// After a read of the body of a `total`-byte response of which `downloaded` bytes had
    /// arrived: a chunk adds its size and reports the new count; the end finishes the
    /// download, a failed read fails it.
    pub fn on_chunk(total: u64, downloaded: u64, outcome: ChunkOutcome) -> (r: (
        Progress,
        DownloadState,
    ))
        requires
            outcome matches ChunkOutcome::Chunk(n) ==> downloaded + n <= u64::MAX,
        ensures
            match outcome {
                ChunkOutcome::Chunk(n) => r == (
                    Progress::Advanced { downloaded: (downloaded + n) as u64, total },
                    DownloadState::Downloading { total, downloaded: (downloaded + n) as u64 },
                ),
                ChunkOutcome::End => r == (Progress::Finished, DownloadState::Finished),
                ChunkOutcome::Failed => r == (Progress::Errored, DownloadState::Finished),
            },
    {
        match outcome {
            ChunkOutcome::Chunk(n) => {
                let downloaded = downloaded + n;
                (
                    Progress::Advanced { downloaded, total },
                    DownloadState::Downloading { total, downloaded },
                )
            },
            ChunkOutcome::End => (Progress::Finished, DownloadState::Finished),
            ChunkOutcome::Failed => (Progress::Errored, DownloadState::Finished),
        }
    }
}

} // verus!
