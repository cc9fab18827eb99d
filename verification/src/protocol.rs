//! The dialogue between a request's run and whoever drives it. The run
//! hands out a `Command`; the driver carries it out against the state
//! store or a collaborator, waits where that takes time, and hands back
//! the matching `Event`.

use vstd::prelude::*;
use crate::adapters::{
    RadioManagerClientError, SearchProviderError, StateStorageError, TopicData,
    TorrentClientError, Torrent,
};
use crate::ids::{
    DownloadId, RadioManagerChannelId, RadioManagerLinkId, RadioManagerTrackId, RequestId,
    TorrentId,
};
use crate::state::{
    ContextView, StateView, TrackRequestProcessingContext, TrackRequestProcessingState,
    TrackRequestProcessingStatus,
};
use crate::torrent_parser::{TorrentParserError, TorrentParserErrorKind};

verus! {

/// Seconds to wait before the download is looked at again.
pub const DOWNLOAD_POLL_SECONDS: u64 = 5;

/// Seconds to wait between two steps of a request.
pub const STEP_PAUSE_SECONDS: u64 = 1;

/// Why a request could not be created.
#[derive(Debug, PartialEq, Eq)]
pub enum CreatingJobError {
    StateStorageError(StateStorageError),
}

/// A creation error as a mathematical value.
pub enum CreatingJobErrorView {
    StateStorageError(Seq<char>),
}

impl View for CreatingJobError {
    type V = CreatingJobErrorView;

    open spec fn view(&self) -> CreatingJobErrorView {
        match self {
            CreatingJobError::StateStorageError(e) => CreatingJobErrorView::StateStorageError(e@),
        }
    }
}

/// Why the processing of a request stopped.
#[derive(Debug, PartialEq, Eq)]
pub enum ProcessingRequestError {
    StateStorageError(StateStorageError),
    SearchProviderError(SearchProviderError),
    DownloaderError(TorrentClientError),
    RadioManagerError(RadioManagerClientError),
    TorrentParserError(TorrentParserError),
    /// Every query was tried and none gave a topic that is new.
    TrackNotFound,
}

/// A processing error as a mathematical value. Of a parser error only
/// the kind counts.
pub enum ProcessingRequestErrorView {
    StateStorageError(Seq<char>),
    SearchProviderError(Seq<char>),
    DownloaderError(Seq<char>),
    RadioManagerError(Seq<char>),
    TorrentParserError(TorrentParserErrorKind),
    TrackNotFound,
}

impl View for ProcessingRequestError {
    type V = ProcessingRequestErrorView;

    open spec fn view(&self) -> ProcessingRequestErrorView {
        match self {
            ProcessingRequestError::StateStorageError(e) => {
                ProcessingRequestErrorView::StateStorageError(e@)
            },
            ProcessingRequestError::SearchProviderError(e) => {
                ProcessingRequestErrorView::SearchProviderError(e@)
            },
            ProcessingRequestError::DownloaderError(e) => {
                ProcessingRequestErrorView::DownloaderError(e@)
            },
            ProcessingRequestError::RadioManagerError(e) => {
                ProcessingRequestErrorView::RadioManagerError(e@)
            },
            ProcessingRequestError::TorrentParserError(e) => {
                ProcessingRequestErrorView::TorrentParserError(e@)
            },
            ProcessingRequestError::TrackNotFound => ProcessingRequestErrorView::TrackNotFound,
        }
    }
}

/// The status that a failed step leaves: `NotFound` where the track was
/// not found, `Failed` for every other error.
pub open spec fn status_of_failure(
    error: ProcessingRequestErrorView,
) -> TrackRequestProcessingStatus {
    if error is TrackNotFound {
        TrackRequestProcessingStatus::NotFound
    } else {
        TrackRequestProcessingStatus::Failed
    }
}

impl ProcessingRequestError {
    /// The status that this error leaves on the request.
    pub fn status(&self) -> (status: TrackRequestProcessingStatus)
        ensures
            status == status_of_failure(self@),
    {
        match self {
            ProcessingRequestError::TrackNotFound => TrackRequestProcessingStatus::NotFound,
            _ => TrackRequestProcessingStatus::Failed,
        }
    }
}

/// What the driver has to do next for the request.
#[derive(Debug, PartialEq, Eq)]
pub enum Command {
    /// Write the context of a new request.
    CreateContext(TrackRequestProcessingContext),
    /// Write the state of a new request.
    CreateState(TrackRequestProcessingState),
    /// Read the context. An absent context is an error.
    LoadContext,
    /// Read the state. An absent state is an error.
    LoadState,
    /// Write the status.
    UpdateStatus(TrackRequestProcessingStatus),
    /// Write the state: the checkpoint after a step.
    UpdateState(TrackRequestProcessingState),
    /// Delete the state.
    DeleteState,
    /// Delete the context.
    DeleteContext,
    /// Wait for so many seconds.
    Sleep(u64),
    /// Ask the index for the topics of a query.
    SearchMusic(String),
    /// Fetch a torrent descriptor from the index.
    DownloadTorrent(DownloadId),
    /// Hand a descriptor to the torrent engine, for the files at the given
    /// places only.
    AddTorrent(Vec<u8>, Vec<i32>),
    /// Ask the torrent engine about a torrent.
    GetTorrent(TorrentId),
    /// Upload the file at this path to the broadcast backend.
    UploadAudioTrack(String),
    /// Attach an uploaded track to a channel's playlist.
    AddTrackToChannelPlaylist(RadioManagerTrackId, RadioManagerChannelId),
    /// The creation is over, with this outcome.
    Created(Result<RequestId, CreatingJobError>),
    /// The processing is over, with this outcome.
    Return(Result<(), ProcessingRequestError>),
}

/// A command as a mathematical value.
pub enum CommandView {
    CreateContext(ContextView),
    CreateState(StateView),
    LoadContext,
    LoadState,
    UpdateStatus(TrackRequestProcessingStatus),
    UpdateState(StateView),
    DeleteState,
    DeleteContext,
    Sleep(u64),
    SearchMusic(Seq<char>),
    DownloadTorrent(DownloadId),
    AddTorrent(Seq<u8>, Seq<i32>),
    GetTorrent(TorrentId),
    UploadAudioTrack(Seq<char>),
    AddTrackToChannelPlaylist(RadioManagerTrackId, RadioManagerChannelId),
    Created(Result<RequestId, CreatingJobErrorView>),
    Return(Result<(), ProcessingRequestErrorView>),
}

impl View for Command {
    type V = CommandView;

    open spec fn view(&self) -> CommandView {
        match self {
            Command::CreateContext(ctx) => CommandView::CreateContext(ctx@),
            Command::CreateState(state) => CommandView::CreateState(state@),
            Command::LoadContext => CommandView::LoadContext,
            Command::LoadState => CommandView::LoadState,
            Command::UpdateStatus(status) => CommandView::UpdateStatus(*status),
            Command::UpdateState(state) => CommandView::UpdateState(state@),
            Command::DeleteState => CommandView::DeleteState,
            Command::DeleteContext => CommandView::DeleteContext,
            Command::Sleep(seconds) => CommandView::Sleep(*seconds),
            Command::SearchMusic(query) => CommandView::SearchMusic(query@),
            Command::DownloadTorrent(id) => CommandView::DownloadTorrent(*id),
            Command::AddTorrent(data, selected) => CommandView::AddTorrent(data@, selected@),
            Command::GetTorrent(id) => CommandView::GetTorrent(*id),
            Command::UploadAudioTrack(path) => CommandView::UploadAudioTrack(path@),
            Command::AddTrackToChannelPlaylist(track, channel) => {
                CommandView::AddTrackToChannelPlaylist(*track, *channel)
            },
            Command::Created(Ok(id)) => CommandView::Created(Ok(*id)),
            Command::Created(Err(e)) => CommandView::Created(Err(e@)),
            Command::Return(Ok(_)) => CommandView::Return(Ok(())),
            Command::Return(Err(e)) => CommandView::Return(Err(e@)),
        }
    }
}

/// What came of the last command.
#[derive(Debug, PartialEq, Eq)]
pub enum Event {
    /// Nothing yet: the run begins.
    Started,
    ContextLoaded(Result<TrackRequestProcessingContext, StateStorageError>),
    StateLoaded(Result<TrackRequestProcessingState, StateStorageError>),
    /// A write or a delete at the state store ended.
    Stored(Result<(), StateStorageError>),
    /// The wait is over.
    Slept,
    SearchResults(Result<Vec<TopicData>, SearchProviderError>),
    TorrentFile(Result<Vec<u8>, SearchProviderError>),
    TorrentAdded(Result<TorrentId, TorrentClientError>),
    TorrentInfo(Result<Torrent, TorrentClientError>),
    TrackUploaded(Result<RadioManagerTrackId, RadioManagerClientError>),
    TrackLinked(Result<RadioManagerLinkId, RadioManagerClientError>),
}

} // verus!
