//! The run of one request: load its context and state, take step after
//! step, persist after each, and clean up at the end. The run decides; the
//! driver acts. `RequestRun::advance` takes what came of the last command
//! and gives the next one.

use vstd::prelude::*;
use crate::adapters::{
    topics_of, RadioManagerClientError, SearchProviderError, StateStorageError, TopicData,
    TorrentClientError, Torrent,
};
use crate::ids::{RadioManagerLinkId, RadioManagerTrackId, RequestId, TorrentId, UserId};
use crate::protocol::{
    status_of_failure, Command, CommandView, Event, ProcessingRequestError,
    ProcessingRequestErrorView, DOWNLOAD_POLL_SECONDS, STEP_PAUSE_SECONDS,
};
use crate::state::{
    ContextView, StateView, TrackRequestProcessingContext, TrackRequestProcessingState,
    TrackRequestProcessingStatus, TrackRequestProcessingStep,
};
use crate::text::{matching_indices, select_matching};
use crate::torrent_parser::{get_files_spec, get_files_with};
use crate::transitions::{
    first_untried, full_path, full_path_spec, search_queries, search_queries_spec,
    SEARCH_QUERIES,
};

verus! {

/// Where a run stands: which event it waits for, and what for.
#[derive(Clone, Copy, Debug, PartialEq, Eq, Structural)]
pub enum Phase {
    /// Nothing was done yet.
    Start,
    LoadingContext,
    LoadingState,
    /// The status `Processing` is being written.
    MarkingProcessing,
    /// The index is being asked, with the query of this number.
    Searching(usize),
    FetchingTorrentFile,
    AddingTorrent,
    CheckingDownload,
    /// The download is still running; the run waits before it goes on.
    AwaitingDownload,
    Uploading,
    Linking,
    /// The state that this step left is being written.
    Persisting(TrackRequestProcessingStep),
    /// The pause between two steps.
    Pacing,
    /// The status of a failed step is being written.
    MarkingFailure,
    /// The status `Finished` is being written.
    MarkingFinished,
    DeletingState,
    DeletingContext,
    /// The run is over.
    Done,
}

impl Phase {
    /// The step whose collaborator the run waits for in this phase, if it
    /// waits for one.
    pub open spec fn step(self) -> Option<TrackRequestProcessingStep> {
        match self {
            Phase::Searching(_) => Some(TrackRequestProcessingStep::SearchAudioAlbum),
            Phase::FetchingTorrentFile => Some(TrackRequestProcessingStep::DownloadTorrentFile),
            Phase::AddingTorrent => Some(TrackRequestProcessingStep::DownloadAlbum),
            Phase::CheckingDownload => Some(TrackRequestProcessingStep::CheckDownloadStatus),
            Phase::AwaitingDownload => Some(TrackRequestProcessingStep::CheckDownloadStatus),
            Phase::Uploading => Some(TrackRequestProcessingStep::UploadToRadioManager),
            Phase::Linking => Some(TrackRequestProcessingStep::AddToRadioManagerChannel),
            _ => None,
        }
    }
}

/// What a run is told once and keeps for good.
#[derive(Debug)]
pub struct Settings {
    /// The directory below which downloaded files lie.
    pub download_directory: String,
    /// The character that parts the components of the paths that a
    /// torrent descriptor lists.
    pub separator: char,
    /// What to do with a candidate whose descriptor cannot be read as it
    /// arrives from the index: give the candidate up and search on, or
    /// fail the request.
    pub skip_unreadable_descriptors: bool,
}

/// The settings as a mathematical value.
pub struct SettingsView {
    pub download_directory: Seq<char>,
    pub separator: char,
    pub skip_unreadable_descriptors: bool,
}

impl View for Settings {
    type V = SettingsView;

    open spec fn view(&self) -> SettingsView {
        SettingsView {
            download_directory: self.download_directory@,
            separator: self.separator,
            skip_unreadable_descriptors: self.skip_unreadable_descriptors,
        }
    }
}

impl Clone for Settings {
    fn clone(&self) -> (copy: Self)
        ensures
            copy@ == self@,
    {
        Settings {
            download_directory: self.download_directory.clone(),
            separator: self.separator,
            skip_unreadable_descriptors: self.skip_unreadable_descriptors,
        }
    }
}

/// The run of one request as a mathematical value.
pub struct RunView {
    pub settings: SettingsView,
    pub phase: Phase,
    pub context: Option<ContextView>,
    pub state: Option<StateView>,
    pub failure: Option<ProcessingRequestErrorView>,
}

impl RunView {
    /// A run on which nothing was done yet.
    pub open spec fn fresh(settings: SettingsView) -> RunView {
        RunView {
            settings,
            phase: Phase::Start,
            context: None,
            state: None,
            failure: None,
        }
    }

    /// Context and state are loaded.
    pub open spec fn loaded(self) -> bool {
        self.context is Some && self.state is Some
    }

    /// The run holds what its phase needs, and no state before it has
    /// loaded one. While it waits for a collaborator its state still
    /// projects to that collaborator's step.
    pub open spec fn wf(self) -> bool {
        match self.phase {
            Phase::Start => self.state is None,
            Phase::LoadingContext => self.state is None,
            Phase::Done => true,
            Phase::LoadingState => self.context is Some && self.state is None,
            Phase::MarkingFailure => self.loaded() && self.failure is Some,
            Phase::Searching(attempt) => self.loaded() && attempt < SEARCH_QUERIES
                && self.state->0.step() == TrackRequestProcessingStep::SearchAudioAlbum,
            phase => self.loaded() && (phase.step() matches Some(step) ==> self.state->0.step()
                == step),
        }
    }

    /// Which events the run takes in its phase.
    pub open spec fn accepts(self, event: Event) -> bool {
        match self.phase {
            Phase::Start => event is Started,
            Phase::LoadingContext => event is ContextLoaded,
            Phase::LoadingState => event is StateLoaded,
            Phase::MarkingProcessing => event is Stored,
            Phase::Searching(_) => event is SearchResults,
            Phase::FetchingTorrentFile => event is TorrentFile,
            Phase::AddingTorrent => event is TorrentAdded,
            Phase::CheckingDownload => event is TorrentInfo,
            Phase::AwaitingDownload => event is Slept,
            Phase::Uploading => event is TrackUploaded,
            Phase::Linking => event is TrackLinked,
            Phase::Persisting(_) => event is Stored,
            Phase::Pacing => event is Slept,
            Phase::MarkingFailure => event is Stored,
            Phase::MarkingFinished => event is Stored,
            Phase::DeletingState => event is Stored,
            Phase::DeletingContext => event is Stored,
            Phase::Done => false,
        }
    }

    /// The run ends with `outcome`.
    pub open spec fn ended(self, outcome: Result<(), ProcessingRequestErrorView>) -> (
        RunView,
        CommandView,
    ) {
        (RunView { phase: Phase::Done, ..self }, CommandView::Return(outcome))
    }

    /// The state store failed: the run ends with its error, and nothing
    /// else is written.
    pub open spec fn store_failed(self, error: Seq<char>) -> (RunView, CommandView) {
        self.ended(Err(ProcessingRequestErrorView::StateStorageError(error)))
    }

    /// A step failed: the status that the error asks for is written
    /// before the run ends with the error. State and context stay.
    pub open spec fn failed(self, error: ProcessingRequestErrorView) -> (RunView, CommandView) {
        (
            RunView { phase: Phase::MarkingFailure, failure: Some(error), ..self },
            CommandView::UpdateStatus(status_of_failure(error)),
        )
    }

    /// The step `step` succeeded and left `state`, which is written next.
    pub open spec fn checkpoint(self, step: TrackRequestProcessingStep, state: StateView) -> (
        RunView,
        CommandView,
    ) {
        (
            RunView { phase: Phase::Persisting(step), state: Some(state), ..self },
            CommandView::UpdateState(state),
        )
    }

    /// The index is asked with the query of number `attempt`.
    pub open spec fn searching(self, attempt: usize) -> (RunView, CommandView) {
        (
            RunView { phase: Phase::Searching(attempt), ..self },
            CommandView::SearchMusic(search_queries_spec(self.context->0.metadata)[attempt as int]),
        )
    }

    /// The state is projected to its step, and the collaborator of that
    /// step is asked. At `Finish` the cleanup begins.
    pub open spec fn dispatch(self) -> (RunView, CommandView) {
        let ctx = self.context->0;
        let state = self.state->0;
        match state.step() {
            TrackRequestProcessingStep::SearchAudioAlbum => self.searching(0),
            TrackRequestProcessingStep::DownloadTorrentFile => (
                RunView { phase: Phase::FetchingTorrentFile, ..self },
                CommandView::DownloadTorrent(state.current_download_id->0),
            ),
            TrackRequestProcessingStep::DownloadAlbum => match get_files_spec(
                state.current_torrent_data->0,
                self.settings.separator,
            ) {
                Ok(files) => (
                    RunView { phase: Phase::AddingTorrent, ..self },
                    CommandView::AddTorrent(
                        state.current_torrent_data->0,
                        matching_indices(files, ctx.metadata.title),
                    ),
                ),
                Err(kind) => self.failed(ProcessingRequestErrorView::TorrentParserError(kind)),
            },
            TrackRequestProcessingStep::CheckDownloadStatus => (
                RunView { phase: Phase::CheckingDownload, ..self },
                CommandView::GetTorrent(state.current_torrent_id->0),
            ),
            TrackRequestProcessingStep::UploadToRadioManager => (
                RunView { phase: Phase::Uploading, ..self },
                CommandView::UploadAudioTrack(
                    full_path_spec(
                        self.settings.download_directory,
                        state.path_to_downloaded_file->0,
                    ),
                ),
            ),
            TrackRequestProcessingStep::AddToRadioManagerChannel => (
                RunView { phase: Phase::Linking, ..self },
                CommandView::AddTrackToChannelPlaylist(
                    state.radio_manager_track_id->0,
                    ctx.target_channel_id,
                ),
            ),
            TrackRequestProcessingStep::Finish => (
                RunView { phase: Phase::MarkingFinished, ..self },
                CommandView::UpdateStatus(TrackRequestProcessingStatus::Finished),
            ),
        }
    }

    /// The index answered the query of number `attempt`. The first topic
    /// that is new becomes the candidate. Without one the next query is
    /// tried, and after the last the track counts as not found.
    pub open spec fn searched(
        self,
        attempt: usize,
        answer: Result<Vec<TopicData>, SearchProviderError>,
    ) -> (RunView, CommandView) {
        match answer {
            Ok(results) => {
                let state = self.state->0;
                if first_untried(state.tried_topics, topics_of(results@)) is Some {
                    self.checkpoint(
                        TrackRequestProcessingStep::SearchAudioAlbum,
                        state.after_search(topics_of(results@)),
                    )
                } else if attempt + 1 < SEARCH_QUERIES {
                    self.searching((attempt + 1) as usize)
                } else {
                    self.failed(ProcessingRequestErrorView::TrackNotFound)
                }
            },
            Err(error) => self.failed(ProcessingRequestErrorView::SearchProviderError(error@)),
        }
    }

    /// The index handed out the candidate's descriptor, or failed. A
    /// descriptor that cannot be read fails the request, unless the run
    /// is set to give such a candidate up.
    pub open spec fn torrent_file_fetched(self, answer: Result<Vec<u8>, SearchProviderError>) -> (
        RunView,
        CommandView,
    ) {
        match answer {
            Ok(data) => match get_files_spec(data@, self.settings.separator) {
                Ok(files) => self.checkpoint(
                    TrackRequestProcessingStep::DownloadTorrentFile,
                    self.state->0.after_torrent_file(
                        self.context->0.metadata.title,
                        data@,
                        files,
                    ),
                ),
                Err(kind) => if self.settings.skip_unreadable_descriptors {
                    self.checkpoint(
                        TrackRequestProcessingStep::DownloadTorrentFile,
                        self.state->0.without_candidate(),
                    )
                } else {
                    self.failed(ProcessingRequestErrorView::TorrentParserError(kind))
                },
            },
            Err(error) => self.failed(ProcessingRequestErrorView::SearchProviderError(error@)),
        }
    }

    /// The torrent engine took the descriptor, or failed.
    pub open spec fn torrent_added(self, answer: Result<TorrentId, TorrentClientError>) -> (
        RunView,
        CommandView,
    ) {
        match answer {
            Ok(torrent_id) => self.checkpoint(
                TrackRequestProcessingStep::DownloadAlbum,
                self.state->0.after_torrent_added(torrent_id),
            ),
            Err(error) => self.failed(ProcessingRequestErrorView::DownloaderError(error@)),
        }
    }

    /// The torrent engine reported on the download, or failed. While the
    /// download runs, the run waits and leaves the state as it is.
    pub open spec fn download_checked(self, answer: Result<Torrent, TorrentClientError>) -> (
        RunView,
        CommandView,
    ) {
        match answer {
            Ok(torrent) => if torrent.status != crate::adapters::TorrentStatus::Complete {
                (
                    RunView { phase: Phase::AwaitingDownload, ..self },
                    CommandView::Sleep(DOWNLOAD_POLL_SECONDS),
                )
            } else {
                self.checkpoint(
                    TrackRequestProcessingStep::CheckDownloadStatus,
                    self.state->0.after_download_check(self.context->0.metadata.title, torrent@),
                )
            },
            Err(error) => self.failed(ProcessingRequestErrorView::DownloaderError(error@)),
        }
    }

    /// The broadcast backend stored the file, or failed.
    pub open spec fn uploaded(self, answer: Result<RadioManagerTrackId, RadioManagerClientError>)
        -> (RunView, CommandView) {
        match answer {
            Ok(track_id) => self.checkpoint(
                TrackRequestProcessingStep::UploadToRadioManager,
                self.state->0.after_upload(track_id),
            ),
            Err(error) => self.failed(ProcessingRequestErrorView::RadioManagerError(error@)),
        }
    }

    /// The broadcast backend attached the track, or failed.
    pub open spec fn linked(self, answer: Result<RadioManagerLinkId, RadioManagerClientError>) -> (
        RunView,
        CommandView,
    ) {
        match answer {
            Ok(link_id) => self.checkpoint(
                TrackRequestProcessingStep::AddToRadioManagerChannel,
                self.state->0.after_link(link_id@),
            ),
            Err(error) => self.failed(ProcessingRequestErrorView::RadioManagerError(error@)),
        }
    }

    /// The run after `event`, and the command it gives then. Only events
    /// that the run accepts have a meaning.
    pub open spec fn next(self, event: Event) -> (RunView, CommandView) {
        match (self.phase, event) {
            (Phase::Start, Event::Started) => (
                RunView { phase: Phase::LoadingContext, ..self },
                CommandView::LoadContext,
            ),
            (Phase::LoadingContext, Event::ContextLoaded(Ok(ctx))) => (
                RunView { phase: Phase::LoadingState, context: Some(ctx@), ..self },
                CommandView::LoadState,
            ),
            (Phase::LoadingContext, Event::ContextLoaded(Err(error))) => self.store_failed(error@),
            (Phase::LoadingState, Event::StateLoaded(Ok(state))) => (
                RunView { phase: Phase::MarkingProcessing, state: Some(state@), ..self },
                CommandView::UpdateStatus(TrackRequestProcessingStatus::Processing),
            ),
            (Phase::LoadingState, Event::StateLoaded(Err(error))) => self.store_failed(error@),
            (Phase::MarkingProcessing, Event::Stored(Ok(_))) => self.dispatch(),
            (Phase::Searching(attempt), Event::SearchResults(answer)) => self.searched(
                attempt,
                answer,
            ),
            (Phase::FetchingTorrentFile, Event::TorrentFile(answer)) => self.torrent_file_fetched(
                answer,
            ),
            (Phase::AddingTorrent, Event::TorrentAdded(answer)) => self.torrent_added(answer),
            (Phase::CheckingDownload, Event::TorrentInfo(answer)) => self.download_checked(answer),
            (Phase::AwaitingDownload, Event::Slept) => self.checkpoint(
                TrackRequestProcessingStep::CheckDownloadStatus,
                self.state->0,
            ),
            (Phase::Uploading, Event::TrackUploaded(answer)) => self.uploaded(answer),
            (Phase::Linking, Event::TrackLinked(answer)) => self.linked(answer),
            (Phase::Persisting(_), Event::Stored(Ok(_))) => (
                RunView { phase: Phase::Pacing, ..self },
                CommandView::Sleep(STEP_PAUSE_SECONDS),
            ),
            (Phase::Pacing, Event::Slept) => self.dispatch(),
            (Phase::MarkingFailure, Event::Stored(Ok(_))) => (RunView {
                failure: None,
                ..self
            }).ended(Err(self.failure->0)),
            (Phase::MarkingFinished, Event::Stored(Ok(_))) => (
                RunView { phase: Phase::DeletingState, ..self },
                CommandView::DeleteState,
            ),
            (Phase::DeletingState, Event::Stored(Ok(_))) => (
                RunView { phase: Phase::DeletingContext, ..self },
                CommandView::DeleteContext,
            ),
            (Phase::DeletingContext, Event::Stored(Ok(_))) => self.ended(Ok(())),
            (_, Event::Stored(Err(error))) => self.store_failed(error@),
            _ => arbitrary(),
        }
    }
}

/// The run of one request.
pub struct RequestRun {
    user_id: UserId,
    request_id: RequestId,
    settings: Settings,
    phase: Phase,
    context: Option<TrackRequestProcessingContext>,
    state: Option<TrackRequestProcessingState>,
    failure: Option<ProcessingRequestError>,
}

impl View for RequestRun {
    type V = RunView;

    closed spec fn view(&self) -> RunView {
        RunView {
            settings: self.settings@,
            phase: self.phase,
            context: match self.context {
                Some(ctx) => Some(ctx@),
                None => None,
            },
            state: match self.state {
                Some(state) => Some(state@),
                None => None,
            },
            failure: match self.failure {
                Some(error) => Some(error@),
                None => None,
            },
        }
    }
}

impl RequestRun {
    /// A run for the request `request_id` of `user_id` on which nothing
    /// was done yet.
    pub fn new(user_id: UserId, request_id: RequestId, settings: Settings) -> (run: Self)
        ensures
            run@ == RunView::fresh(settings@),
            run@.wf(),
            run.owner() == user_id,
            run.request() == request_id,
    {
        RequestRun {
            user_id,
            request_id,
            settings,
            phase: Phase::Start,
            context: None,
            state: None,
            failure: None,
        }
    }

    /// The user for whom the run works.
    pub closed spec fn owner(&self) -> UserId {
        self.user_id
    }

    /// The request on which the run works.
    pub closed spec fn request(&self) -> RequestId {
        self.request_id
    }

    /// The user for whom the run works.
    pub fn user_id(&self) -> (user_id: UserId)
        ensures
            user_id == self.owner(),
    {
        self.user_id
    }

    /// The request on which the run works.
    pub fn request_id(&self) -> (request_id: RequestId)
        ensures
            request_id == self.request(),
    {
        self.request_id
    }

    /// Where the run stands.
    pub fn phase(&self) -> (phase: Phase)
        ensures
            phase == self@.phase,
    {
        self.phase
    }

    /// Whether the run is over.
    pub fn is_done(&self) -> (done: bool)
        ensures
            done == (self@.phase == Phase::Done),
    {
        match self.phase {
            Phase::Done => true,
            _ => false,
        }
    }

    /// The state as the run holds it in memory, once it is loaded.
    pub fn state(&self) -> (state: Option<&TrackRequestProcessingState>)
        ensures
            match state {
                Some(s) => self@.state == Some(s@),
                None => self@.state is None,
            },
    {
        self.state.as_ref()
    }

    /// Whether the run takes `event` in its phase.
    pub fn accepts(&self, event: &Event) -> (yes: bool)
        ensures
            yes == self@.accepts(*event),
    {
        match self.phase {
            Phase::Start => matches!(event, Event::Started),
            Phase::LoadingContext => matches!(event, Event::ContextLoaded(_)),
            Phase::LoadingState => matches!(event, Event::StateLoaded(_)),
            Phase::Searching(_) => matches!(event, Event::SearchResults(_)),
            Phase::FetchingTorrentFile => matches!(event, Event::TorrentFile(_)),
            Phase::AddingTorrent => matches!(event, Event::TorrentAdded(_)),
            Phase::CheckingDownload => matches!(event, Event::TorrentInfo(_)),
            Phase::AwaitingDownload => matches!(event, Event::Slept),
            Phase::Pacing => matches!(event, Event::Slept),
            Phase::Uploading => matches!(event, Event::TrackUploaded(_)),
            Phase::Linking => matches!(event, Event::TrackLinked(_)),
            Phase::Done => false,
            _ => matches!(event, Event::Stored(_)),
        }
    }

    /// Ends the run with `outcome`.
    fn end(&mut self, outcome: Result<(), ProcessingRequestError>) -> (command: Command)
        ensures
            (final(self)@, command@) == old(self)@.ended(
                match outcome {
                    Ok(_) => Ok(()),
                    Err(e) => Err(e@),
                },
            ),
            final(self)@.wf(),
            final(self).owner() == old(self).owner(),
            final(self).request() == old(self).request(),
    {
        self.phase = Phase::Done;
        Command::Return(outcome)
    }

    /// Ends the run with the error of the state store.
    fn store_failed(&mut self, error: StateStorageError) -> (command: Command)
        ensures
            (final(self)@, command@) == old(self)@.store_failed(error@),
            final(self)@.wf(),
            final(self).owner() == old(self).owner(),
            final(self).request() == old(self).request(),
    {
        self.end(Err(ProcessingRequestError::StateStorageError(error)))
    }

    /// Has the status of a failed step written before the run ends with
    /// `error`.
    fn fail(&mut self, error: ProcessingRequestError) -> (command: Command)
        requires
            old(self)@.loaded(),
        ensures
            (final(self)@, command@) == old(self)@.failed(error@),
            final(self)@.wf(),
            final(self).owner() == old(self).owner(),
            final(self).request() == old(self).request(),
    {
        let status = error.status();
        self.phase = Phase::MarkingFailure;
        self.failure = Some(error);
        Command::UpdateStatus(status)
    }

    /// Has the state that the step `step` left written.
    fn checkpoint(
        &mut self,
        step: TrackRequestProcessingStep,
        state: TrackRequestProcessingState,
    ) -> (command: Command)
        requires
            old(self)@.context is Some,
        ensures
            (final(self)@, command@) == old(self)@.checkpoint(step, state@),
            final(self)@.wf(),
            final(self).owner() == old(self).owner(),
            final(self).request() == old(self).request(),
    {
        let copy = state.clone();
        self.phase = Phase::Persisting(step);
        self.state = Some(state);
        Command::UpdateState(copy)
    }

    /// Asks the index with the query of number `attempt`.
    fn search(&mut self, attempt: usize) -> (command: Command)
        requires
            old(self)@.loaded(),
            attempt < SEARCH_QUERIES,
            old(self)@.state->0.step() == TrackRequestProcessingStep::SearchAudioAlbum,
        ensures
            (final(self)@, command@) == old(self)@.searching(attempt),
            final(self)@.wf(),
            final(self).owner() == old(self).owner(),
            final(self).request() == old(self).request(),
    {
        let query = match &self.context {
            Some(ctx) => {
                let queries = search_queries(&ctx.metadata);
                queries[attempt].clone()
            },
            None => vstd::pervasive::unreached(),
        };
        self.phase = Phase::Searching(attempt);
        Command::SearchMusic(query)
    }

    /// Projects the state to its step and asks that step's collaborator.
    fn handle_next_step(&mut self) -> (command: Command)
        requires
            old(self)@.loaded(),
        ensures
            (final(self)@, command@) == old(self)@.dispatch(),
            final(self)@.wf(),
            final(self).owner() == old(self).owner(),
            final(self).request() == old(self).request(),
    {
        let step = match &self.state {
            Some(state) => state.get_step(),
            None => vstd::pervasive::unreached(),
        };
        match step {
            TrackRequestProcessingStep::SearchAudioAlbum => self.search(0),
            TrackRequestProcessingStep::DownloadTorrentFile => {
                let download_id = match &self.state {
                    Some(state) => match state.current_download_id {
                        Some(id) => id,
                        None => vstd::pervasive::unreached(),
                    },
                    None => vstd::pervasive::unreached(),
                };
                self.phase = Phase::FetchingTorrentFile;
                Command::DownloadTorrent(download_id)
            },
            TrackRequestProcessingStep::DownloadAlbum => {
                let prepared = match (&self.context, &self.state) {
                    (Some(ctx), Some(state)) => match &state.current_torrent_data {
                        Some(data) => match get_files_with(
                            data.as_slice(),
                            self.settings.separator,
                        ) {
                            Ok(files) => Ok(
                                Command::AddTorrent(
                                    data.clone(),
                                    select_matching(&files, ctx.metadata.title.as_str()),
                                ),
                            ),
                            Err(error) => Err(error),
                        },
                        None => vstd::pervasive::unreached(),
                    },
                    _ => vstd::pervasive::unreached(),
                };
                match prepared {
                    Ok(command) => {
                        self.phase = Phase::AddingTorrent;
                        command
                    },
                    Err(error) => self.fail(ProcessingRequestError::TorrentParserError(error)),
                }
            },
            TrackRequestProcessingStep::CheckDownloadStatus => {
                let torrent_id = match &self.state {
                    Some(state) => match state.current_torrent_id {
                        Some(id) => id,
                        None => vstd::pervasive::unreached(),
                    },
                    None => vstd::pervasive::unreached(),
                };
                self.phase = Phase::CheckingDownload;
                Command::GetTorrent(torrent_id)
            },
            TrackRequestProcessingStep::UploadToRadioManager => {
                let path = match &self.state {
                    Some(state) => match &state.path_to_downloaded_file {
                        Some(path) => full_path(
                            self.settings.download_directory.as_str(),
                            path.as_str(),
                        ),
                        None => vstd::pervasive::unreached(),
                    },
                    None => vstd::pervasive::unreached(),
                };
                self.phase = Phase::Uploading;
                Command::UploadAudioTrack(path)
            },
            TrackRequestProcessingStep::AddToRadioManagerChannel => {
                let command = match (&self.context, &self.state) {
                    (Some(ctx), Some(state)) => match state.radio_manager_track_id {
                        Some(track_id) => Command::AddTrackToChannelPlaylist(
                            track_id,
                            ctx.target_channel_id,
                        ),
                        None => vstd::pervasive::unreached(),
                    },
                    _ => vstd::pervasive::unreached(),
                };
                self.phase = Phase::Linking;
                command
            },
            TrackRequestProcessingStep::Finish => {
                self.phase = Phase::MarkingFinished;
                Command::UpdateStatus(TrackRequestProcessingStatus::Finished)
            },
        }
    }

    /// Takes the loaded state out of the run, to change it.
    fn take_state(&mut self) -> (state: TrackRequestProcessingState)
        requires
            old(self)@.state is Some,
        ensures
            old(self)@.state == Some(state@),
            final(self)@ == (RunView { state: None, ..old(self)@ }),
            final(self).owner() == old(self).owner(),
            final(self).request() == old(self).request(),
    {
        match self.state.take() {
            Some(state) => state,
            None => vstd::pervasive::unreached(),
        }
    }

    /// Digests the answer of the index to the query of number `attempt`.
    fn search_audio_album(
        &mut self,
        attempt: usize,
        answer: Result<Vec<TopicData>, SearchProviderError>,
    ) -> (command: Command)
        requires
            old(self)@.wf(),
            old(self)@.phase == Phase::Searching(attempt),
        ensures
            (final(self)@, command@) == old(self)@.searched(attempt, answer),
            final(self)@.wf(),
            final(self).owner() == old(self).owner(),
            final(self).request() == old(self).request(),
    {
        match answer {
            Ok(results) => {
                let mut state = self.take_state();
                if state.choose_candidate(&results) {
                    self.checkpoint(TrackRequestProcessingStep::SearchAudioAlbum, state)
                } else {
                    self.state = Some(state);
                    if attempt + 1 < SEARCH_QUERIES {
                        self.search(attempt + 1)
                    } else {
                        self.fail(ProcessingRequestError::TrackNotFound)
                    }
                }
            },
            Err(error) => self.fail(ProcessingRequestError::SearchProviderError(error)),
        }
    }

    /// Digests the descriptor that the index handed out.
    fn download_torrent_file(&mut self, answer: Result<Vec<u8>, SearchProviderError>) -> (command:
        Command)
        requires
            old(self)@.wf(),
            old(self)@.phase == Phase::FetchingTorrentFile,
        ensures
            (final(self)@, command@) == old(self)@.torrent_file_fetched(answer),
            final(self)@.wf(),
            final(self).owner() == old(self).owner(),
            final(self).request() == old(self).request(),
    {
        match answer {
            Ok(data) => match get_files_with(data.as_slice(), self.settings.separator) {
                Ok(files) => {
                    let mut state = self.take_state();
                    match &self.context {
                        Some(ctx) => {
                            state.accept_torrent_file(ctx.metadata.title.as_str(), data, &files);
                        },
                        None => vstd::pervasive::unreached(),
                    }
                    self.checkpoint(TrackRequestProcessingStep::DownloadTorrentFile, state)
                },
                Err(error) => {
                    if self.settings.skip_unreadable_descriptors {
                        let mut state = self.take_state();
                        state.drop_candidate();
                        self.checkpoint(TrackRequestProcessingStep::DownloadTorrentFile, state)
                    } else {
                        self.fail(ProcessingRequestError::TorrentParserError(error))
                    }
                },
            },
            Err(error) => self.fail(ProcessingRequestError::SearchProviderError(error)),
        }
    }

    /// Digests the answer of the torrent engine to the descriptor.
    fn download_album(&mut self, answer: Result<TorrentId, TorrentClientError>) -> (command:
        Command)
        requires
            old(self)@.wf(),
            old(self)@.phase == Phase::AddingTorrent,
        ensures
            (final(self)@, command@) == old(self)@.torrent_added(answer),
            final(self)@.wf(),
            final(self).owner() == old(self).owner(),
            final(self).request() == old(self).request(),
    {
        match answer {
            Ok(torrent_id) => {
                let mut state = self.take_state();
                state.torrent_added(torrent_id);
                self.checkpoint(TrackRequestProcessingStep::DownloadAlbum, state)
            },
            Err(error) => self.fail(ProcessingRequestError::DownloaderError(error)),
        }
    }

    /// Digests a report of the torrent engine on the download.
    fn check_download_status(&mut self, answer: Result<Torrent, TorrentClientError>) -> (command:
        Command)
        requires
            old(self)@.wf(),
            old(self)@.phase == Phase::CheckingDownload,
        ensures
            (final(self)@, command@) == old(self)@.download_checked(answer),
            final(self)@.wf(),
            final(self).owner() == old(self).owner(),
            final(self).request() == old(self).request(),
    {
        match answer {
            Ok(torrent) => {
                let mut state = self.take_state();
                let running = match &self.context {
                    Some(ctx) => state.download_checked(ctx.metadata.title.as_str(), &torrent),
                    None => vstd::pervasive::unreached(),
                };
                if running {
                    self.state = Some(state);
                    self.phase = Phase::AwaitingDownload;
                    Command::Sleep(DOWNLOAD_POLL_SECONDS)
                } else {
                    self.checkpoint(TrackRequestProcessingStep::CheckDownloadStatus, state)
                }
            },
            Err(error) => self.fail(ProcessingRequestError::DownloaderError(error)),
        }
    }

    /// Digests the answer of the broadcast backend to the upload.
    fn upload_to_radio_manager(
        &mut self,
        answer: Result<RadioManagerTrackId, RadioManagerClientError>,
    ) -> (command: Command)
        requires
            old(self)@.wf(),
            old(self)@.phase == Phase::Uploading,
        ensures
            (final(self)@, command@) == old(self)@.uploaded(answer),
            final(self)@.wf(),
            final(self).owner() == old(self).owner(),
            final(self).request() == old(self).request(),
    {
        match answer {
            Ok(track_id) => {
                let mut state = self.take_state();
                state.track_uploaded(track_id);
                self.checkpoint(TrackRequestProcessingStep::UploadToRadioManager, state)
            },
            Err(error) => self.fail(ProcessingRequestError::RadioManagerError(error)),
        }
    }

    /// Digests the answer of the broadcast backend to the attachment.
    fn add_to_radio_manager_channel(
        &mut self,
        answer: Result<RadioManagerLinkId, RadioManagerClientError>,
    ) -> (command: Command)
        requires
            old(self)@.wf(),
            old(self)@.phase == Phase::Linking,
        ensures
            (final(self)@, command@) == old(self)@.linked(answer),
            final(self)@.wf(),
            final(self).owner() == old(self).owner(),
            final(self).request() == old(self).request(),
    {
        match answer {
            Ok(link_id) => {
                let mut state = self.take_state();
                state.track_linked(link_id);
                self.checkpoint(TrackRequestProcessingStep::AddToRadioManagerChannel, state)
            },
            Err(error) => self.fail(ProcessingRequestError::RadioManagerError(error)),
        }
    }

    /// Takes what came of the last command and gives the next command.
    /// After `Command::Return` the run is over and accepts nothing.
    pub fn advance(&mut self, event: Event) -> (command: Command)
        requires
            old(self)@.wf(),
            old(self)@.accepts(event),
        ensures
            (final(self)@, command@) == old(self)@.next(event),
            final(self)@.wf(),
            final(self).owner() == old(self).owner(),
            final(self).request() == old(self).request(),
    {
        match event {
            Event::Started => {
                self.phase = Phase::LoadingContext;
                Command::LoadContext
            },
            Event::ContextLoaded(Ok(ctx)) => {
                self.context = Some(ctx);
                self.phase = Phase::LoadingState;
                Command::LoadState
            },
            Event::ContextLoaded(Err(error)) => self.store_failed(error),
            Event::StateLoaded(Ok(state)) => {
                self.state = Some(state);
                self.phase = Phase::MarkingProcessing;
                Command::UpdateStatus(TrackRequestProcessingStatus::Processing)
            },
            Event::StateLoaded(Err(error)) => self.store_failed(error),
            Event::Stored(Err(error)) => self.store_failed(error),
            Event::Stored(Ok(_)) => match self.phase {
                Phase::MarkingProcessing => self.handle_next_step(),
                Phase::Persisting(_) => {
                    self.phase = Phase::Pacing;
                    Command::Sleep(STEP_PAUSE_SECONDS)
                },
                Phase::MarkingFailure => match self.failure.take() {
                    Some(error) => self.end(Err(error)),
                    None => vstd::pervasive::unreached(),
                },
                Phase::MarkingFinished => {
                    self.phase = Phase::DeletingState;
                    Command::DeleteState
                },
                Phase::DeletingState => {
                    self.phase = Phase::DeletingContext;
                    Command::DeleteContext
                },
                Phase::DeletingContext => self.end(Ok(())),
                _ => vstd::pervasive::unreached(),
            },
            Event::Slept => match self.phase {
                Phase::AwaitingDownload => {
                    let state = self.take_state();
                    self.checkpoint(TrackRequestProcessingStep::CheckDownloadStatus, state)
                },
                Phase::Pacing => self.handle_next_step(),
                _ => vstd::pervasive::unreached(),
            },
            Event::SearchResults(answer) => match self.phase {
                Phase::Searching(attempt) => self.search_audio_album(attempt, answer),
                _ => vstd::pervasive::unreached(),
            },
            Event::TorrentFile(answer) => self.download_torrent_file(answer),
            Event::TorrentAdded(answer) => self.download_album(answer),
            Event::TorrentInfo(answer) => self.check_download_status(answer),
            Event::TrackUploaded(answer) => self.upload_to_radio_manager(answer),
            Event::TrackLinked(answer) => self.add_to_radio_manager_channel(answer),
        }
    }
}

} // verus!
