//! A run together with the state store it works on, and what holds of
//! every such execution.
//!
//! The store is modelled for one request: its context, its state and its
//! status, each present or absent. A command that the driver carries out
//! changes the store; the event it hands back is one that the store and
//! the command allow. On this model the module states what a run leaves
//! behind, where it resumes after a crash, and that it never forgets a
//! topic it has tried.

use vstd::prelude::*;
use crate::run::{Phase, RunView, SettingsView};
use crate::protocol::{status_of_failure, CommandView, Event, ProcessingRequestErrorView};
use crate::state::{
    ContextView, StateView, TrackRequestProcessingStatus, TrackRequestProcessingStep,
};
use crate::text::{any_match, contains_ignore_case_spec, first_match};
use crate::torrent_parser::get_files_spec;
use crate::transitions::{full_path_spec, keeps_topics};

verus! {

/// What the state store holds of one request.
pub struct StoreModel {
    pub context: Option<ContextView>,
    pub state: Option<StateView>,
    pub status: Option<TrackRequestProcessingStatus>,
}

/// `event` is a possible outcome of `command` on `store`: it is of the
/// command's kind, and what a read hands out is what the store holds.
pub open spec fn answers(store: StoreModel, command: CommandView, event: Event) -> bool {
    match command {
        CommandView::LoadContext => event matches Event::ContextLoaded(outcome) && (
        outcome matches Ok(ctx) ==> store.context == Some(ctx@)),
        CommandView::LoadState => event matches Event::StateLoaded(outcome) && (
        outcome matches Ok(state) ==> store.state == Some(state@)),
        CommandView::CreateContext(_) => event is Stored,
        CommandView::CreateState(_) => event is Stored,
        CommandView::UpdateStatus(_) => event is Stored,
        CommandView::UpdateState(_) => event is Stored,
        CommandView::DeleteState => event is Stored,
        CommandView::DeleteContext => event is Stored,
        CommandView::Sleep(_) => event is Slept,
        CommandView::SearchMusic(_) => event is SearchResults,
        CommandView::DownloadTorrent(_) => event is TorrentFile,
        CommandView::AddTorrent(_, _) => event is TorrentAdded,
        CommandView::GetTorrent(_) => event is TorrentInfo,
        CommandView::UploadAudioTrack(_) => event is TrackUploaded,
        CommandView::AddTrackToChannelPlaylist(_, _) => event is TrackLinked,
        CommandView::Created(_) => false,
        CommandView::Return(_) => false,
    }
}

/// The store after `command` was carried out with outcome `event`. A
/// write or delete that succeeded took effect; one that failed, and every
/// other command, leaves the store as it was.
pub open spec fn store_after(store: StoreModel, command: CommandView, event: Event) -> StoreModel {
    if event matches Event::Stored(Ok(_)) {
        match command {
            CommandView::CreateContext(ctx) => StoreModel { context: Some(ctx), ..store },
            CommandView::CreateState(state) => StoreModel { state: Some(state), ..store },
            CommandView::UpdateStatus(status) => StoreModel { status: Some(status), ..store },
            CommandView::UpdateState(state) => StoreModel { state: Some(state), ..store },
            CommandView::DeleteState => StoreModel { state: None, ..store },
            CommandView::DeleteContext => StoreModel { context: None, ..store },
            _ => store,
        }
    } else {
        store
    }
}

/// Whether `command` is of the kind that a run gives when it enters `phase`.
pub open spec fn fits(phase: Phase, command: CommandView) -> bool {
    match phase {
        Phase::Start => false,
        Phase::LoadingContext => command is LoadContext,
        Phase::LoadingState => command is LoadState,
        Phase::MarkingProcessing => command == CommandView::UpdateStatus(
            TrackRequestProcessingStatus::Processing,
        ),
        Phase::Searching(_) => command is SearchMusic,
        Phase::FetchingTorrentFile => command is DownloadTorrent,
        Phase::AddingTorrent => command is AddTorrent,
        Phase::CheckingDownload => command is GetTorrent,
        Phase::AwaitingDownload => command is Sleep,
        Phase::Uploading => command is UploadAudioTrack,
        Phase::Linking => command is AddTrackToChannelPlaylist,
        Phase::Persisting(_) => command is UpdateState,
        Phase::Pacing => command is Sleep,
        Phase::MarkingFailure => command is UpdateStatus,
        Phase::MarkingFinished => command == CommandView::UpdateStatus(
            TrackRequestProcessingStatus::Finished,
        ),
        Phase::DeletingState => command is DeleteState,
        Phase::DeletingContext => command is DeleteContext,
        Phase::Done => command is Return,
    }
}

/// A run, the store it works on, and the command that is being carried out.
pub struct Execution {
    pub run: RunView,
    pub store: StoreModel,
    pub pending: CommandView,
}

impl Execution {
    /// A fresh run begins on `store`.
    pub open spec fn begin(settings: SettingsView, store: StoreModel) -> Execution {
        let (run, pending) = RunView::fresh(settings).next(Event::Started);
        Execution { run, store, pending }
    }

    /// `event` is a possible outcome of the pending command.
    pub open spec fn admits(self, event: Event) -> bool {
        answers(self.store, self.pending, event)
    }

    /// The execution after the pending command ended with `event`.
    pub open spec fn step(self, event: Event) -> Execution {
        let (run, pending) = self.run.next(event);
        Execution { run, store: store_after(self.store, self.pending, event), pending }
    }

    /// The execution after `events`, in order.
    pub open spec fn after(self, events: Seq<Event>) -> Execution
        decreases events.len(),
    {
        if events.len() == 0 {
            self
        } else {
            self.after(events.drop_last()).step(events.last())
        }
    }

    /// Each of `events` is a possible outcome at its place.
    pub open spec fn admits_all(self, events: Seq<Event>) -> bool {
        forall|i: int|
            0 <= i < events.len() ==> (#[trigger] self.after(events.take(i))).admits(events[i])
    }

    /// The store holds the state from which the step in hand began: the
    /// state in memory, or, while the result of a step is being written,
    /// one that projects to that step and whose tried topics the state in
    /// memory extends.
    pub open spec fn checkpointed(self) -> bool {
        match self.run.phase {
            Phase::Persisting(step) => self.store.state matches Some(stored) && stored.step()
                == step && keeps_topics(self.run.state->0.tried_topics, stored.tried_topics)
                && self.pending == CommandView::UpdateState(self.run.state->0),
            _ => self.store.state == self.run.state,
        }
    }

    /// What holds of a run and its store from the first command on.
    pub open spec fn coherent(self) -> bool {
        &&& self.run.wf()
        &&& fits(self.run.phase, self.pending)
        &&& match self.run.phase {
            Phase::Start => false,
            Phase::LoadingContext => true,
            Phase::LoadingState => self.store.context == self.run.context,
            Phase::MarkingFailure => {
                &&& self.store.context == self.run.context
                &&& self.store.state == self.run.state
                &&& self.pending == CommandView::UpdateStatus(
                    status_of_failure(self.run.failure->0),
                )
                &&& !(self.run.failure->0 is StateStorageError)
            },
            Phase::MarkingFinished => {
                &&& self.store.context == self.run.context
                &&& self.store.state == self.run.state
            },
            Phase::DeletingState => self.store.status == Some(
                TrackRequestProcessingStatus::Finished,
            ),
            Phase::DeletingContext => {
                &&& self.store.status == Some(TrackRequestProcessingStatus::Finished)
                &&& self.store.state is None
            },
            Phase::Done => match self.pending {
                CommandView::Return(Ok(_)) => {
                    &&& self.store.status == Some(TrackRequestProcessingStatus::Finished)
                    &&& self.store.state is None
                    &&& self.store.context is None
                },
                CommandView::Return(Err(ProcessingRequestErrorView::StateStorageError(_))) => true,
                CommandView::Return(Err(error)) => {
                    &&& self.store.status == Some(status_of_failure(error))
                    &&& self.store.state is Some
                    &&& self.store.context is Some
                },
                _ => false,
            },
            _ => self.store.context == self.run.context && self.checkpointed(),
        }
    }
}

/// A fresh run that begins is coherent with any store.
pub proof fn lemma_begin_is_coherent(settings: SettingsView, store: StoreModel)
    ensures
        Execution::begin(settings, store).coherent(),
{
}

/// An outcome that the store and the pending command allow is one that
/// the run accepts, and the execution stays coherent over it.
pub proof fn lemma_step_keeps_coherence(x: Execution, event: Event)
    requires
        x.coherent(),
        x.admits(event),
    ensures
        x.run.accepts(event),
        x.step(event).coherent(),
{
}

/// Over events that are possible at their places, an execution that is
/// coherent stays so.
pub proof fn lemma_coherence_lasts(x: Execution, events: Seq<Event>)
    requires
        x.coherent(),
        x.admits_all(events),
    ensures
        x.after(events).coherent(),
    decreases events.len(),
{
    if events.len() > 0 {
        let earlier = events.drop_last();
        assert forall|i: int| 0 <= i < earlier.len() implies (#[trigger] x.after(
            earlier.take(i),
        )).admits(earlier[i]) by {
            assert(earlier.take(i) == events.take(i));
        }
        lemma_coherence_lasts(x, earlier);
        lemma_step_keeps_coherence(x.after(earlier), events.last());
    }
}

/// A run that begins on a store and returns `Ok` leaves neither context
/// nor state behind, and the status `Finished`.
pub proof fn lemma_finished_run_leaves_only_status(
    settings: SettingsView,
    store: StoreModel,
    events: Seq<Event>,
)
    requires
        Execution::begin(settings, store).admits_all(events),
        Execution::begin(settings, store).after(events).pending
            == CommandView::Return(Ok(())),
    ensures
        ({
            let end = Execution::begin(settings, store).after(events);
            &&& end.store.context is None
            &&& end.store.state is None
            &&& end.store.status == Some(TrackRequestProcessingStatus::Finished)
        }),
{
    let x = Execution::begin(settings, store);
    lemma_coherence_lasts(x, events);
}

/// A run that begins on a store and returns an error of a step leaves
/// context and state in place, and the status that the error asks for:
/// `NotFound` where the track was not found, `Failed` otherwise.
pub proof fn lemma_failed_run_keeps_records(
    settings: SettingsView,
    store: StoreModel,
    events: Seq<Event>,
    error: ProcessingRequestErrorView,
)
    requires
        Execution::begin(settings, store).admits_all(events),
        Execution::begin(settings, store).after(events).pending
            == CommandView::Return(Err(error)),
        !(error is StateStorageError),
    ensures
        ({
            let end = Execution::begin(settings, store).after(events);
            &&& end.store.context is Some
            &&& end.store.state is Some
            &&& end.store.status == Some(status_of_failure(error))
        }),
{
    let x = Execution::begin(settings, store);
    lemma_coherence_lasts(x, events);
}

/// A request whose stored state projects to `Finish` is only cleaned up:
/// the run marks it as processing and as finished, deletes state and
/// context, and returns `Ok`, without a word to any collaborator.
pub proof fn lemma_finished_state_is_only_cleaned_up(
    settings: SettingsView,
    store: StoreModel,
    ctx: crate::state::TrackRequestProcessingContext,
    state: crate::state::TrackRequestProcessingState,
)
    requires
        store.context == Some(ctx@),
        store.state == Some(state@),
        state@.step() == TrackRequestProcessingStep::Finish,
    ensures
        ({
            let written = Event::Stored(Ok(()));
            let loading = Execution::begin(settings, store);
            let context_loaded = loading.step(Event::ContextLoaded(Ok(ctx)));
            let state_loaded = context_loaded.step(Event::StateLoaded(Ok(state)));
            let marked = state_loaded.step(written);
            let finished = marked.step(written);
            let state_deleted = finished.step(written);
            let end = state_deleted.step(written);
            &&& loading.admits(Event::ContextLoaded(Ok(ctx)))
            &&& context_loaded.admits(Event::StateLoaded(Ok(state)))
            &&& state_loaded.pending == CommandView::UpdateStatus(
                TrackRequestProcessingStatus::Processing,
            )
            &&& marked.pending == CommandView::UpdateStatus(TrackRequestProcessingStatus::Finished)
            &&& finished.pending == CommandView::DeleteState
            &&& state_deleted.pending == CommandView::DeleteContext
            &&& end.pending == CommandView::Return(Ok(()))
            &&& end.store == (StoreModel {
                context: None,
                state: None,
                status: Some(TrackRequestProcessingStatus::Finished),
            })
        }),
{
}

/// The candidate in hand is given up by `event`: its descriptor lists no
/// file that holds the title, or cannot be read and the run is set to
/// pass such a candidate over, or its finished download has no file that
/// holds the title.
pub open spec fn rejects_candidate(run: RunView, event: Event) -> bool {
    let title = run.context->0.metadata.title;
    match (run.phase, event) {
        (Phase::FetchingTorrentFile, Event::TorrentFile(Ok(data))) => match get_files_spec(
            data@,
            run.settings.separator,
        ) {
            Ok(files) => !any_match(files, title),
            Err(_) => run.settings.skip_unreadable_descriptors,
        },
        (Phase::CheckingDownload, Event::TorrentInfo(Ok(torrent))) => torrent.status
            == crate::adapters::TorrentStatus::Complete && first_match(torrent@.files, title)
            is None,
        _ => false,
    }
}

/// While a run waits for the collaborator of a step, whatever comes back
/// leads to one of three things: the step goes on with the state as it
/// was, the step fails and the state stays as it was, or the step ends and
/// its result is written next. Unless the candidate is given up, that
/// result projects to the same step or to a later one.
pub proof fn lemma_step_never_falls_back(run: RunView, event: Event)
    requires
        run.wf(),
        run.accepts(event),
        run.phase.step() is Some,
        !rejects_candidate(run, event),
    ensures
        ({
            let step = run.phase.step()->0;
            let after = run.next(event).0;
            ||| after.phase.step() == Some(step) && after.state == run.state
            ||| after.phase == Phase::MarkingFailure && after.state == run.state
            ||| after.phase == Phase::Persisting(step) && after.state->0.step().position()
                >= step.position()
        }),
{
}

/// A step whose result is written has moved the request on, unless the
/// state came back unchanged from a download that was still running: a
/// chosen candidate, a kept descriptor, an added torrent, a found file, an
/// upload and an attachment each project to a later step.
pub proof fn lemma_changed_state_is_later_step(run: RunView, event: Event)
    requires
        run.wf(),
        run.accepts(event),
        run.phase.step() is Some,
        run.phase != Phase::AwaitingDownload,
        !rejects_candidate(run, event),
        run.next(event).0.phase is Persisting,
    ensures
        run.next(event).0.state->0.step().position() > run.phase.step()->0.position(),
{
}

/// Giving up a candidate sends the request back to the search: the state
/// that is written next projects to `SearchAudioAlbum`, and it still
/// remembers every topic that was tried.
pub proof fn lemma_rejection_returns_to_search(run: RunView, event: Event)
    requires
        run.wf(),
        run.accepts(event),
        rejects_candidate(run, event),
    ensures
        ({
            let after = run.next(event).0;
            &&& after.phase is Persisting
            &&& after.state->0.step() == TrackRequestProcessingStep::SearchAudioAlbum
            &&& after.state->0.tried_topics == run.state->0.tried_topics
        }),
{
}

/// Until the result of a step is written, the store holds the state from
/// which that step began. So a run that resumes after a crash between the
/// end of a step and the write loads that state, and asks for what the
/// interrupted step asked first.
pub proof fn lemma_crash_before_write_replays_step(
    x: Execution,
    step: TrackRequestProcessingStep,
    ctx: crate::state::TrackRequestProcessingContext,
    state: crate::state::TrackRequestProcessingState,
)
    requires
        x.coherent(),
        x.run.phase == Phase::Persisting(step),
        answers(x.store, CommandView::LoadContext, Event::ContextLoaded(Ok(ctx))),
        answers(x.store, CommandView::LoadState, Event::StateLoaded(Ok(state))),
    ensures
        state@.step() == step,
        ({
            let resumed = Execution::begin(x.run.settings, x.store).step(
                Event::ContextLoaded(Ok(ctx)),
            ).step(Event::StateLoaded(Ok(state))).step(Event::Stored(Ok(())));
            let loaded = RunView {
                context: Some(ctx@),
                state: Some(state@),
                ..RunView::fresh(x.run.settings)
            };
            &&& resumed.run.state == Some(state@)
            &&& ctx@ == x.run.context->0
            &&& (resumed.run, resumed.pending) == loaded.dispatch()
            &&& resumed.run.phase.step() is Some ==> resumed.run.phase.step() == Some(step)
        }),
{
}

/// No outcome makes a run forget a topic: over every step of an
/// execution the tried topics of the state in memory, and those of the
/// state in the store, keep what they had, in order.
pub proof fn lemma_tried_topics_only_grow(x: Execution, event: Event)
    requires
        x.coherent(),
        x.admits(event),
    ensures
        x.run.state matches Some(before) ==> x.step(event).run.state matches Some(after)
            && keeps_topics(after.tried_topics, before.tried_topics),
        x.store.state is Some && x.step(event).store.state is Some ==> keeps_topics(
            x.step(event).store.state->0.tried_topics,
            x.store.state->0.tried_topics,
        ),
{
}

/// The same over a whole execution: as long as the store holds a state
/// of the request, that state remembers every topic that the state at the
/// beginning had tried.
pub proof fn lemma_stored_topics_are_kept(x: Execution, events: Seq<Event>)
    requires
        x.coherent(),
        x.admits_all(events),
        x.store.state is Some,
        x.after(events).store.state is Some,
    ensures
        keeps_topics(x.after(events).store.state->0.tried_topics, x.store.state->0.tried_topics),
    decreases events.len(),
{
    if events.len() > 0 {
        let earlier = events.drop_last();
        assert forall|i: int| 0 <= i < earlier.len() implies (#[trigger] x.after(
            earlier.take(i),
        )).admits(earlier[i]) by {
            assert(earlier.take(i) == events.take(i));
        }
        let y = x.after(earlier);
        lemma_coherence_lasts(x, earlier);
        lemma_stored_topics_are_kept(x, earlier);
    }
}

impl Execution {
    /// The file chosen for upload, in memory and in the store, holds the
    /// title of the request, ignoring case.
    pub open spec fn titled(self) -> bool {
        &&& (self.store.context is Some && self.store.state is Some
            ==> self.store.state->0.path_holds_title(self.store.context->0.metadata.title))
        &&& (self.run.context is Some && self.run.state is Some
            ==> self.run.state->0.path_holds_title(self.run.context->0.metadata.title))
    }
}

/// A run never chooses a file for upload that does not hold the title: if
/// the chosen file holds it before a step of the execution, or none is
/// chosen yet, the same is true after. And what is uploaded is that file,
/// below the download directory.
pub proof fn lemma_uploaded_file_holds_title(x: Execution, event: Event)
    requires
        x.coherent(),
        x.titled(),
        x.admits(event),
    ensures
        x.step(event).titled(),
        x.step(event).pending matches CommandView::UploadAudioTrack(full) ==> exists|
            path: Seq<char>,
        |
            #![trigger full_path_spec(x.run.settings.download_directory, path)]
            full == full_path_spec(x.run.settings.download_directory, path)
                && contains_ignore_case_spec(path, x.run.context->0.metadata.title),
{
}

} // verus!
