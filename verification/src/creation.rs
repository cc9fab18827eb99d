//! The creation of a request: its context, an empty state and the status
//! `Processing` are written, in this order, and the identifier is handed
//! out. Like a run, the creation decides and the driver acts.

use vstd::prelude::*;
use crate::ids::{RequestId, UserId};
use crate::protocol::{Command, CommandView, CreatingJobError, CreatingJobErrorView, Event};
use crate::executions::{answers, store_after, StoreModel};
use crate::state::{
    ContextView, StateView, TrackRequestProcessingContext, TrackRequestProcessingState,
    TrackRequestProcessingStatus,
};

verus! {

/// Where a creation stands.
#[derive(Clone, Copy, Debug, PartialEq, Eq, Structural)]
pub enum CreationPhase {
    Start,
    CreatingContext,
    CreatingState,
    MarkingProcessing,
    Done,
}

/// A creation as a mathematical value.
pub struct CreationView {
    pub phase: CreationPhase,
    pub request_id: RequestId,
    pub context: ContextView,
}

impl CreationView {
    /// Which events the creation takes in its phase.
    pub open spec fn accepts(self, event: Event) -> bool {
        match self.phase {
            CreationPhase::Start => event is Started,
            CreationPhase::Done => false,
            _ => event is Stored,
        }
    }

    /// The creation ends with `outcome`.
    pub open spec fn ended(self, outcome: Result<RequestId, CreatingJobErrorView>) -> (
        CreationView,
        CommandView,
    ) {
        (CreationView { phase: CreationPhase::Done, ..self }, CommandView::Created(outcome))
    }

    /// The creation after `event`, and the command it gives then. A
    /// write that fails ends the creation with the error of the store.
    pub open spec fn next(self, event: Event) -> (CreationView, CommandView) {
        match (self.phase, event) {
            (CreationPhase::Start, Event::Started) => (
                CreationView { phase: CreationPhase::CreatingContext, ..self },
                CommandView::CreateContext(self.context),
            ),
            (CreationPhase::CreatingContext, Event::Stored(Ok(_))) => (
                CreationView { phase: CreationPhase::CreatingState, ..self },
                CommandView::CreateState(StateView::empty()),
            ),
            (CreationPhase::CreatingState, Event::Stored(Ok(_))) => (
                CreationView { phase: CreationPhase::MarkingProcessing, ..self },
                CommandView::UpdateStatus(TrackRequestProcessingStatus::Processing),
            ),
            (CreationPhase::MarkingProcessing, Event::Stored(Ok(_))) => self.ended(
                Ok(self.request_id),
            ),
            (_, Event::Stored(Err(error))) => self.ended(
                Err(CreatingJobErrorView::StateStorageError(error@)),
            ),
            _ => arbitrary(),
        }
    }
}

/// The creation of one request.
pub struct RequestCreation {
    phase: CreationPhase,
    user_id: UserId,
    request_id: RequestId,
    context: TrackRequestProcessingContext,
}

impl View for RequestCreation {
    type V = CreationView;

    closed spec fn view(&self) -> CreationView {
        CreationView { phase: self.phase, request_id: self.request_id, context: self.context@ }
    }
}

impl RequestCreation {
    /// The user for whom the request is created.
    pub closed spec fn owner(&self) -> UserId {
        self.user_id
    }

    /// A creation on which nothing was done yet.
    pub fn new(
        user_id: UserId,
        request_id: RequestId,
        context: TrackRequestProcessingContext,
    ) -> (creation: Self)
        ensures
            creation@ == (CreationView {
                phase: CreationPhase::Start,
                request_id,
                context: context@,
            }),
            creation.owner() == user_id,
    {
        RequestCreation { phase: CreationPhase::Start, user_id, request_id, context }
    }

    /// The user for whom the request is created.
    pub fn user_id(&self) -> (user_id: UserId)
        ensures
            user_id == self.owner(),
    {
        self.user_id
    }

    /// The identifier of the request that is created.
    pub fn request_id(&self) -> (request_id: RequestId)
        ensures
            request_id == self@.request_id,
    {
        self.request_id
    }

    /// Whether the creation takes `event` in its phase.
    pub fn accepts(&self, event: &Event) -> (yes: bool)
        ensures
            yes == self@.accepts(*event),
    {
        match self.phase {
            CreationPhase::Start => matches!(event, Event::Started),
            CreationPhase::Done => false,
            _ => matches!(event, Event::Stored(_)),
        }
    }

    /// Takes what came of the last command and gives the next command.
    /// After `Command::Created` the creation is over and accepts nothing.
    pub fn advance(&mut self, event: Event) -> (command: Command)
        requires
            old(self)@.accepts(event),
        ensures
            (final(self)@, command@) == old(self)@.next(event),
            final(self).owner() == old(self).owner(),
    {
        match event {
            Event::Started => {
                self.phase = CreationPhase::CreatingContext;
                Command::CreateContext(self.context.clone())
            },
            Event::Stored(Ok(_)) => match self.phase {
                CreationPhase::CreatingContext => {
                    self.phase = CreationPhase::CreatingState;
                    Command::CreateState(TrackRequestProcessingState::default())
                },
                CreationPhase::CreatingState => {
                    self.phase = CreationPhase::MarkingProcessing;
                    Command::UpdateStatus(TrackRequestProcessingStatus::Processing)
                },
                CreationPhase::MarkingProcessing => {
                    self.phase = CreationPhase::Done;
                    Command::Created(Ok(self.request_id))
                },
                _ => vstd::pervasive::unreached(),
            },
            Event::Stored(Err(error)) => {
                self.phase = CreationPhase::Done;
                Command::Created(Err(CreatingJobError::StateStorageError(error)))
            },
            _ => vstd::pervasive::unreached(),
        }
    }
}

/// A creation whose three writes succeed hands out the identifier, and
/// has left in the store the context, the empty state and the status
/// `Processing`.
pub proof fn lemma_creation_stores_request(creation: CreationView, store: StoreModel)
    requires
        creation.phase == CreationPhase::Start,
    ensures
        ({
            let written = Event::Stored(Ok(()));
            let (first, create_context) = creation.next(Event::Started);
            let (second, create_state) = first.next(written);
            let (third, update_status) = second.next(written);
            let (last, outcome) = third.next(written);
            &&& answers(store, create_context, written)
            &&& answers(store, create_state, written)
            &&& answers(store, update_status, written)
            &&& outcome == CommandView::Created(Ok(creation.request_id))
            &&& store_after(
                store_after(store_after(store, create_context, written), create_state, written),
                update_status,
                written,
            ) == (StoreModel {
                context: Some(creation.context),
                state: Some(StateView::empty()),
                status: Some(TrackRequestProcessingStatus::Processing),
            })
        }),
{
}

/// A write that fails ends the creation with the error of the store, and
/// nothing more is written.
pub proof fn lemma_failed_write_ends_creation(
    creation: CreationView,
    error: crate::adapters::StateStorageError,
)
    requires
        creation.accepts(Event::Stored(Err(error))),
    ensures
        creation.next(Event::Stored(Err(error))).1 == CommandView::Created(
            Err(CreatingJobErrorView::StateStorageError(error@)),
        ),
        creation.next(Event::Stored(Err(error))).0.phase == CreationPhase::Done,
{
}

} // verus!
