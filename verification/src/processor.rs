//! The entry to the pipeline: a processor begins the creation of a
//! request and the runs that process one.

use vstd::prelude::*;
use crate::creation::{CreationPhase, RequestCreation};
use crate::ids::{is_random_uuid, RadioManagerChannelId, RequestId, UserId};
use crate::run::{RequestRun, RunView, Settings, SettingsView};
use crate::state::{
    AudioMetadata, ContextView, CreateRequestOptions, TrackRequestProcessingContext,
};
use crate::text::{is_path_separator, main_separator};

verus! {

/// The creation of requests and the runs that process them, under one
/// set of settings.
pub struct TrackRequestProcessor {
    settings: Settings,
}

impl TrackRequestProcessor {
    /// The settings that every run of this processor gets.
    pub closed spec fn settings(&self) -> SettingsView {
        self.settings@
    }

    /// A processor for the platform it runs on: the components of paths
    /// are parted by the platform's separator, the slash or the backslash.
    /// A descriptor that cannot be read fails its request; `with_settings`
    /// makes a processor that gives such a candidate up for the next
    /// instead.
    pub fn new(download_directory: String) -> (processor: Self)
        ensures
            processor.settings().download_directory == download_directory@,
            is_path_separator(processor.settings().separator),
            !processor.settings().skip_unreadable_descriptors,
    {
        Self {
            settings: Settings {
                download_directory,
                separator: main_separator(),
                skip_unreadable_descriptors: false,
            },
        }
    }

    /// A processor with the given settings.
    pub fn with_settings(settings: Settings) -> (processor: Self)
        ensures
            processor.settings() == settings@,
    {
        Self { settings }
    }

    /// Begins the creation of a request for `track_metadata` on the channel
    /// `target_channel_id`, under a new identifier drawn at random.
    pub fn create_request(
        &self,
        user_id: &UserId,
        track_metadata: &AudioMetadata,
        options: &CreateRequestOptions,
        target_channel_id: &RadioManagerChannelId,
    ) -> (creation: RequestCreation)
        ensures
            creation@.phase == CreationPhase::Start,
            creation@.context == (ContextView {
                metadata: track_metadata@,
                options: *options,
                target_channel_id: *target_channel_id,
            }),
            creation.owner() == *user_id,
            is_random_uuid(creation@.request_id.0),
    {
        let context = TrackRequestProcessingContext::new(
            track_metadata.clone(),
            *options,
            *target_channel_id,
        );
        RequestCreation::new(*user_id, RequestId::generate(), context)
    }

    /// Begins a run that processes the request `request_id` of `user_id`,
    /// from wherever its stored state says it stands.
    pub fn process_request(&self, user_id: &UserId, request_id: &RequestId) -> (run: RequestRun)
        ensures
            run@ == RunView::fresh(self.settings()),
            run@.wf(),
            run.owner() == *user_id,
            run.request() == *request_id,
    {
        RequestRun::new(*user_id, *request_id, self.settings.clone())
    }
}

} // verus!
