//! A fetcher that first resolves a topic of the index to the descriptor
//! behind its URL: the progress of one job and its projection to a step.

use vstd::prelude::*;
use crate::ids::{RadioManagerChannelId, RadioManagerLinkId, RadioManagerTrackId};
use crate::track_fetcher::{DownloadId, TopicId};

verus! {

/// What a job asks for.
#[derive(Debug)]
pub struct TrackFetcherContext {
    pub track_title: String,
    pub track_artist: String,
    pub track_album: String,
    pub target_channel_id: RadioManagerChannelId,
}

impl TrackFetcherContext {
    /// The context of a job for the given track on the given channel.
    pub fn new(
        track_title: String,
        track_artist: String,
        track_album: String,
        target_channel_id: RadioManagerChannelId,
    ) -> (ctx: Self)
        ensures
            ctx.track_title == track_title,
            ctx.track_artist == track_artist,
            ctx.track_album == track_album,
            ctx.target_channel_id == target_channel_id,
    {
        Self { track_title, track_artist, track_album, target_channel_id }
    }
}

/// The steps of a job, in order.
#[derive(Clone, Copy, Debug, PartialEq, Eq, Structural)]
pub enum TrackFetcherStep {
    SearchAudioAlbum,
    GetAlbumURL,
    DownloadAlbum,
    CheckDownloadStatus,
    UploadToRadioManager,
    AddToRadioManagerChannel,
    Finish,
}

/// Progress of one job. The first field that is absent, in the order
/// below from `current_topic_id` on, names the next step.
#[derive(Debug)]
pub struct TrackFetcherState {
    pub tried_topics: Vec<TopicId>,
    pub current_topic_id: Option<TopicId>,
    pub current_url: Option<Vec<u8>>,
    pub current_download_id: Option<DownloadId>,
    pub path_to_downloaded_file: Option<String>,
    pub radio_manager_track_id: Option<RadioManagerTrackId>,
    pub radio_manager_link_id: Option<RadioManagerLinkId>,
}

impl Default for TrackFetcherState {
    fn default() -> (state: Self)
        ensures
            state.tried_topics@.len() == 0,
            state.current_topic_id is None,
            state.current_url is None,
            state.current_download_id is None,
            state.path_to_downloaded_file is None,
            state.radio_manager_track_id is None,
            state.radio_manager_link_id is None,
    {
        TrackFetcherState {
            tried_topics: Vec::new(),
            current_topic_id: None,
            current_url: None,
            current_download_id: None,
            path_to_downloaded_file: None,
            radio_manager_track_id: None,
            radio_manager_link_id: None,
        }
    }
}

impl TrackFetcherState {
    /// The step that the presence of the optional fields selects.
    pub open spec fn step(&self) -> TrackFetcherStep {
        if self.current_topic_id is None {
            TrackFetcherStep::SearchAudioAlbum
        } else if self.current_url is None {
            TrackFetcherStep::GetAlbumURL
        } else if self.current_download_id is None {
            TrackFetcherStep::DownloadAlbum
        } else if self.path_to_downloaded_file is None {
            TrackFetcherStep::CheckDownloadStatus
        } else if self.radio_manager_track_id is None {
            TrackFetcherStep::UploadToRadioManager
        } else if self.radio_manager_link_id is None {
            TrackFetcherStep::AddToRadioManagerChannel
        } else {
            TrackFetcherStep::Finish
        }
    }

    /// Projects the state to the step that has to run next.
    pub fn get_step(&self) -> (step: TrackFetcherStep)
        ensures
            step == self.step(),
    {
        if self.current_topic_id.is_none() {
            TrackFetcherStep::SearchAudioAlbum
        } else if self.current_url.is_none() {
            TrackFetcherStep::GetAlbumURL
        } else if self.current_download_id.is_none() {
            TrackFetcherStep::DownloadAlbum
        } else if self.path_to_downloaded_file.is_none() {
            TrackFetcherStep::CheckDownloadStatus
        } else if self.radio_manager_track_id.is_none() {
            TrackFetcherStep::UploadToRadioManager
        } else if self.radio_manager_link_id.is_none() {
            TrackFetcherStep::AddToRadioManagerChannel
        } else {
            TrackFetcherStep::Finish
        }
    }
}

} // verus!
