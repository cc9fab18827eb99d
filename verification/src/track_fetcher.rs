//! A fetcher that follows a topic of the index to its download: the
//! progress of one job and its projection to a step. Topics and downloads
//! are known by name here.

use vstd::prelude::*;
use crate::ids::RadioManagerChannelId;

verus! {

/// The name of a topic of the index.
#[derive(Debug, PartialEq, Eq, Hash)]
pub struct TopicId(pub String);

/// The name of a download.
#[derive(Debug, PartialEq, Eq, Hash)]
pub struct DownloadId(pub String);

/// An uploaded track at the broadcast backend.
#[derive(Clone, Copy, Debug, PartialEq, Eq, Hash, Structural)]
pub struct RadioterioTrackId(pub u64);

/// A playlist attachment at the broadcast backend.
#[derive(Debug, PartialEq, Eq, Hash)]
pub struct RadioterioLinkId(pub String);

impl From<&str> for TopicId {
    fn from(name: &str) -> (id: Self)
        ensures
            id.0@ == name@,
    {
        TopicId(String::from_str(name))
    }
}

impl vstd::std_specs::convert::FromSpecImpl<&str> for TopicId {
    open spec fn obeys_from_spec() -> bool {
        false
    }

    open spec fn from_spec(name: &str) -> Self {
        arbitrary()
    }
}

impl From<&str> for DownloadId {
    fn from(name: &str) -> (id: Self)
        ensures
            id.0@ == name@,
    {
        DownloadId(String::from_str(name))
    }
}

impl vstd::std_specs::convert::FromSpecImpl<&str> for DownloadId {
    open spec fn obeys_from_spec() -> bool {
        false
    }

    open spec fn from_spec(name: &str) -> Self {
        arbitrary()
    }
}

impl From<u64> for RadioterioTrackId {
    fn from(value: u64) -> (id: Self) {
        RadioterioTrackId(value)
    }
}

impl vstd::std_specs::convert::FromSpecImpl<u64> for RadioterioTrackId {
    open spec fn obeys_from_spec() -> bool {
        true
    }

    open spec fn from_spec(value: u64) -> Self {
        RadioterioTrackId(value)
    }
}

impl From<&str> for RadioterioLinkId {
    fn from(name: &str) -> (id: Self)
        ensures
            id.0@ == name@,
    {
        RadioterioLinkId(String::from_str(name))
    }
}

impl vstd::std_specs::convert::FromSpecImpl<&str> for RadioterioLinkId {
    open spec fn obeys_from_spec() -> bool {
        false
    }

    open spec fn from_spec(name: &str) -> Self {
        arbitrary()
    }
}

/// What a job asks for.
#[derive(Debug)]
pub struct TrackFetcherContext {
    pub track_title: String,
    pub track_artist: String,
    pub track_album: String,
    pub target_channel_id: RadioManagerChannelId,
}

impl TrackFetcherContext {
    /// The context of a job for the given track on the given channel.
    pub fn new(
        track_title: String,
        track_artist: String,
        track_album: String,
        target_channel_id: RadioManagerChannelId,
    ) -> (ctx: Self)
        ensures
            ctx.track_title == track_title,
            ctx.track_artist == track_artist,
            ctx.track_album == track_album,
            ctx.target_channel_id == target_channel_id,
    {
        Self { track_title, track_artist, track_album, target_channel_id }
    }
}

/// The steps of a job, in order.
#[derive(Clone, Copy, Debug, PartialEq, Eq, Structural)]
pub enum TrackFetcherStep {
    FindTrackAlbum,
    DownloadTorrent,
    DownloadTrackAlbum,
    UploadTrackToRadioterio,
    AddTrackToRadioterioChannel,
    Finish,
}

/// Progress of one job. The first field that is absent, in the order
/// below from `current_topic_id` on, names the next step.
#[derive(Debug)]
pub struct TrackFetcherState {
    pub tried_topics: Vec<TopicId>,
    pub current_topic_id: Option<TopicId>,
    pub current_download_id: Option<DownloadId>,
    pub path_to_downloaded_file: Option<String>,
    pub radioterio_track_id: Option<RadioterioTrackId>,
    pub radioterio_link_id: Option<RadioterioLinkId>,
}

impl Default for TrackFetcherState {
    fn default() -> (state: Self)
        ensures
            state.tried_topics@.len() == 0,
            state.current_topic_id is None,
            state.current_download_id is None,
            state.path_to_downloaded_file is None,
            state.radioterio_track_id is None,
            state.radioterio_link_id is None,
    {
        TrackFetcherState {
            tried_topics: Vec::new(),
            current_topic_id: None,
            current_download_id: None,
            path_to_downloaded_file: None,
            radioterio_track_id: None,
            radioterio_link_id: None,
        }
    }
}

impl TrackFetcherState {
    /// The step that the presence of the optional fields selects.
    pub open spec fn step(&self) -> TrackFetcherStep {
        if self.current_topic_id is None {
            TrackFetcherStep::FindTrackAlbum
        } else if self.current_download_id is None {
            TrackFetcherStep::DownloadTorrent
        } else if self.path_to_downloaded_file is None {
            TrackFetcherStep::DownloadTrackAlbum
        } else if self.radioterio_track_id is None {
            TrackFetcherStep::UploadTrackToRadioterio
        } else if self.radioterio_link_id is None {
            TrackFetcherStep::AddTrackToRadioterioChannel
        } else {
            TrackFetcherStep::Finish
        }
    }

    /// Projects the state to the step that has to run next.
    pub fn get_step(&self) -> (step: TrackFetcherStep)
        ensures
            step == self.step(),
    {
        if self.current_topic_id.is_none() {
            TrackFetcherStep::FindTrackAlbum
        } else if self.current_download_id.is_none() {
            TrackFetcherStep::DownloadTorrent
        } else if self.path_to_downloaded_file.is_none() {
            TrackFetcherStep::DownloadTrackAlbum
        } else if self.radioterio_track_id.is_none() {
            TrackFetcherStep::UploadTrackToRadioterio
        } else if self.radioterio_link_id.is_none() {
            TrackFetcherStep::AddTrackToRadioterioChannel
        } else {
            TrackFetcherStep::Finish
        }
    }
}

} // verus!
