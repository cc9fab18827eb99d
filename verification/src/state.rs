//! What is persisted of one request: its immutable context, its progress,
//! and the projection of that progress to the next step.

use vstd::prelude::*;
use crate::ids::{
    DownloadId, RadioManagerChannelId, RadioManagerLinkId, RadioManagerTrackId, TopicId,
    TorrentId,
};

verus! {

/// Title, artist and album of a track, as the requester wrote them.
#[derive(Debug, PartialEq, Eq)]
pub struct AudioMetadata {
    pub title: String,
    pub artist: String,
    pub album: String,
}

/// The metadata of a track as a mathematical value.
pub struct AudioMetadataView {
    pub title: Seq<char>,
    pub artist: Seq<char>,
    pub album: Seq<char>,
}

impl View for AudioMetadata {
    type V = AudioMetadataView;

    open spec fn view(&self) -> AudioMetadataView {
        AudioMetadataView { title: self.title@, artist: self.artist@, album: self.album@ }
    }
}

impl Clone for AudioMetadata {
    fn clone(&self) -> (copy: Self)
        ensures
            copy@ == self@,
    {
        AudioMetadata {
            title: self.title.clone(),
            artist: self.artist.clone(),
            album: self.album.clone(),
        }
    }
}

/// What the requester chose beside the track itself.
#[derive(Clone, Copy, Debug, PartialEq, Eq, Structural)]
pub struct CreateRequestOptions {
    pub validate_metadata: bool,
}

/// What a request asks for. It never changes while the request lives.
#[derive(Debug, PartialEq, Eq)]
pub struct TrackRequestProcessingContext {
    pub metadata: AudioMetadata,
    pub options: CreateRequestOptions,
    pub target_channel_id: RadioManagerChannelId,
}

/// A context as a mathematical value.
pub struct ContextView {
    pub metadata: AudioMetadataView,
    pub options: CreateRequestOptions,
    pub target_channel_id: RadioManagerChannelId,
}

impl View for TrackRequestProcessingContext {
    type V = ContextView;

    open spec fn view(&self) -> ContextView {
        ContextView {
            metadata: self.metadata@,
            options: self.options,
            target_channel_id: self.target_channel_id,
        }
    }
}

impl Clone for TrackRequestProcessingContext {
    fn clone(&self) -> (copy: Self)
        ensures
            copy@ == self@,
    {
        TrackRequestProcessingContext {
            metadata: self.metadata.clone(),
            options: self.options,
            target_channel_id: self.target_channel_id,
        }
    }
}

impl TrackRequestProcessingContext {
    /// The context of a request for the track `metadata` on the channel
    /// `target_channel_id`.
    pub fn new(
        metadata: AudioMetadata,
        options: CreateRequestOptions,
        target_channel_id: RadioManagerChannelId,
    ) -> (ctx: Self)
        ensures
            ctx.metadata == metadata,
            ctx.options == options,
            ctx.target_channel_id == target_channel_id,
    {
        Self { metadata, options, target_channel_id }
    }
}

/// The steps of the pipeline, in pipeline order.
#[derive(Clone, Copy, Debug, PartialEq, Eq, Structural)]
pub enum TrackRequestProcessingStep {
    SearchAudioAlbum,
    DownloadTorrentFile,
    DownloadAlbum,
    CheckDownloadStatus,
    UploadToRadioManager,
    AddToRadioManagerChannel,
    Finish,
}

impl TrackRequestProcessingStep {
    /// The place of the step in pipeline order, counted from 0.
    pub open spec fn position(self) -> nat {
        match self {
            TrackRequestProcessingStep::SearchAudioAlbum => 0,
            TrackRequestProcessingStep::DownloadTorrentFile => 1,
            TrackRequestProcessingStep::DownloadAlbum => 2,
            TrackRequestProcessingStep::CheckDownloadStatus => 3,
            TrackRequestProcessingStep::UploadToRadioManager => 4,
            TrackRequestProcessingStep::AddToRadioManagerChannel => 5,
            TrackRequestProcessingStep::Finish => 6,
        }
    }
}

/// What callers see of a request.
#[derive(Clone, Copy, Debug, PartialEq, Eq, Structural)]
pub enum TrackRequestProcessingStatus {
    Processing,
    NotFound,
    Failed,
    Finished,
}

/// Progress of one request. Which optional fields are present decides the
/// next step; there is no separate "current step" field.
#[derive(Debug, PartialEq, Eq)]
pub struct TrackRequestProcessingState {
    /// Topics already attempted, oldest first.
    pub tried_topics: Vec<TopicId>,
    /// The candidate under evaluation.
    pub current_download_id: Option<DownloadId>,
    /// The raw torrent descriptor of the candidate.
    pub current_torrent_data: Option<Vec<u8>>,
    /// The candidate's handle at the torrent engine.
    pub current_torrent_id: Option<TorrentId>,
    /// Where the matching audio file lies below the download directory.
    pub path_to_downloaded_file: Option<String>,
    /// Set once the file is uploaded.
    pub radio_manager_track_id: Option<RadioManagerTrackId>,
    /// Set once the track is attached to the channel.
    pub radio_manager_link_id: Option<RadioManagerLinkId>,
}

/// A state as a mathematical value.
pub struct StateView {
    pub tried_topics: Seq<TopicId>,
    pub current_download_id: Option<DownloadId>,
    pub current_torrent_data: Option<Seq<u8>>,
    pub current_torrent_id: Option<TorrentId>,
    pub path_to_downloaded_file: Option<Seq<char>>,
    pub radio_manager_track_id: Option<RadioManagerTrackId>,
    pub radio_manager_link_id: Option<Seq<char>>,
}

impl StateView {
    /// The state of a request on which no work was done yet.
    pub open spec fn empty() -> StateView {
        StateView {
            tried_topics: Seq::empty(),
            current_download_id: None,
            current_torrent_data: None,
            current_torrent_id: None,
            path_to_downloaded_file: None,
            radio_manager_track_id: None,
            radio_manager_link_id: None,
        }
    }

    /// Whether the field that row `row` of the projection table looks at
    /// is absent. The last row, 6, has no condition.
    pub open spec fn row_holds(self, row: nat) -> bool {
        if row == 0 {
            self.current_download_id is None
        } else if row == 1 {
            self.current_torrent_data is None
        } else if row == 2 {
            self.current_torrent_id is None
        } else if row == 3 {
            self.path_to_downloaded_file is None
        } else if row == 4 {
            self.radio_manager_track_id is None
        } else if row == 5 {
            self.radio_manager_link_id is None
        } else {
            true
        }
    }

    /// The step whose row is the first of the table that holds.
    pub open spec fn step(self) -> TrackRequestProcessingStep {
        if self.row_holds(0) {
            TrackRequestProcessingStep::SearchAudioAlbum
        } else if self.row_holds(1) {
            TrackRequestProcessingStep::DownloadTorrentFile
        } else if self.row_holds(2) {
            TrackRequestProcessingStep::DownloadAlbum
        } else if self.row_holds(3) {
            TrackRequestProcessingStep::CheckDownloadStatus
        } else if self.row_holds(4) {
            TrackRequestProcessingStep::UploadToRadioManager
        } else if self.row_holds(5) {
            TrackRequestProcessingStep::AddToRadioManagerChannel
        } else {
            TrackRequestProcessingStep::Finish
        }
    }
}

impl View for TrackRequestProcessingState {
    type V = StateView;

    open spec fn view(&self) -> StateView {
        StateView {
            tried_topics: self.tried_topics@,
            current_download_id: self.current_download_id,
            current_torrent_data: match self.current_torrent_data {
                Some(data) => Some(data@),
                None => None,
            },
            current_torrent_id: self.current_torrent_id,
            path_to_downloaded_file: match self.path_to_downloaded_file {
                Some(path) => Some(path@),
                None => None,
            },
            radio_manager_track_id: self.radio_manager_track_id,
            radio_manager_link_id: match self.radio_manager_link_id {
                Some(link) => Some(link@),
                None => None,
            },
        }
    }
}

impl Default for TrackRequestProcessingState {
    fn default() -> (state: Self)
        ensures
            state@ == StateView::empty(),
    {
        TrackRequestProcessingState {
            tried_topics: Vec::new(),
            current_download_id: None,
            current_torrent_data: None,
            current_torrent_id: None,
            path_to_downloaded_file: None,
            radio_manager_track_id: None,
            radio_manager_link_id: None,
        }
    }
}

impl Clone for TrackRequestProcessingState {
    fn clone(&self) -> (copy: Self)
        ensures
            copy@ == self@,
    {
        TrackRequestProcessingState {
            tried_topics: self.tried_topics.clone(),
            current_download_id: self.current_download_id,
            current_torrent_data: match &self.current_torrent_data {
                Some(data) => Some(data.clone()),
                None => None,
            },
            current_torrent_id: self.current_torrent_id,
            path_to_downloaded_file: self.path_to_downloaded_file.clone(),
            radio_manager_track_id: self.radio_manager_track_id,
            radio_manager_link_id: match &self.radio_manager_link_id {
                Some(link) => Some(link.clone()),
                None => None,
            },
        }
    }
}

impl TrackRequestProcessingState {
    /// Projects the state to the step that has to run next.
    pub fn get_step(&self) -> (step: TrackRequestProcessingStep)
        ensures
            step == self@.step(),
    {
        if self.current_download_id.is_none() {
            TrackRequestProcessingStep::SearchAudioAlbum
        } else if self.current_torrent_data.is_none() {
            TrackRequestProcessingStep::DownloadTorrentFile
        } else if self.current_torrent_id.is_none() {
            TrackRequestProcessingStep::DownloadAlbum
        } else if self.path_to_downloaded_file.is_none() {
            TrackRequestProcessingStep::CheckDownloadStatus
        } else if self.radio_manager_track_id.is_none() {
            TrackRequestProcessingStep::UploadToRadioManager
        } else if self.radio_manager_link_id.is_none() {
            TrackRequestProcessingStep::AddToRadioManagerChannel
        } else {
            TrackRequestProcessingStep::Finish
        }
    }
}

/// Every state projects to exactly one step: the one whose row is the first
/// row of the table, in pipeline order, whose condition holds.
pub proof fn lemma_projection_is_first_matching_row(state: StateView)
    ensures
        state.row_holds(state.step().position()),
        forall|row: nat| row < state.step().position() ==> !state.row_holds(row),
        forall|step: TrackRequestProcessingStep|
            state.row_holds(step.position()) && (forall|row: nat|
                row < step.position() ==> !state.row_holds(row)) ==> step == state.step(),
{
}

} // verus!
