//! Bringing a whole playlist over: which of its tracks are new to the
//! target playlist, and how far the work on each of them has come. What
//! is present of the collected data decides the next step, as for a
//! single request.

use vstd::prelude::*;
use crate::state::{AudioMetadata, AudioMetadataView};
use crate::track_fetcher::{DownloadId, TopicId};

verus! {

/// One track of the source playlist.
#[derive(Debug, PartialEq, Eq)]
pub struct PlaylistEntry {
    pub metadata: AudioMetadata,
}

impl View for PlaylistEntry {
    type V = AudioMetadataView;

    open spec fn view(&self) -> AudioMetadataView {
        self.metadata@
    }
}

impl Clone for PlaylistEntry {
    fn clone(&self) -> (copy: Self)
        ensures
            copy@ == self@,
    {
        PlaylistEntry { metadata: self.metadata.clone() }
    }
}

/// One track of the target playlist at the broadcast backend.
#[derive(Debug, PartialEq, Eq)]
pub struct RadioManagerPlaylistEntry {
    pub id: String,
    pub metadata: AudioMetadata,
}

/// Why the work on a playlist stopped.
#[derive(Clone, Copy, Debug, PartialEq, Eq, Structural)]
pub enum PlaylistProcessingError {
    SourcePlaylistNotFound,
}

/// The steps of the work on one track, in order.
#[derive(Clone, Copy, Debug, PartialEq, Eq, Structural)]
pub enum AudioTrackProcessingStep {
    SearchAlbum,
    Downloading,
    Upload,
    AddToChannel,
    Finish,
}

impl AudioTrackProcessingStep {
    /// Whether the work on the track is over.
    pub fn is_finish(&self) -> (finish: bool)
        ensures
            finish == (*self == AudioTrackProcessingStep::Finish),
    {
        matches!(self, AudioTrackProcessingStep::Finish)
    }
}

/// How far the work on one track has come.
#[derive(Debug, PartialEq, Eq)]
pub struct AudioTrackProcessingData {
    pub metadata: AudioMetadata,
    pub tried_topics: Vec<TopicId>,
    pub current_download_id: Option<DownloadId>,
    pub path_to_audio_file: Option<String>,
    pub radioterio_track_id: Option<u64>,
    pub radioterio_channel_id: Option<u64>,
}

impl AudioTrackProcessingData {
    /// The data of a track on which no work was done yet.
    pub fn new(metadata: AudioMetadata) -> (data: Self)
        ensures
            data.metadata == metadata,
            data.is_untouched(),
    {
        AudioTrackProcessingData {
            metadata,
            tried_topics: Vec::new(),
            current_download_id: None,
            path_to_audio_file: None,
            radioterio_track_id: None,
            radioterio_channel_id: None,
        }
    }

    /// No work was done on the track yet.
    pub open spec fn is_untouched(&self) -> bool {
        &&& self.tried_topics@.len() == 0
        &&& self.current_download_id is None
        &&& self.path_to_audio_file is None
        &&& self.radioterio_track_id is None
        &&& self.radioterio_channel_id is None
    }

    /// The step that the data selects: the latest of channel, track and
    /// file that is present names it. A download alone does not: until a
    /// file is found the album is searched.
    pub open spec fn step(&self) -> AudioTrackProcessingStep {
        if self.radioterio_channel_id is Some {
            AudioTrackProcessingStep::Finish
        } else if self.radioterio_track_id is Some {
            AudioTrackProcessingStep::AddToChannel
        } else if self.path_to_audio_file is Some {
            AudioTrackProcessingStep::Upload
        } else {
            AudioTrackProcessingStep::SearchAlbum
        }
    }

    /// Projects the data to the step that has to run next.
    pub fn get_step(&self) -> (step: AudioTrackProcessingStep)
        ensures
            step == self.step(),
    {
        if self.radioterio_channel_id.is_some() {
            return AudioTrackProcessingStep::Finish;
        }
        if self.radioterio_track_id.is_some() {
            return AudioTrackProcessingStep::AddToChannel;
        }
        if self.path_to_audio_file.is_some() {
            return AudioTrackProcessingStep::Upload;
        }
        AudioTrackProcessingStep::SearchAlbum
    }
}

/// The steps of the work on a playlist, in order.
#[derive(Clone, Copy, Debug, PartialEq, Eq, Structural)]
pub enum PlaylistProcessingStep {
    DownloadPlaylist,
    FilterNewTracks,
    StartDownloadingTracks,
    DownloadingTracks,
    Finish,
}

impl PlaylistProcessingStep {
    /// Whether the work on the playlist is over.
    pub fn is_final(&self) -> (last: bool)
        ensures
            last == (*self == PlaylistProcessingStep::Finish),
    {
        matches!(self, PlaylistProcessingStep::Finish)
    }
}

/// What was collected of a playlist so far.
#[derive(Debug, PartialEq, Eq)]
pub struct PlaylistProcessingData {
    pub unfiltered_tracks: Option<Vec<PlaylistEntry>>,
    pub filtered_tracks: Option<Vec<PlaylistEntry>>,
    pub audio_tracks_data: Option<Vec<AudioTrackProcessingData>>,
}

impl Default for PlaylistProcessingData {
    fn default() -> (data: Self)
        ensures
            data.unfiltered_tracks is None,
            data.filtered_tracks is None,
            data.audio_tracks_data is None,
    {
        PlaylistProcessingData {
            unfiltered_tracks: None,
            filtered_tracks: None,
            audio_tracks_data: None,
        }
    }
}

/// The work on each of `tracks` is over.
pub open spec fn all_finished(tracks: Seq<AudioTrackProcessingData>) -> bool {
    forall|i: int|
        0 <= i < tracks.len() ==> (#[trigger] tracks[i]).step() == AudioTrackProcessingStep::Finish
}

/// The name under which a track is compared: artist, album and title with
/// a hyphen between each two.
pub open spec fn track_key(metadata: AudioMetadataView) -> Seq<char> {
    metadata.artist + "-"@ + metadata.album + "-"@ + metadata.title
}

/// A track of the target playlist has the key `key`.
pub open spec fn is_known(existing: Seq<RadioManagerPlaylistEntry>, key: Seq<char>) -> bool {
    exists|i: int| 0 <= i < existing.len() && track_key((#[trigger] existing[i]).metadata@) == key
}

/// Those of the first `count` of `tracks`, in order, whose key no track
/// of the target playlist has.
pub open spec fn new_tracks(
    tracks: Seq<PlaylistEntry>,
    existing: Seq<RadioManagerPlaylistEntry>,
    count: int,
) -> Seq<AudioMetadataView>
    decreases count,
{
    if count <= 0 {
        Seq::empty()
    } else {
        let earlier = new_tracks(tracks, existing, count - 1);
        if is_known(existing, track_key(tracks[count - 1]@)) {
            earlier
        } else {
            earlier.push(tracks[count - 1]@)
        }
    }
}

/// The views of a list of tracks, in order.
pub open spec fn entries_of(tracks: Seq<PlaylistEntry>) -> Seq<AudioMetadataView> {
    Seq::new(tracks.len(), |i: int| tracks[i]@)
}

/// Builds the key under which a track is compared.
pub fn key_of(metadata: &AudioMetadata) -> (key: String)
    ensures
        key@ == track_key(metadata@),
{
    let mut key = metadata.artist.clone();
    key.append("-");
    key.append(metadata.album.as_str());
    key.append("-");
    key.append(metadata.title.as_str());
    key
}

impl PlaylistProcessingData {
    /// The step that the collected data selects: the last kind of data
    /// that is present names it, and the work is over once every track
    /// is.
    pub open spec fn step(&self) -> PlaylistProcessingStep {
        match self.audio_tracks_data {
            Some(tracks) => if all_finished(tracks@) {
                PlaylistProcessingStep::Finish
            } else {
                PlaylistProcessingStep::DownloadingTracks
            },
            None => if self.filtered_tracks is Some {
                PlaylistProcessingStep::StartDownloadingTracks
            } else if self.unfiltered_tracks is Some {
                PlaylistProcessingStep::FilterNewTracks
            } else {
                PlaylistProcessingStep::DownloadPlaylist
            },
        }
    }

    /// Projects the collected data to the step that has to run next.
    pub fn get_step(&self) -> (step: PlaylistProcessingStep)
        ensures
            step == self.step(),
    {
        if let Some(audio_tracks) = &self.audio_tracks_data {
            let mut i: usize = 0;
            while i < audio_tracks.len()
                invariant
                    i <= audio_tracks.len(),
                    self.audio_tracks_data == Some(*audio_tracks),
                    forall|k: int|
                        0 <= k < i ==> (#[trigger] audio_tracks@[k]).step()
                            == AudioTrackProcessingStep::Finish,
                decreases audio_tracks.len() - i,
            {
                if !audio_tracks[i].get_step().is_finish() {
                    return PlaylistProcessingStep::DownloadingTracks;
                }
                i += 1;
            }
            return PlaylistProcessingStep::Finish;
        }
        if self.filtered_tracks.is_some() {
            return PlaylistProcessingStep::StartDownloadingTracks;
        }
        if self.unfiltered_tracks.is_some() {
            return PlaylistProcessingStep::FilterNewTracks;
        }
        PlaylistProcessingStep::DownloadPlaylist
    }

    /// Takes in the source playlist as it was fetched. A playlist that
    /// does not exist is an error, and nothing changes.
    pub fn playlist_downloaded(&mut self, playlist: Option<Vec<PlaylistEntry>>) -> (outcome: Result<
        (),
        PlaylistProcessingError,
    >)
        ensures
            match playlist {
                Some(tracks) => outcome is Ok && final(self).unfiltered_tracks == Some(tracks)
                    && final(self).filtered_tracks == old(self).filtered_tracks
                    && final(self).audio_tracks_data == old(self).audio_tracks_data,
                None => outcome == Err::<(), PlaylistProcessingError>(
                    PlaylistProcessingError::SourcePlaylistNotFound,
                ) && *final(self) == *old(self),
            },
    {
        match playlist {
            Some(tracks) => {
                self.unfiltered_tracks = Some(tracks);
                Ok(())
            },
            None => Err(PlaylistProcessingError::SourcePlaylistNotFound),
        }
    }

    /// Keeps of the fetched tracks those that the target playlist
    /// `existing` does not hold, in their order; all of them where there is
    /// no target playlist yet. The fetched tracks are used up.
    pub fn filter_new_tracks(&mut self, existing: Option<Vec<RadioManagerPlaylistEntry>>)
        ensures
            final(self).unfiltered_tracks is None,
            final(self).audio_tracks_data == old(self).audio_tracks_data,
            final(self).filtered_tracks matches Some(kept) && entries_of(kept@) == ({
                let fetched = match old(self).unfiltered_tracks {
                    Some(tracks) => tracks@,
                    None => Seq::empty(),
                };
                match existing {
                    Some(known) => new_tracks(fetched, known@, fetched.len() as int),
                    None => entries_of(fetched),
                }
            }),
    {
        let fetched = match self.unfiltered_tracks.take() {
            Some(tracks) => tracks,
            None => Vec::new(),
        };
        let kept = match existing {
            Some(known) => {
                let mut keys: Vec<String> = Vec::new();
                let mut k: usize = 0;
                while k < known.len()
                    invariant
                        k <= known.len(),
                        keys.len() == k,
                        forall|i: int|
                            0 <= i < k ==> (#[trigger] keys[i])@ == track_key(known@[i].metadata@),
                    decreases known.len() - k,
                {
                    keys.push(key_of(&known[k].metadata));
                    k += 1;
                }
                let mut kept: Vec<PlaylistEntry> = Vec::new();
                let mut i: usize = 0;
                while i < fetched.len()
                    invariant
                        i <= fetched.len(),
                        keys.len() == known.len(),
                        forall|j: int|
                            0 <= j < keys.len() ==> (#[trigger] keys[j])@ == track_key(
                                known@[j].metadata@,
                            ),
                        entries_of(kept@) == new_tracks(fetched@, known@, i as int),
                    decreases fetched.len() - i,
                {
                    let key = key_of(&fetched[i].metadata);
                    let mut found = false;
                    let mut j: usize = 0;
                    while j < keys.len()
                        invariant
                            j <= keys.len(),
                            keys.len() == known.len(),
                            forall|m: int|
                                0 <= m < keys.len() ==> (#[trigger] keys[m])@ == track_key(
                                    known@[m].metadata@,
                                ),
                            found == exists|m: int|
                                0 <= m < j && track_key((#[trigger] known@[m]).metadata@) == key@,
                        decreases keys.len() - j,
                    {
                        if keys[j] == key {
                            found = true;
                        }
                        j += 1;
                    }
                    if !found {
                        kept.push(fetched[i].clone());
                    }
                    i += 1;
                }
                kept
            },
            None => fetched,
        };
        self.filtered_tracks = Some(kept);
    }

    /// Opens the work on each of the kept tracks. The kept tracks are
    /// used up.
    pub fn start_downloading_tracks(&mut self)
        ensures
            final(self).filtered_tracks is None,
            final(self).unfiltered_tracks == old(self).unfiltered_tracks,
            final(self).audio_tracks_data matches Some(opened) && ({
                let kept = match old(self).filtered_tracks {
                    Some(tracks) => tracks@,
                    None => Seq::empty(),
                };
                &&& opened.len() == kept.len()
                &&& forall|i: int|
                    0 <= i < kept.len() ==> (#[trigger] opened[i]).metadata@ == kept[i]@
                        && opened[i].is_untouched()
            }),
    {
        let mut kept = match self.filtered_tracks.take() {
            Some(tracks) => tracks,
            None => Vec::new(),
        };
        let ghost tracks = kept@;
        let mut opened: Vec<AudioTrackProcessingData> = Vec::new();
        let mut i: usize = 0;
        while i < kept.len()
            invariant
                i <= kept.len(),
                kept@.len() == tracks.len(),
                forall|k: int| 0 <= k < kept.len() ==> (#[trigger] kept[k])@ == tracks[k]@,
                opened.len() == i,
                forall|k: int|
                    0 <= k < i ==> (#[trigger] opened[k]).metadata@ == tracks[k]@
                        && opened[k].is_untouched(),
            decreases kept.len() - i,
        {
            opened.push(AudioTrackProcessingData::new(kept[i].metadata.clone()));
            i += 1;
        }
        self.audio_tracks_data = Some(opened);
    }
}

} // verus!
