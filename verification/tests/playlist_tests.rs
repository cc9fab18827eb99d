use track_requests::in_memory::MemoryBasedStorage;
use track_requests::playlist::{
    key_of, AudioTrackProcessingData, AudioTrackProcessingStep, PlaylistEntry,
    PlaylistProcessingData, PlaylistProcessingError, PlaylistProcessingStep,
    RadioManagerPlaylistEntry,
};
use track_requests::state::AudioMetadata;

fn track(number: u32) -> PlaylistEntry {
    PlaylistEntry {
        metadata: AudioMetadata {
            title: format!("Track Title {}", number),
            artist: format!("Track Artist {}", number),
            album: format!("Track Album {}", number),
        },
    }
}

/// The source playlist as the provider hands it out.
fn source_playlist(playlist_id: &str) -> Option<Vec<PlaylistEntry>> {
    if playlist_id == "ExistingPlaylistId" {
        Some(vec![track(1), track(2), track(3)])
    } else {
        None
    }
}

/// The target playlist as the broadcast backend hands it out.
fn target_playlist(playlist_id: &str) -> Option<Vec<RadioManagerPlaylistEntry>> {
    if playlist_id == "ExistingPlaylistId" {
        Some(vec![RadioManagerPlaylistEntry {
            id: String::from("entry1"),
            metadata: track(2).metadata,
        }])
    } else {
        None
    }
}

#[test]
fn test_download_source_playlist() {
    let mut processing_data = PlaylistProcessingData::default();

    assert_eq!(
        processing_data.get_step(),
        PlaylistProcessingStep::DownloadPlaylist
    );

    let result = processing_data.playlist_downloaded(source_playlist("ExistingPlaylistId"));

    assert!(result.is_ok());
    assert_eq!(
        processing_data.get_step(),
        PlaylistProcessingStep::FilterNewTracks
    );
    assert_eq!(
        processing_data.unfiltered_tracks,
        Some(vec![track(1), track(2), track(3)])
    );
}

#[test]
fn missing_source_playlist_is_an_error() {
    let mut processing_data = PlaylistProcessingData::default();
    let result = processing_data.playlist_downloaded(source_playlist("NoSuchPlaylist"));
    assert_eq!(result, Err(PlaylistProcessingError::SourcePlaylistNotFound));
    assert_eq!(processing_data, PlaylistProcessingData::default());
}

#[test]
fn test_filtering_new_tracks() {
    let mut processing_data = PlaylistProcessingData {
        unfiltered_tracks: Some(vec![track(1), track(2), track(3)]),
        ..PlaylistProcessingData::default()
    };

    assert_eq!(
        processing_data.get_step(),
        PlaylistProcessingStep::FilterNewTracks
    );

    processing_data.filter_new_tracks(target_playlist("ExistingPlaylistId"));

    assert_eq!(
        processing_data.get_step(),
        PlaylistProcessingStep::StartDownloadingTracks
    );
    assert_eq!(
        processing_data.filtered_tracks,
        Some(vec![track(1), track(3)])
    );
    assert_eq!(processing_data.unfiltered_tracks, None);
}

#[test]
fn every_track_is_new_without_a_target_playlist() {
    let mut processing_data = PlaylistProcessingData {
        unfiltered_tracks: Some(vec![track(1), track(2)]),
        ..PlaylistProcessingData::default()
    };
    processing_data.filter_new_tracks(target_playlist("NoSuchPlaylist"));
    assert_eq!(processing_data.filtered_tracks, Some(vec![track(1), track(2)]));

    let mut nothing_fetched = PlaylistProcessingData::default();
    nothing_fetched.filter_new_tracks(target_playlist("ExistingPlaylistId"));
    assert_eq!(nothing_fetched.filtered_tracks, Some(vec![]));
}

#[test]
fn tracks_are_compared_by_artist_album_and_title() {
    let metadata = AudioMetadata {
        title: "Children".into(),
        artist: "Robert Miles".into(),
        album: "Dreamland".into(),
    };
    assert_eq!(key_of(&metadata), "Robert Miles-Dreamland-Children");

    // The same track under another case is another track.
    let mut other = track(2);
    other.metadata.title = "track title 2".into();
    let mut processing_data = PlaylistProcessingData {
        unfiltered_tracks: Some(vec![other, track(2), track(2)]),
        ..PlaylistProcessingData::default()
    };
    processing_data.filter_new_tracks(target_playlist("ExistingPlaylistId"));
    assert_eq!(processing_data.filtered_tracks.map(|tracks| tracks.len()), Some(1));
}

#[test]
fn test_start_downloading_new_tracks() {
    let mut processing_data = PlaylistProcessingData {
        filtered_tracks: Some(vec![track(1), track(3)]),
        ..PlaylistProcessingData::default()
    };

    assert_eq!(
        processing_data.get_step(),
        PlaylistProcessingStep::StartDownloadingTracks
    );

    processing_data.start_downloading_tracks();

    assert_eq!(
        processing_data.get_step(),
        PlaylistProcessingStep::DownloadingTracks
    );
    assert_eq!(
        processing_data.audio_tracks_data,
        Some(vec![
            AudioTrackProcessingData::new(track(1).metadata),
            AudioTrackProcessingData::new(track(3).metadata),
        ])
    );
    for track_data in processing_data.audio_tracks_data.unwrap() {
        assert_eq!(track_data.get_step(), AudioTrackProcessingStep::SearchAlbum);
    }
}

#[test]
fn playlist_is_finished_once_every_track_is() {
    let finished = |number: u32| AudioTrackProcessingData {
        radioterio_channel_id: Some(1),
        ..AudioTrackProcessingData::new(track(number).metadata)
    };
    let mut processing_data = PlaylistProcessingData {
        audio_tracks_data: Some(vec![finished(1), AudioTrackProcessingData::new(track(2).metadata)]),
        ..PlaylistProcessingData::default()
    };
    assert_eq!(processing_data.get_step(), PlaylistProcessingStep::DownloadingTracks);
    assert!(!processing_data.get_step().is_final());

    processing_data.audio_tracks_data = Some(vec![finished(1), finished(2)]);
    assert_eq!(processing_data.get_step(), PlaylistProcessingStep::Finish);
    assert!(processing_data.get_step().is_final());

    // No track at all: nothing is left to do.
    processing_data.audio_tracks_data = Some(vec![]);
    assert_eq!(processing_data.get_step(), PlaylistProcessingStep::Finish);
}

#[test]
fn step_of_a_track_follows_what_is_present() {
    let mut data = AudioTrackProcessingData::new(track(1).metadata);
    assert_eq!(data.get_step(), AudioTrackProcessingStep::SearchAlbum);
    data.current_download_id = Some("download".into());
    assert_eq!(data.get_step(), AudioTrackProcessingStep::SearchAlbum);
    data.path_to_audio_file = Some("path/to/file".into());
    assert_eq!(data.get_step(), AudioTrackProcessingStep::Upload);
    data.radioterio_track_id = Some(1);
    assert_eq!(data.get_step(), AudioTrackProcessingStep::AddToChannel);
    data.radioterio_channel_id = Some(2);
    assert_eq!(data.get_step(), AudioTrackProcessingStep::Finish);
    assert!(data.get_step().is_finish());
    assert!(!AudioTrackProcessingStep::Downloading.is_finish());
}

#[test]
fn store_in_memory_goes_by_both_names() {
    let mut storage = MemoryBasedStorage::new();
    storage.save("1-state", "key", "value");
    assert_eq!(storage.get("1-state", "key"), Some("value".to_string()));
    storage.delete("1-state", "key");
    assert_eq!(storage.get_all("1-state"), None);
}
