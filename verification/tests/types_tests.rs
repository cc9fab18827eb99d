use track_requests::track_fetcher_by_url::{TrackFetcherState, TrackFetcherStep};

#[test]
fn types_should_return_search_audio_album_by_default() {
    let state = TrackFetcherState::default();

    assert_eq!(state.get_step(), TrackFetcherStep::SearchAudioAlbum)
}

#[test]
fn types_should_return_get_album_url_if_current_topic_id_is_set() {
    let state = TrackFetcherState {
        current_topic_id: Some("topic".into()),
        ..TrackFetcherState::default()
    };

    assert_eq!(state.get_step(), TrackFetcherStep::GetAlbumURL)
}

#[test]
fn types_should_return_download_album_if_current_url_is_set() {
    let state = TrackFetcherState {
        current_topic_id: Some("topic".into()),
        current_url: Some(vec![]),
        ..TrackFetcherState::default()
    };

    assert_eq!(state.get_step(), TrackFetcherStep::DownloadAlbum)
}

#[test]
fn types_should_return_check_download_status_if_current_download_id_is_set() {
    let state = TrackFetcherState {
        current_topic_id: Some("topic".into()),
        current_url: Some(vec![]),
        current_download_id: Some("download".into()),
        ..TrackFetcherState::default()
    };

    assert_eq!(state.get_step(), TrackFetcherStep::CheckDownloadStatus)
}

#[test]
fn types_should_return_upload_to_radioterio_if_path_to_downloaded_file_is_set() {
    let state = TrackFetcherState {
        current_topic_id: Some("topic".into()),
        current_url: Some(vec![]),
        current_download_id: Some("download".into()),
        path_to_downloaded_file: Some("path/to/file".into()),
        ..TrackFetcherState::default()
    };

    assert_eq!(state.get_step(), TrackFetcherStep::UploadToRadioManager)
}

#[test]
fn types_should_return_add_track_to_radioterio_channel_if_radioterio_track_id_is_set() {
    let state = TrackFetcherState {
        current_topic_id: Some("topic".into()),
        current_url: Some(vec![]),
        current_download_id: Some("download".into()),
        path_to_downloaded_file: Some("path/to/file".into()),
        radio_manager_track_id: Some(1.into()),
        ..TrackFetcherState::default()
    };

    assert_eq!(state.get_step(), TrackFetcherStep::AddToRadioManagerChannel)
}

#[test]
fn types_should_return_finish_if_radioterio_link_id_is_set() {
    let state = TrackFetcherState {
        current_topic_id: Some("topic".into()),
        current_url: Some(vec![]),
        current_download_id: Some("download".into()),
        path_to_downloaded_file: Some("path/to/file".into()),
        radio_manager_track_id: Some(1.into()),
        radio_manager_link_id: Some("foo".into()),
        ..TrackFetcherState::default()
    };

    assert_eq!(state.get_step(), TrackFetcherStep::Finish)
}
