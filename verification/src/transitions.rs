//! How the answer of a collaborator changes the progress of a request.
//! Each step of the pipeline has one transition; the projection of the
//! state to a step is the only record of progress.

use vstd::prelude::*;
use crate::adapters::{topics_of, TopicData, TopicDataView, Torrent, TorrentStatus, TorrentView};
use crate::ids::{RadioManagerLinkId, RadioManagerTrackId, TopicId, TorrentId};
use crate::state::{AudioMetadata, AudioMetadataView, StateView, TrackRequestProcessingState};
use crate::text::{any_match, find_first_match, first_match, views_of};

verus! {

/// The queries that are tried against the index, in this order.
pub open spec fn search_queries_spec(metadata: AudioMetadataView) -> Seq<Seq<char>> {
    seq![
        metadata.artist + " - "@ + metadata.album,
        metadata.artist + " дискография"@,
        metadata.artist + " discography"@,
        metadata.artist + " дискографія"@,
    ]
}

/// How many queries are tried for one search.
pub const SEARCH_QUERIES: usize = 4;

/// `index` is the first of `results` whose topic is not among `tried`.
pub open spec fn is_first_untried(
    tried: Seq<TopicId>,
    results: Seq<TopicDataView>,
    index: int,
) -> bool {
    &&& 0 <= index < results.len()
    &&& !tried.contains(results[index].topic_id)
    &&& forall|earlier: int|
        0 <= earlier < index ==> tried.contains((#[trigger] results[earlier]).topic_id)
}

/// The first of `results` whose topic is not among `tried`.
pub open spec fn first_untried(tried: Seq<TopicId>, results: Seq<TopicDataView>) -> Option<int> {
    if exists|index: int| is_first_untried(tried, results, index) {
        Some(choose|index: int| is_first_untried(tried, results, index))
    } else {
        None
    }
}

/// `later` holds every topic of `earlier`, at the same place.
pub open spec fn keeps_topics(later: Seq<TopicId>, earlier: Seq<TopicId>) -> bool {
    &&& earlier.len() <= later.len()
    &&& forall|i: int| 0 <= i < earlier.len() ==> later[i] == earlier[i]
}

/// The full path of a downloaded file: the download directory, a slash and
/// the path below it.
pub open spec fn full_path_spec(download_directory: Seq<char>, path: Seq<char>) -> Seq<char> {
    download_directory + "/"@ + path
}

impl StateView {
    /// The state after the search answered with `results`: the first
    /// untried topic becomes the candidate and is remembered as tried.
    /// Without an untried topic nothing changes.
    pub open spec fn after_search(self, results: Seq<TopicDataView>) -> StateView {
        match first_untried(self.tried_topics, results) {
            Some(index) => StateView {
                tried_topics: self.tried_topics.push(results[index].topic_id),
                current_download_id: Some(results[index].download_id),
                ..self
            },
            None => self,
        }
    }

    /// The state after the candidate's descriptor arrived: it is kept if
    /// one of the files it lists holds the title, else the candidate is
    /// dropped.
    pub open spec fn after_torrent_file(
        self,
        title: Seq<char>,
        torrent_data: Seq<u8>,
        files: Seq<Seq<char>>,
    ) -> StateView {
        if any_match(files, title) {
            StateView { current_torrent_data: Some(torrent_data), ..self }
        } else {
            StateView { current_download_id: None, ..self }
        }
    }

    /// The state after the candidate was given up before its descriptor
    /// was kept.
    pub open spec fn without_candidate(self) -> StateView {
        StateView { current_download_id: None, ..self }
    }

    /// The state after the torrent engine took the descriptor.
    pub open spec fn after_torrent_added(self, torrent_id: TorrentId) -> StateView {
        StateView { current_torrent_id: Some(torrent_id), ..self }
    }

    /// The state after the torrent engine reported on the download. While
    /// it is not complete nothing changes. Once it is, the first file that
    /// holds the title is chosen; without one the candidate is dropped
    /// with its descriptor and its torrent.
    pub open spec fn after_download_check(
        self,
        title: Seq<char>,
        torrent: TorrentView,
    ) -> StateView {
        if torrent.status != TorrentStatus::Complete {
            self
        } else {
            match first_match(torrent.files, title) {
                Some(index) => StateView {
                    path_to_downloaded_file: Some(torrent.files[index]),
                    ..self
                },
                None => StateView {
                    current_download_id: None,
                    current_torrent_id: None,
                    current_torrent_data: None,
                    ..self
                },
            }
        }
    }

    /// The state after the broadcast backend stored the file.
    pub open spec fn after_upload(self, track_id: RadioManagerTrackId) -> StateView {
        StateView { radio_manager_track_id: Some(track_id), ..self }
    }

    /// The state after the broadcast backend attached the track.
    pub open spec fn after_link(self, link_id: Seq<char>) -> StateView {
        StateView { radio_manager_link_id: Some(link_id), ..self }
    }

    /// The chosen file, if there is one, holds `title`, ignoring case.
    pub open spec fn path_holds_title(self, title: Seq<char>) -> bool {
        self.path_to_downloaded_file matches Some(path) ==> crate::text::contains_ignore_case_spec(
            path,
            title,
        )
    }
}

/// Builds the queries for one search.
pub fn search_queries(metadata: &AudioMetadata) -> (queries: Vec<String>)
    ensures
        queries.len() == SEARCH_QUERIES,
        views_of(queries@) == search_queries_spec(metadata@),
{
    let mut album_query = metadata.artist.clone();
    album_query.append(" - ");
    album_query.append(metadata.album.as_str());
    let queries = vec![
        album_query,
        metadata.artist.clone().concat(" дискография"),
        metadata.artist.clone().concat(" discography"),
        metadata.artist.clone().concat(" дискографія"),
    ];
    queries
}

/// Joins the download directory and a path below it.
pub fn full_path(download_directory: &str, path: &str) -> (full: String)
    ensures
        full@ == full_path_spec(download_directory@, path@),
{
    let mut full = String::from_str(download_directory);
    full.append("/");
    full.append(path);
    full
}

/// Whether `topic` is among `tried`.
pub fn is_tried(tried: &Vec<TopicId>, topic: TopicId) -> (found: bool)
    ensures
        found == tried@.contains(topic),
{
    let mut i: usize = 0;
    while i < tried.len()
        invariant
            i <= tried.len(),
            forall|earlier: int| 0 <= earlier < i ==> tried@[earlier] != topic,
        decreases tried.len() - i,
    {
        if tried[i].0 == topic.0 {
            return true;
        }
        i += 1;
    }
    false
}

/// Finds the first of `results` whose topic is not among `tried`.
pub fn find_first_untried(tried: &Vec<TopicId>, results: &Vec<TopicData>) -> (found: Option<usize>)
    ensures
        match found {
            Some(index) => first_untried(tried@, topics_of(results@)) == Some(index as int)
                && index < results.len(),
            None => first_untried(tried@, topics_of(results@)) is None,
        },
{
    let ghost topics = topics_of(results@);
    let mut i: usize = 0;
    while i < results.len()
        invariant
            i <= results.len(),
            topics == topics_of(results@),
            forall|earlier: int|
                0 <= earlier < i ==> tried@.contains((#[trigger] topics[earlier]).topic_id),
        decreases results.len() - i,
    {
        if !is_tried(tried, results[i].topic_id) {
            proof {
                assert(is_first_untried(tried@, topics, i as int));
            }
            return Some(i);
        }
        i += 1;
    }
    None
}

impl TrackRequestProcessingState {
    /// Takes the first untried search result as the candidate. Says
    /// whether there was one.
    pub fn choose_candidate(&mut self, results: &Vec<TopicData>) -> (chosen: bool)
        ensures
            final(self)@ == old(self)@.after_search(topics_of(results@)),
            chosen == (first_untried(old(self)@.tried_topics, topics_of(results@)) is Some),
    {
        match find_first_untried(&self.tried_topics, results) {
            Some(index) => {
                self.current_download_id = Some(results[index].download_id);
                self.tried_topics.push(results[index].topic_id);
                true
            },
            None => false,
        }
    }

    /// Keeps the candidate's descriptor if one of the `files` it lists
    /// holds `title`; drops the candidate otherwise.
    pub fn accept_torrent_file(&mut self, title: &str, torrent_data: Vec<u8>, files: &Vec<String>)
        ensures
            final(self)@ == old(self)@.after_torrent_file(
                title@,
                torrent_data@,
                views_of(files@),
            ),
    {
        match find_first_match(files, title) {
            Some(index) => {
                self.current_torrent_data = Some(torrent_data);
            },
            None => {
                self.current_download_id = None;
            },
        }
    }

    /// Gives the candidate up before its descriptor was kept.
    pub fn drop_candidate(&mut self)
        ensures
            final(self)@ == old(self)@.without_candidate(),
    {
        self.current_download_id = None;
    }

    /// Records the handle that the torrent engine gave.
    pub fn torrent_added(&mut self, torrent_id: TorrentId)
        ensures
            final(self)@ == old(self)@.after_torrent_added(torrent_id),
    {
        self.current_torrent_id = Some(torrent_id);
    }

    /// Digests a report of the torrent engine. Says whether the download
    /// is still running, in which case nothing changed.
    pub fn download_checked(&mut self, title: &str, torrent: &Torrent) -> (running: bool)
        ensures
            final(self)@ == old(self)@.after_download_check(title@, torrent@),
            running == (torrent.status != TorrentStatus::Complete),
    {
        match torrent.status {
            TorrentStatus::Downloading => true,
            TorrentStatus::Complete => {
                match find_first_match(&torrent.files, title) {
                    Some(index) => {
                        self.path_to_downloaded_file = Some(torrent.files[index].clone());
                    },
                    None => {
                        self.current_download_id = None;
                        self.current_torrent_id = None;
                        self.current_torrent_data = None;
                    },
                }
                false
            },
        }
    }

    /// Records the track that the broadcast backend stored.
    pub fn track_uploaded(&mut self, track_id: RadioManagerTrackId)
        ensures
            final(self)@ == old(self)@.after_upload(track_id),
    {
        self.radio_manager_track_id = Some(track_id);
    }

    /// Records the attachment that the broadcast backend made.
    pub fn track_linked(&mut self, link_id: RadioManagerLinkId)
        ensures
            final(self)@ == old(self)@.after_link(link_id@),
    {
        self.radio_manager_link_id = Some(link_id);
    }
}

} // verus!
