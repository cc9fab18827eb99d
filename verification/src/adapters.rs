//! What the pipeline exchanges with its collaborators: the index that is
//! searched, the torrent engine, the broadcast backend and the state store.
//! Each collaborator fails with an error of its own that carries the cause
//! as text.

use vstd::prelude::*;
use crate::ids::{DownloadId, RadioManagerTrackId, TopicId};
use crate::text::views_of;

verus! {

/// One search result of the index.
#[derive(Debug, PartialEq, Eq)]
pub struct TopicData {
    pub topic_id: TopicId,
    pub download_id: DownloadId,
    pub title: String,
}

/// A search result as a mathematical value.
pub struct TopicDataView {
    pub topic_id: TopicId,
    pub download_id: DownloadId,
    pub title: Seq<char>,
}

impl View for TopicData {
    type V = TopicDataView;

    open spec fn view(&self) -> TopicDataView {
        TopicDataView { topic_id: self.topic_id, download_id: self.download_id, title: self.title@ }
    }
}

/// The views of a list of search results, in the index's order.
pub open spec fn topics_of(results: Seq<TopicData>) -> Seq<TopicDataView> {
    Seq::new(results.len(), |i: int| results[i]@)
}

/// How far the torrent engine is with a torrent.
#[derive(Clone, Copy, Debug, PartialEq, Eq, Structural)]
pub enum TorrentStatus {
    Downloading,
    Complete,
}

/// What the torrent engine reports of a torrent.
#[derive(Debug, PartialEq, Eq)]
pub struct Torrent {
    pub status: TorrentStatus,
    pub files: Vec<String>,
}

/// A report of the torrent engine as a mathematical value.
pub struct TorrentView {
    pub status: TorrentStatus,
    pub files: Seq<Seq<char>>,
}

impl View for Torrent {
    type V = TorrentView;

    open spec fn view(&self) -> TorrentView {
        TorrentView { status: self.status, files: views_of(self.files@) }
    }
}

/// The state store failed: persistence I/O or encoding.
#[derive(Debug, PartialEq, Eq)]
pub struct StateStorageError(pub String);

impl View for StateStorageError {
    type V = Seq<char>;

    open spec fn view(&self) -> Seq<char> {
        self.0@
    }
}

impl StateStorageError {
    /// The error of a record that is required and absent.
    pub fn not_found() -> (error: Self)
        ensures
            error@ == "entity not found"@,
    {
        StateStorageError(String::from_str("entity not found"))
    }
}

/// The index failed.
#[derive(Debug, PartialEq, Eq)]
pub struct SearchProviderError(pub String);

impl View for SearchProviderError {
    type V = Seq<char>;

    open spec fn view(&self) -> Seq<char> {
        self.0@
    }
}

/// The torrent engine failed.
#[derive(Debug, PartialEq, Eq)]
pub struct TorrentClientError(pub String);

impl View for TorrentClientError {
    type V = Seq<char>;

    open spec fn view(&self) -> Seq<char> {
        self.0@
    }
}

/// The broadcast backend failed.
#[derive(Debug, PartialEq, Eq)]
pub struct RadioManagerClientError(pub String);

impl View for RadioManagerClientError {
    type V = Seq<char>;

    open spec fn view(&self) -> Seq<char> {
        self.0@
    }
}

/// An answer of the broadcast backend: a code, a message and the data
/// asked for. The code 1 stands for success.
#[derive(Debug)]
pub struct RadioManagerResponse<Data> {
    pub code: i64,
    pub message: String,
    pub data: Data,
}

impl<Data> RadioManagerResponse<Data> {
    /// The data of an answer that reports success; the message of any
    /// other, as an unexpected error.
    pub fn error_for_code(self) -> (outcome: Result<Data, RadioManagerClientError>)
        ensures
            match outcome {
                Ok(data) => self.code == 1 && data == self.data,
                Err(error) => self.code != 1 && error@ == "Unexpected error: "@ + self.message@,
            },
    {
        if self.code == 1 {
            Ok(self.data)
        } else {
            Err(RadioManagerClientError(String::from_str("Unexpected error: ").concat(
                self.message.as_str(),
            )))
        }
    }
}

/// The track that an upload has stored: the first of the tracks that the
/// backend reports. An upload that reports none has failed.
pub fn uploaded_track(track_ids: &Vec<u64>) -> (track: Result<
    RadioManagerTrackId,
    RadioManagerClientError,
>)
    ensures
        match track {
            Ok(id) => track_ids.len() > 0 && id.0 == track_ids[0],
            Err(error) => track_ids.len() == 0 && error@
                == "Unexpected error: No tracks were uploaded"@,
        },
{
    if track_ids.len() > 0 {
        Ok(RadioManagerTrackId(track_ids[0]))
    } else {
        Err(RadioManagerClientError(String::from_str("Unexpected error: No tracks were uploaded")))
    }
}

} // verus!
