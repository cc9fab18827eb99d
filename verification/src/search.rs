//! What is read off the pages of the index: its search results, how they
//! rank, and whether a page shows a session that is logged in.

use vstd::prelude::*;
use crate::ids::{DownloadId, TopicId};
use crate::text::{
    contains, is_substring, lowercase, parse_u64, parsed_u64, remove_all, to_lowercase, without,
};

verus! {

/// One row of the index's search results.
#[derive(Debug, PartialEq, Eq)]
pub struct SearchResult {
    pub title: String,
    pub topic_id: TopicId,
    pub seeds_number: u64,
}

/// A topic of the index and the descriptor it offers.
#[derive(Clone, Copy, Debug, PartialEq, Eq, Structural)]
pub struct Topic {
    pub topic_id: TopicId,
    pub download_id: DownloadId,
}

/// The rank given to a title that names no known format or bitrate.
pub const UNRANKED: usize = 10;

/// The rank of the audio format that `title` names: `FLAC` before `MP3`
/// before `ALAC` before `AAC`, the first of them that occurs counting.
pub open spec fn format_rank(title: Seq<char>) -> nat {
    if is_substring("FLAC"@, title) {
        0
    } else if is_substring("MP3"@, title) {
        1
    } else if is_substring("ALAC"@, title) {
        2
    } else if is_substring("AAC"@, title) {
        3
    } else {
        UNRANKED as nat
    }
}

/// The rank of the bitrate that `title` names: `lossless` before
/// `320 kbps` before `256 kbps`, the first of them that occurs counting.
pub open spec fn bitrate_rank(title: Seq<char>) -> nat {
    if is_substring("lossless"@, title) {
        0
    } else if is_substring("320 kbps"@, title) {
        1
    } else if is_substring("256 kbps"@, title) {
        2
    } else {
        UNRANKED as nat
    }
}

/// The rank of a number of seeds: the more seeds the lower, none at all
/// the highest.
pub open spec fn seeds_rank(seeds_number: u64) -> nat {
    if seeds_number == 0 {
        10
    } else if seeds_number < 10 {
        3
    } else if seeds_number < 20 {
        2
    } else if seeds_number < 30 {
        1
    } else {
        0
    }
}

/// The priority of a search result; results with a lower one come first.
pub open spec fn priority_spec(title: Seq<char>, seeds_number: u64) -> nat {
    format_rank(title) * 5 + bitrate_rank(title) * 10 + seeds_rank(seeds_number)
}

/// Computes the priority of a search result.
pub fn get_search_result_priority(result: &SearchResult) -> (priority: usize)
    ensures
        priority == priority_spec(result.title@, result.seeds_number),
{
    let title = result.title.as_str();
    let format_priority: usize = if contains(title, "FLAC") {
        0
    } else if contains(title, "MP3") {
        1
    } else if contains(title, "ALAC") {
        2
    } else if contains(title, "AAC") {
        3
    } else {
        UNRANKED
    };
    let bitrate_priority: usize = if contains(title, "lossless") {
        0
    } else if contains(title, "320 kbps") {
        1
    } else if contains(title, "256 kbps") {
        2
    } else {
        UNRANKED
    };
    let seeds_priority: usize = if result.seeds_number == 0 {
        10
    } else if result.seeds_number < 10 {
        3
    } else if result.seeds_number < 20 {
        2
    } else if result.seeds_number < 30 {
        1
    } else {
        0
    };
    format_priority * 5 + bitrate_priority * 10 + seeds_priority
}

/// Why a page of the index does not show a session that is logged in.
#[derive(Clone, Copy, Debug, PartialEq, Eq, Structural)]
pub enum AuthError {
    CaptchaVerificationIsRequired,
    IncorrectPasswordText,
    UnknownAuthError,
}

/// What a page tells of the session: a request for a captcha comes
/// first, then a refused password, then the absence of the log-out icon.
pub open spec fn auth_state_spec(raw_html: Seq<char>) -> Result<(), AuthError> {
    if is_substring("введите код подтверждения"@, raw_html) {
        Err(AuthError::CaptchaVerificationIsRequired)
    } else if is_substring("неверный пароль"@, raw_html) {
        Err(AuthError::IncorrectPasswordText)
    } else if !is_substring("log-out-icon"@, raw_html) {
        Err(AuthError::UnknownAuthError)
    } else {
        Ok(())
    }
}

/// Tells from a page of the index whether the session is logged in.
pub fn parse_and_validate_auth_state(raw_html: &str) -> (state: Result<(), AuthError>)
    ensures
        state == auth_state_spec(raw_html@),
{
    if contains(raw_html, "введите код подтверждения") {
        return Err(AuthError::CaptchaVerificationIsRequired);
    }
    if contains(raw_html, "неверный пароль") {
        return Err(AuthError::IncorrectPasswordText);
    }
    if !contains(raw_html, "log-out-icon") {
        return Err(AuthError::UnknownAuthError);
    }
    Ok(())
}

/// What one row of the page of search results holds, as texts: the
/// category, the title, the topic's identifier, the link to the
/// descriptor and the number of seeds. A part that the row lacks is `None`.
#[derive(Debug, PartialEq, Eq)]
pub struct SearchRow {
    pub category: Option<String>,
    pub title: Option<String>,
    pub topic_id: Option<String>,
    pub download_link: Option<String>,
    pub seeds_number: Option<String>,
}

/// A search result together with the descriptor it offers.
#[derive(Debug, PartialEq, Eq)]
pub struct FoundTopic {
    pub result: SearchResult,
    pub download_id: DownloadId,
}

/// A found topic as a mathematical value.
pub struct FoundTopicView {
    pub title: Seq<char>,
    pub topic_id: TopicId,
    pub seeds_number: u64,
    pub download_id: DownloadId,
}

impl View for FoundTopic {
    type V = FoundTopicView;

    open spec fn view(&self) -> FoundTopicView {
        FoundTopicView {
            title: self.result.title@,
            topic_id: self.result.topic_id,
            seeds_number: self.result.seeds_number,
            download_id: self.download_id,
        }
    }
}

impl Clone for FoundTopic {
    fn clone(&self) -> (copy: Self)
        ensures
            copy@ == self@,
    {
        FoundTopic {
            result: SearchResult {
                title: self.result.title.clone(),
                topic_id: self.result.topic_id,
                seeds_number: self.result.seeds_number,
            },
            download_id: self.download_id,
        }
    }
}

impl FoundTopicView {
    /// The priority of the topic; topics with a lower one come first.
    pub open spec fn priority(self) -> nat {
        priority_spec(self.title, self.seeds_number)
    }
}

/// The views of a list of found topics, in order.
pub open spec fn found_of(topics: Seq<FoundTopic>) -> Seq<FoundTopicView> {
    Seq::new(topics.len(), |i: int| topics[i]@)
}

/// The topic that a row stands for. A row counts if it has every part,
/// its category names a lossless or lossy release, its numbers read as
/// numbers, and its title does not offer the album as one image.
pub open spec fn row_topic(row: SearchRow) -> Option<FoundTopicView> {
    if row.category is Some && row.title is Some && row.topic_id is Some && row.download_link
        is Some && row.seeds_number is Some {
        let topic = parsed_u64(row.topic_id->0@);
        let download = parsed_u64(without(row.download_link->0@, "dl.php?t="@));
        let seeds = parsed_u64(row.seeds_number->0@);
        if is_substring("loss"@, lowercase(row.category->0@)) && topic is Some && download is Some
            && seeds is Some && !is_substring("image+.cue"@, row.title->0@) {
            Some(
                FoundTopicView {
                    title: row.title->0@,
                    topic_id: TopicId(topic->0),
                    seeds_number: seeds->0,
                    download_id: DownloadId(download->0),
                },
            )
        } else {
            None
        }
    } else {
        None
    }
}

/// The topics of the first `count` of `rows`, in order; rows that do not
/// count are passed over.
pub open spec fn row_topics(rows: Seq<SearchRow>, count: int) -> Seq<FoundTopicView>
    decreases count,
{
    if count <= 0 {
        Seq::empty()
    } else {
        let earlier = row_topics(rows, count - 1);
        match row_topic(rows[count - 1]) {
            Some(topic) => earlier.push(topic),
            None => earlier,
        }
    }
}

/// `ranked` holds the topics of `found` by ascending priority, and those
/// of one priority in the order they have in `found`: `order` tells for
/// each place of `ranked` the place in `found` that its topic comes from.
pub open spec fn is_ranking(
    found: Seq<FoundTopicView>,
    ranked: Seq<FoundTopicView>,
    order: Seq<int>,
) -> bool {
    &&& ranked.len() == found.len()
    &&& order.len() == found.len()
    &&& forall|k: int| 0 <= k < order.len() ==> 0 <= #[trigger] order[k] < found.len()
    &&& forall|k: int| 0 <= k < order.len() ==> #[trigger] ranked[k] == found[order[k]]
    &&& forall|k: int, l: int|
        0 <= k < l < order.len() ==> {
            let first = found[#[trigger] order[k]].priority();
            let second = found[#[trigger] order[l]].priority();
            first < second || (first == second && order[k] < order[l])
        }
}

/// Reads the topic that a row stands for.
pub fn read_search_row(row: &SearchRow) -> (topic: Option<FoundTopic>)
    ensures
        match topic {
            Some(found) => row_topic(*row) == Some(found@),
            None => row_topic(*row) is None,
        },
{
    match (&row.category, &row.title, &row.topic_id, &row.download_link, &row.seeds_number) {
        (Some(category), Some(title), Some(topic_id), Some(download_link), Some(seeds_number)) => {
            if !contains(to_lowercase(category.as_str()).as_str(), "loss") {
                return None;
            }
            let topic = match parse_u64(topic_id.as_str()) {
                Some(topic) => topic,
                None => { return None; },
            };
            let download = match parse_u64(
                remove_all(download_link.as_str(), "dl.php?t=").as_str(),
            ) {
                Some(download) => download,
                None => { return None; },
            };
            let seeds = match parse_u64(seeds_number.as_str()) {
                Some(seeds) => seeds,
                None => { return None; },
            };
            if contains(title.as_str(), "image+.cue") {
                return None;
            }
            Some(
                FoundTopic {
                    result: SearchResult {
                        title: title.clone(),
                        topic_id: TopicId(topic),
                        seeds_number: seeds,
                    },
                    download_id: DownloadId(download),
                },
            )
        },
        _ => None,
    }
}

/// Ranks found topics: by ascending priority, and those of one priority
/// in the order they came in.
pub fn rank_topics(found: &Vec<FoundTopic>) -> (ranked: Vec<FoundTopic>)
    ensures
        exists|order: Seq<int>| is_ranking(found_of(found@), found_of(ranked@), order),
{
    let ghost topics = found_of(found@);
    let mut ranked: Vec<FoundTopic> = Vec::new();
    let ghost mut order: Seq<int> = Seq::empty();
    let mut i: usize = 0;
    while i < found.len()
        invariant
            i <= found.len(),
            topics == found_of(found@),
            ranked.len() == i,
            order.len() == i,
            forall|k: int| 0 <= k < i ==> 0 <= #[trigger] order[k] < i,
            forall|k: int| 0 <= k < i ==> (#[trigger] ranked[k])@ == topics[order[k]],
            forall|k: int, l: int|
                0 <= k < l < i ==> {
                    let first = topics[#[trigger] order[k]].priority();
                    let second = topics[#[trigger] order[l]].priority();
                    first < second || (first == second && order[k] < order[l])
                },
        decreases found.len() - i,
    {
        let priority = get_search_result_priority(&found[i].result);
        let mut place: usize = 0;
        while place < ranked.len() && get_search_result_priority(&ranked[place].result) <= priority
            invariant
                place <= ranked.len(),
                ranked.len() == i,
                i < found.len(),
                topics == found_of(found@),
                priority == topics[i as int].priority(),
                forall|k: int| 0 <= k < i ==> (#[trigger] ranked[k])@ == topics[order[k]],
                order.len() == i,
                forall|k: int| 0 <= k < i ==> 0 <= #[trigger] order[k] < i,
                forall|k: int| 0 <= k < place ==> topics[#[trigger] order[k]].priority() <= priority,
            decreases ranked.len() - place,
        {
            place += 1;
        }
        ranked.insert(place, found[i].clone());
        proof {
            order = order.insert(place as int, i as int);
            assert forall|k: int, l: int| 0 <= k < l < i + 1 implies {
                let first = topics[#[trigger] order[k]].priority();
                let second = topics[#[trigger] order[l]].priority();
                first < second || (first == second && order[k] < order[l])
            } by {}
        }
        i += 1;
    }
    proof {
        assert(is_ranking(topics, found_of(ranked@), order));
    }
    ranked
}

/// Reads the topics off the rows of a page of search results and ranks
/// them.
pub fn parse_search_rows(rows: &Vec<SearchRow>) -> (ranked: Vec<FoundTopic>)
    ensures
        exists|order: Seq<int>|
            is_ranking(row_topics(rows@, rows.len() as int), found_of(ranked@), order),
{
    let mut found: Vec<FoundTopic> = Vec::new();
    let mut i: usize = 0;
    while i < rows.len()
        invariant
            i <= rows.len(),
            found_of(found@) == row_topics(rows@, i as int),
        decreases rows.len() - i,
    {
        match read_search_row(&rows[i]) {
            Some(topic) => {
                found.push(topic);
            },
            None => {},
        }
        i += 1;
    }
    rank_topics(&found)
}

/// The topic and the descriptor that a topic's page links to: what is
/// left of each link without its path reads as the number.
pub open spec fn topic_of_links(topic_link: Option<Seq<char>>, download_link: Option<Seq<char>>)
    -> Option<Topic> {
    if topic_link is Some && download_link is Some {
        let topic = parsed_u64(without(topic_link->0, "viewtopic.php?t="@));
        let download = parsed_u64(without(download_link->0, "dl.php?t="@));
        if topic is Some && download is Some {
            Some(Topic { topic_id: TopicId(topic->0), download_id: DownloadId(download->0) })
        } else {
            None
        }
    } else {
        None
    }
}

/// Reads a topic off the two links of its page: the one to the topic
/// itself and the one to its descriptor.
pub fn read_topic(topic_link: Option<&str>, download_link: Option<&str>) -> (topic: Option<Topic>)
    ensures
        topic == topic_of_links(
            match topic_link {
                Some(link) => Some(link@),
                None => None,
            },
            match download_link {
                Some(link) => Some(link@),
                None => None,
            },
        ),
{
    match (topic_link, download_link) {
        (Some(topic_link), Some(download_link)) => {
            let topic = parse_u64(remove_all(topic_link, "viewtopic.php?t=").as_str());
            let download = parse_u64(remove_all(download_link, "dl.php?t=").as_str());
            match (topic, download) {
                (Some(topic), Some(download)) => Some(
                    Topic { topic_id: TopicId(topic), download_id: DownloadId(download) },
                ),
                _ => None,
            }
        },
        _ => None,
    }
}

} // verus!
