//! Identifiers that the pipeline passes between its collaborators.

use vstd::prelude::*;

verus! {

/// Identity of the user on whose behalf a request runs.
#[derive(Clone, Copy, Debug, PartialEq, Eq, Hash, Structural)]
pub struct UserId(pub u64);

/// A search result at the index.
#[derive(Clone, Copy, Debug, PartialEq, Eq, Hash, Structural)]
pub struct TopicId(pub u64);

/// A downloadable torrent descriptor at the index.
#[derive(Clone, Copy, Debug, PartialEq, Eq, Hash, Structural)]
pub struct DownloadId(pub u64);

/// An active torrent at the local torrent engine.
#[derive(Clone, Copy, Debug, PartialEq, Eq, Hash, Structural)]
pub struct TorrentId(pub i64);

/// An uploaded track at the broadcast backend.
#[derive(Clone, Copy, Debug, PartialEq, Eq, Hash, Structural)]
pub struct RadioManagerTrackId(pub u64);

/// A channel at the broadcast backend.
#[derive(Clone, Copy, Debug, PartialEq, Eq, Hash, Structural)]
pub struct RadioManagerChannelId(pub u64);

/// A playlist attachment at the broadcast backend.
#[derive(Debug, PartialEq, Eq, Hash)]
pub struct RadioManagerLinkId(pub String);

impl View for RadioManagerLinkId {
    type V = Seq<char>;

    open spec fn view(&self) -> Seq<char> {
        self.0@
    }
}

impl Clone for RadioManagerLinkId {
    fn clone(&self) -> (copy: Self)
        ensures
            copy@ == self@,
    {
        RadioManagerLinkId(self.0.clone())
    }
}

/// The 128-bit identity of one request.
#[derive(Clone, Copy, Debug, PartialEq, Eq, Hash, Structural)]
pub struct RequestId(pub u128);

impl From<u64> for UserId {
    fn from(value: u64) -> (id: Self) {
        UserId(value)
    }
}

impl vstd::std_specs::convert::FromSpecImpl<u64> for UserId {
    open spec fn obeys_from_spec() -> bool {
        true
    }

    open spec fn from_spec(value: u64) -> Self {
        UserId(value)
    }
}

impl From<u64> for TopicId {
    fn from(value: u64) -> (id: Self) {
        TopicId(value)
    }
}

impl vstd::std_specs::convert::FromSpecImpl<u64> for TopicId {
    open spec fn obeys_from_spec() -> bool {
        true
    }

    open spec fn from_spec(value: u64) -> Self {
        TopicId(value)
    }
}

impl From<u64> for DownloadId {
    fn from(value: u64) -> (id: Self) {
        DownloadId(value)
    }
}

impl vstd::std_specs::convert::FromSpecImpl<u64> for DownloadId {
    open spec fn obeys_from_spec() -> bool {
        true
    }

    open spec fn from_spec(value: u64) -> Self {
        DownloadId(value)
    }
}

impl From<i64> for TorrentId {
    fn from(value: i64) -> (id: Self) {
        TorrentId(value)
    }
}

impl vstd::std_specs::convert::FromSpecImpl<i64> for TorrentId {
    open spec fn obeys_from_spec() -> bool {
        true
    }

    open spec fn from_spec(value: i64) -> Self {
        TorrentId(value)
    }
}

impl From<u64> for RadioManagerTrackId {
    fn from(value: u64) -> (id: Self) {
        RadioManagerTrackId(value)
    }
}

impl vstd::std_specs::convert::FromSpecImpl<u64> for RadioManagerTrackId {
    open spec fn obeys_from_spec() -> bool {
        true
    }

    open spec fn from_spec(value: u64) -> Self {
        RadioManagerTrackId(value)
    }
}

impl From<u64> for RadioManagerChannelId {
    fn from(value: u64) -> (id: Self) {
        RadioManagerChannelId(value)
    }
}

impl vstd::std_specs::convert::FromSpecImpl<u64> for RadioManagerChannelId {
    open spec fn obeys_from_spec() -> bool {
        true
    }

    open spec fn from_spec(value: u64) -> Self {
        RadioManagerChannelId(value)
    }
}

impl From<&str> for RadioManagerLinkId {
    fn from(value: &str) -> (id: Self)
        ensures
            id@ == value@,
    {
        RadioManagerLinkId(String::from_str(value))
    }
}

impl vstd::std_specs::convert::FromSpecImpl<&str> for RadioManagerLinkId {
    open spec fn obeys_from_spec() -> bool {
        false
    }

    open spec fn from_spec(value: &str) -> Self {
        arbitrary()
    }
}

/// The lower-case hexadecimal digit for `value`, which is below 16.
pub open spec fn hex_digit(value: nat) -> char {
    if value < 10 {
        (('0' as nat) + value) as char
    } else {
        (('a' as nat) + value - 10) as char
    }
}

/// The hexadecimal digit of `value` at `place`, place 0 being the highest
/// of its 32.
pub open spec fn nibble(value: u128, place: nat) -> nat {
    ((value as nat) / vstd::arithmetic::power::pow(16, (31 - place) as nat) as nat) % 16
}

/// The canonical text of a 128-bit identifier: its 32 lower-case
/// hexadecimal digits, highest first, in groups of 8, 4, 4, 4 and 12 with
/// a hyphen between each two.
pub open spec fn hyphenated(value: u128) -> Seq<char> {
    Seq::new(
        36,
        |i: int|
            if i == 8 || i == 13 || i == 18 || i == 23 {
                '-'
            } else if i < 8 {
                hex_digit(nibble(value, i as nat))
            } else if i < 13 {
                hex_digit(nibble(value, (i - 1) as nat))
            } else if i < 18 {
                hex_digit(nibble(value, (i - 2) as nat))
            } else if i < 23 {
                hex_digit(nibble(value, (i - 3) as nat))
            } else {
                hex_digit(nibble(value, (i - 4) as nat))
            },
    )
}

/// The identifier that `uuid::Uuid::parse_str` reads from `text`, if it
/// reads one.
pub uninterp spec fn parsed_uuid(text: Seq<char>) -> Option<u128>;

/// `value` is the identifier of a random UUID, of version 4 and of the
/// variant of RFC 4122: of its 32 hexadecimal digits the thirteenth, which
/// tells the version, is 4, and the seventeenth, which tells the variant,
/// is one of 8, 9, a and b. Every other digit is free.
pub open spec fn is_random_uuid(value: u128) -> bool {
    nibble(value, 12) == 4 && 8 <= nibble(value, 16) <= 11
}

/// Calls `uuid::Uuid::new_v4`. Trusted: the identifier is random but for
/// its version and its variant, which `new_v4` sets to 4 and to that of
/// RFC 4122 whatever was drawn.
#[verifier::external_body]
pub(crate) fn fresh_uuid() -> (value: u128)
    ensures
        is_random_uuid(value),
{
    uuid::Uuid::new_v4().as_u128()
}

/// Calls `to_string` on the `uuid::Uuid` of `value`. Trusted: the result
/// is the canonical hyphenated text, and `parse_str` reads the same
/// identifier back from it.
#[verifier::external_body]
pub(crate) fn uuid_text(value: u128) -> (text: String)
    ensures
        text@ == hyphenated(value),
        parsed_uuid(text@) == Some(value),
{
    uuid::Uuid::from_u128(value).to_string()
}

/// Calls `uuid::Uuid::parse_str`. Trusted: the outcome is a function of
/// the text alone.
#[verifier::external_body]
pub(crate) fn parse_uuid(text: &str) -> (value: Option<u128>)
    ensures
        value == parsed_uuid(text@),
{
    uuid::Uuid::parse_str(text).ok().map(|uuid| uuid.as_u128())
}

impl RequestId {
    /// A new identifier, drawn at random: a UUID of version 4.
    pub fn generate() -> (id: RequestId)
        ensures
            is_random_uuid(id.0),
    {
        RequestId(fresh_uuid())
    }

    /// The canonical text of the identifier: the key under which the
    /// records of the request are stored.
    pub fn to_text(&self) -> (text: String)
        ensures
            text@ == hyphenated(self.0),
            parsed_uuid(text@) == Some(self.0),
    {
        uuid_text(self.0)
    }

    /// Reads an identifier from its text. Beside the canonical text the
    /// other forms that `uuid` knows are read too.
    pub fn parse(text: &str) -> (id: Option<RequestId>)
        ensures
            id == match parsed_uuid(text@) {
                Some(value) => Some(RequestId(value)),
                None => None,
            },
    {
        match parse_uuid(text) {
            Some(value) => Some(RequestId(value)),
            None => None,
        }
    }
}

} // verus!
