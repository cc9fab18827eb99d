//! Reads the list of files out of a bencoded torrent descriptor.
//!
//! The bytes are decoded by `serde_bencode` into its generic `Value`; what
//! this module adds is the walk through that value: the `info` dictionary,
//! its `files` list and, for each entry, the components of its `path`.

use vstd::prelude::*;
use vstd::utf8::{decode_utf8, encode_utf8, valid_utf8};
use serde_bencode::value::Value;
use crate::text::push_char;

verus! {

/// Makes `serde_bencode::value::Value` known as an opaque type.
#[verifier::external_type_specification]
#[verifier::external_body]
pub struct ExValue(Value);

/// Makes `serde_bencode::Error` known as an opaque type.
#[verifier::external_type_specification]
#[verifier::external_body]
pub struct ExBencodeError(serde_bencode::Error);

/// The value that `serde_bencode::from_bytes` decodes from `bytes`, if it
/// decodes one.
pub uninterp spec fn decoded(bytes: Seq<u8>) -> Option<Value>;

/// The items of a bencoded list, in order; `None` of any other value.
pub uninterp spec fn list_items(value: Value) -> Option<Seq<Value>>;

/// The entries of a bencoded dictionary by key; `None` of any other value.
pub uninterp spec fn dict_entries(value: Value) -> Option<Map<Seq<u8>, Value>>;

/// The bytes of a bencoded byte string; `None` of any other value.
pub uninterp spec fn byte_string(value: Value) -> Option<Seq<u8>>;

/// Why a torrent descriptor could not be read.
#[derive(Debug, PartialEq, Eq)]
pub enum TorrentParserError {
    /// The bytes are not bencode. Carries the decoder's message.
    Syntax(String),
    /// The bencoded value does not have the layout of a descriptor.
    Layout,
    /// Lists and dictionaries are nested deeper than `MAX_NESTING`.
    Nesting,
}

/// A parser error without its message.
#[derive(PartialEq, Eq, Structural)]
pub enum TorrentParserErrorKind {
    Syntax,
    Layout,
    Nesting,
}

impl View for TorrentParserError {
    type V = TorrentParserErrorKind;

    open spec fn view(&self) -> TorrentParserErrorKind {
        match self {
            TorrentParserError::Syntax(_) => TorrentParserErrorKind::Syntax,
            TorrentParserError::Layout => TorrentParserErrorKind::Layout,
            TorrentParserError::Nesting => TorrentParserErrorKind::Nesting,
        }
    }
}

/// How deep lists and dictionaries may be nested in a descriptor. The
/// decoder descends once for each level, so the bound keeps its descent
/// shallow.
pub const MAX_NESTING: usize = 100;

/// The first place at or behind `pos` that holds `byte`; the length of
/// `bytes` where there is none.
pub open spec fn next_at(bytes: Seq<u8>, pos: int, byte: u8) -> int
    decreases bytes.len() - pos,
{
    if pos < 0 || pos >= bytes.len() {
        bytes.len() as int
    } else if bytes[pos] == byte {
        pos
    } else {
        next_at(bytes, pos + 1, byte)
    }
}

/// The number that the decimal digits from `from` up to `to` write. A
/// byte that is no digit counts as zero.
pub open spec fn length_at(bytes: Seq<u8>, from: int, to: int) -> nat
    decreases to - from,
{
    if to <= from {
        0
    } else {
        let byte = bytes[to - 1];
        length_at(bytes, from, to - 1) * 10 + if 48 <= byte <= 57 {
            (byte - 48) as nat
        } else {
            0
        }
    }
}

/// The bytes from `from` up to `to` are decimal digits.
pub open spec fn digits_between(bytes: Seq<u8>, from: int, to: int) -> bool {
    forall|i: int| from <= i < to ==> 48 <= #[trigger] bytes[i] <= 57
}

/// Read as bencode from `pos` on, with `open` lists and dictionaries
/// open there, `bytes` never have more than `limit` of them open at once.
/// Reading goes token by token: `l` and `d` open, `e` closes, `i` runs to
/// the next `e`, and a length runs to its `:` and over as many bytes as it
/// says. It ends with the value at the top, with the bytes, and at the
/// first token that is not well-formed.
pub open spec fn nests_within(bytes: Seq<u8>, pos: int, open: nat, limit: nat) -> bool
    decreases bytes.len() - pos,
{
    if pos < 0 || pos >= bytes.len() {
        true
    } else if bytes[pos] == 108 || bytes[pos] == 100 {
        open < limit && nests_within(bytes, pos + 1, open + 1, limit)
    } else if bytes[pos] == 101 {
        open <= 1 || nests_within(bytes, pos + 1, (open - 1) as nat, limit)
    } else if open == 0 {
        true
    } else if bytes[pos] == 105 {
        let end = next_at(bytes, pos + 1, 101);
        if pos < end < bytes.len() {
            nests_within(bytes, end + 1, open, limit)
        } else {
            true
        }
    } else if 48 <= bytes[pos] <= 57 {
        let colon = next_at(bytes, pos, 58);
        let after = colon + 1 + length_at(bytes, pos, colon);
        if pos < colon < bytes.len() && digits_between(bytes, pos, colon) && after <= bytes.len() {
            nests_within(bytes, after, open, limit)
        } else {
            true
        }
    } else {
        true
    }
}

/// A longer run of digits writes no smaller number.
proof fn lemma_length_grows(bytes: Seq<u8>, from: int, to: int, more: int)
    requires
        from <= to <= more,
    ensures
        length_at(bytes, from, to) <= length_at(bytes, from, more),
    decreases more - to,
{
    if to < more {
        lemma_length_grows(bytes, from, to, more - 1);
        assert(length_at(bytes, from, more - 1) * 10 >= length_at(bytes, from, more - 1))
            by (nonlinear_arith);
    }
}

/// The place that `next_at` finds lies at or behind where it began, and
/// within the bytes or at their end.
proof fn lemma_next_at_bounds(bytes: Seq<u8>, pos: int, byte: u8)
    requires
        0 <= pos <= bytes.len(),
    ensures
        pos <= next_at(bytes, pos, byte) <= bytes.len(),
    decreases bytes.len() - pos,
{
    if pos < bytes.len() && bytes[pos] != byte {
        lemma_next_at_bounds(bytes, pos + 1, byte);
    }
}

/// Tells whether lists and dictionaries are nested no deeper than `limit`
/// in `bytes`, read as bencode.
pub fn nesting_within(bytes: &[u8], limit: usize) -> (shallow: bool)
    ensures
        shallow == nests_within(bytes@, 0, 0, limit as nat),
{
    let len = bytes.len();
    let mut pos: usize = 0;
    let mut open: usize = 0;
    while pos < len
        invariant
            len == bytes@.len(),
            pos <= len,
            open <= limit,
            nests_within(bytes@, 0, 0, limit as nat) == nests_within(
                bytes@,
                pos as int,
                open as nat,
                limit as nat,
            ),
        decreases len - pos,
    {
        let byte = bytes[pos];
        if byte == 108 || byte == 100 {
            if open >= limit {
                return false;
            }
            open += 1;
            pos += 1;
        } else if byte == 101 {
            if open <= 1 {
                return true;
            }
            open -= 1;
            pos += 1;
        } else if open == 0 {
            return true;
        } else if byte == 105 {
            let mut end: usize = pos + 1;
            while end < len && bytes[end] != 101
                invariant
                    len == bytes@.len(),
                    pos < end <= len,
                    next_at(bytes@, pos + 1, 101) == next_at(bytes@, end as int, 101),
                decreases len - end,
            {
                end += 1;
            }
            if end >= len {
                return true;
            }
            pos = end + 1;
        } else if 48 <= byte && byte <= 57 {
            let ghost found = next_at(bytes@, pos as int, 58);
            proof {
                lemma_next_at_bounds(bytes@, pos as int, 58);
            }
            let mut colon: usize = pos;
            let mut length: u128 = 0;
            let mut broken = false;
            while colon < len && bytes[colon] != 58 && !broken
                invariant
                    len == bytes@.len(),
                    pos <= colon <= len,
                    found == next_at(bytes@, pos as int, 58),
                    found == next_at(bytes@, colon as int, 58),
                    colon <= found <= len,
                    !broken ==> digits_between(bytes@, pos as int, colon as int),
                    !broken ==> length == length_at(bytes@, pos as int, colon as int),
                    !broken ==> length <= len,
                    broken ==> !(found < len && digits_between(bytes@, pos as int, found)
                        && found + 1 + length_at(bytes@, pos as int, found) <= len),
                decreases len - colon, if broken { 0int } else { 1int },
            {
                let digit = bytes[colon];
                proof {
                    lemma_next_at_bounds(bytes@, colon + 1, 58);
                }
                if digit < 48 || digit > 57 {
                    broken = true;
                } else {
                    length = length * 10 + (digit - 48) as u128;
                    colon += 1;
                    if length > len as u128 {
                        proof {
                            lemma_length_grows(bytes@, pos as int, colon as int, found);
                        }
                        broken = true;
                    }
                }
            }
            if broken || colon >= len {
                return true;
            }
            if length > (len - colon - 1) as u128 {
                return true;
            }
            pos = colon + 1 + length as usize;
        } else {
            return true;
        }
    }
    true
}

/// The entry of `value` under `key`, where `value` is a dictionary that
/// has one.
pub open spec fn entry_of(value: Value, key: Seq<char>) -> Option<Value> {
    match dict_entries(value) {
        Some(entries) => if entries.contains_key(encode_utf8(key)) {
            Some(entries[encode_utf8(key)])
        } else {
            None
        },
        None => None,
    }
}

/// The text of a bencoded byte string that is valid UTF-8.
pub open spec fn text_of(value: Value) -> Option<Seq<char>> {
    match byte_string(value) {
        Some(bytes) => if valid_utf8(bytes) {
            Some(decode_utf8(bytes))
        } else {
            None
        },
        None => None,
    }
}

/// The texts joined, with `separator` between each two.
pub open spec fn join_spec(parts: Seq<Seq<char>>, separator: char) -> Seq<char>
    decreases parts.len(),
{
    if parts.len() == 0 {
        Seq::empty()
    } else if parts.len() == 1 {
        parts[0]
    } else {
        join_spec(parts.drop_last(), separator).push(separator) + parts.last()
    }
}

/// The texts of the first `count` of `items`, if each of them is a text.
pub open spec fn texts_of(items: Seq<Value>, count: int) -> Option<Seq<Seq<char>>>
    decreases count,
{
    if count <= 0 {
        Some(Seq::empty())
    } else {
        match (texts_of(items, count - 1), text_of(items[count - 1])) {
            (Some(earlier), Some(text)) => Some(earlier.push(text)),
            _ => None,
        }
    }
}

/// The path of one entry of `files`: the components under its `path` key,
/// joined by `separator`. `None` where the entry is no dictionary, has no
/// `path`, or the path is no list of texts.
pub open spec fn file_path_of(entry: Value, separator: char) -> Option<Seq<char>> {
    match entry_of(entry, "path"@) {
        Some(path) => match list_items(path) {
            Some(components) => match texts_of(components, components.len() as int) {
                Some(texts) => Some(join_spec(texts, separator)),
                None => None,
            },
            None => None,
        },
        None => None,
    }
}

/// The paths of the first `count` of `entries`, if each of them has one.
pub open spec fn file_paths_of(entries: Seq<Value>, count: int, separator: char) -> Option<
    Seq<Seq<char>>,
>
    decreases count,
{
    if count <= 0 {
        Some(Seq::empty())
    } else {
        match (
            file_paths_of(entries, count - 1, separator),
            file_path_of(entries[count - 1], separator),
        ) {
            (Some(earlier), Some(path)) => Some(earlier.push(path)),
            _ => None,
        }
    }
}

/// The files that the descriptor `root` lists, in its order. A descriptor
/// is a dictionary with a dictionary under `info`; where that has no
/// `files` it lists nothing. `None` where the layout is another.
pub open spec fn files_of(root: Value, separator: char) -> Option<Seq<Seq<char>>> {
    match entry_of(root, "info"@) {
        Some(info) => match dict_entries(info) {
            Some(_) => match entry_of(info, "files"@) {
                Some(files) => match list_items(files) {
                    Some(entries) => file_paths_of(entries, entries.len() as int, separator),
                    None => None,
                },
                None => Some(Seq::empty()),
            },
            None => None,
        },
        None => None,
    }
}

/// What reading the files of the descriptor `bytes` gives.
pub open spec fn get_files_spec(bytes: Seq<u8>, separator: char) -> Result<
    Seq<Seq<char>>,
    TorrentParserErrorKind,
> {
    if !nests_within(bytes, 0, 0, MAX_NESTING as nat) {
        Err(TorrentParserErrorKind::Nesting)
    } else {
        match decoded(bytes) {
            Some(root) => match files_of(root, separator) {
                Some(files) => Ok(files),
                None => Err(TorrentParserErrorKind::Layout),
            },
            None => Err(TorrentParserErrorKind::Syntax),
        }
    }
}

/// Calls `serde_bencode::from_bytes` for a `Value`. Trusted: the outcome is
/// a function of the bytes alone. The decoder descends once for each list
/// or dictionary that is open, so the bytes have to be shallow.
#[verifier::external_body]
fn decode(bytes: &[u8]) -> (outcome: Result<Value, serde_bencode::Error>)
    requires
        nests_within(bytes@, 0, 0, MAX_NESTING as nat),
    ensures
        match outcome {
            Ok(value) => decoded(bytes@) == Some(value),
            Err(_) => decoded(bytes@) is None,
        },
{
    serde_bencode::from_bytes::<Value>(bytes)
}

/// Calls `to_string` on a `serde_bencode::Error`. Trusted, and nothing is
/// claimed of the message.
#[verifier::external_body]
fn message_of(error: &serde_bencode::Error) -> (message: String) {
    error.to_string()
}

/// Looks `key` up where `value` is `Value::Dict`, with `HashMap::get`.
/// Trusted: the result is the entry under the key's bytes, if `value` is a
/// dictionary that has one.
#[verifier::external_body]
fn dict_get<'a>(value: &'a Value, key: &str) -> (found: Option<&'a Value>)
    ensures
        match found {
            Some(entry) => entry_of(*value, key@) == Some(*entry),
            None => entry_of(*value, key@) is None,
        },
{
    match value {
        Value::Dict(entries) => entries.get(key.as_bytes()),
        Value::List(_) => None,
        Value::Bytes(_) => None,
        Value::Int(_) => None,
    }
}

/// Tells whether `value` is `Value::Dict`. Trusted.
#[verifier::external_body]
fn is_dict(value: &Value) -> (yes: bool)
    ensures
        yes == (dict_entries(*value) is Some),
{
    match value {
        Value::Dict(_) => true,
        Value::List(_) => false,
        Value::Bytes(_) => false,
        Value::Int(_) => false,
    }
}

/// Hands out the items where `value` is `Value::List`. Trusted.
#[verifier::external_body]
fn as_list(value: &Value) -> (found: Option<&Vec<Value>>)
    ensures
        match found {
            Some(items) => list_items(*value) == Some(items@),
            None => list_items(*value) is None,
        },
{
    match value {
        Value::List(items) => Some(items),
        Value::Dict(_) => None,
        Value::Bytes(_) => None,
        Value::Int(_) => None,
    }
}

/// Hands out the bytes where `value` is `Value::Bytes`. Trusted.
#[verifier::external_body]
fn as_bytes(value: &Value) -> (found: Option<&Vec<u8>>)
    ensures
        match found {
            Some(bytes) => byte_string(*value) == Some(bytes@),
            None => byte_string(*value) is None,
        },
{
    match value {
        Value::Bytes(bytes) => Some(bytes),
        Value::Dict(_) => None,
        Value::List(_) => None,
        Value::Int(_) => None,
    }
}

/// Calls `String::from_utf8` on a copy of the bytes. Trusted: it succeeds
/// on valid UTF-8 and on nothing else, and gives the text that the bytes
/// encode.
#[verifier::external_body]
fn utf8_text(bytes: &Vec<u8>) -> (text: Option<String>)
    ensures
        text is Some <==> valid_utf8(bytes@),
        text matches Some(t) ==> t@ == decode_utf8(bytes@),
{
    String::from_utf8(bytes.clone()).ok()
}

/// Joins the components of one path.
fn join_components(components: &Vec<Value>, separator: char) -> (joined: Option<String>)
    ensures
        match joined {
            Some(path) => texts_of(components@, components.len() as int) matches Some(texts)
                && path@ == join_spec(texts, separator),
            None => texts_of(components@, components.len() as int) is None,
        },
{
    let mut path = String::new();
    let ghost mut texts: Seq<Seq<char>> = Seq::empty();
    let mut i: usize = 0;
    while i < components.len()
        invariant
            i <= components.len(),
            texts_of(components@, i as int) == Some(texts),
            texts.len() == i,
            path@ == join_spec(texts, separator),
        decreases components.len() - i,
    {
        let text = match as_bytes(&components[i]) {
            Some(bytes) => utf8_text(bytes),
            None => None,
        };
        match text {
            Some(text) => {
                if i > 0 {
                    push_char(&mut path, separator);
                }
                path.append(text.as_str());
                proof {
                    let longer = texts.push(text@);
                    assert(longer.drop_last() == texts);
                    texts = longer;
                }
            },
            None => {
                proof {
                    lemma_texts_stay_none(components@, i + 1, components.len() as int);
                }
                return None;
            },
        }
        i += 1;
    }
    Some(path)
}

/// Once a prefix of the items fails to be texts, every longer one fails.
proof fn lemma_texts_stay_none(items: Seq<Value>, count: int, more: int)
    requires
        0 < count <= more,
        texts_of(items, count) is None,
    ensures
        texts_of(items, more) is None,
    decreases more - count,
{
    if count < more {
        lemma_texts_stay_none(items, count, more - 1);
    }
}

/// Once a prefix of the entries fails to have paths, every longer one fails.
proof fn lemma_paths_stay_none(entries: Seq<Value>, count: int, more: int, separator: char)
    requires
        0 < count <= more,
        file_paths_of(entries, count, separator) is None,
    ensures
        file_paths_of(entries, more, separator) is None,
    decreases more - count,
{
    if count < more {
        lemma_paths_stay_none(entries, count, more - 1, separator);
    }
}

/// Reads the path of one entry of `files`.
fn file_path(entry: &Value, separator: char) -> (path: Option<String>)
    ensures
        match path {
            Some(p) => file_path_of(*entry, separator) == Some(p@),
            None => file_path_of(*entry, separator) is None,
        },
{
    match dict_get(entry, "path") {
        Some(path) => match as_list(path) {
            Some(components) => join_components(components, separator),
            None => None,
        },
        None => None,
    }
}

/// Walks a decoded descriptor to the paths of the files it lists.
fn files_in(root: &Value, separator: char) -> (files: Option<Vec<String>>)
    ensures
        match files {
            Some(list) => files_of(*root, separator) == Some(crate::text::views_of(list@)),
            None => files_of(*root, separator) is None,
        },
{
    let info = match dict_get(root, "info") {
        Some(info) => info,
        None => { return None; },
    };
    if !is_dict(info) {
        return None;
    }
    let entries = match dict_get(info, "files") {
        Some(files) => match as_list(files) {
            Some(entries) => entries,
            None => { return None; },
        },
        None => {
            let empty: Vec<String> = Vec::new();
            return Some(empty);
        },
    };
    let mut list: Vec<String> = Vec::new();
    let mut i: usize = 0;
    while i < entries.len()
        invariant
            i <= entries.len(),
            files_of(*root, separator) == file_paths_of(
                entries@,
                entries.len() as int,
                separator,
            ),
            file_paths_of(entries@, i as int, separator) == Some(crate::text::views_of(list@)),
        decreases entries.len() - i,
    {
        match file_path(&entries[i], separator) {
            Some(path) => {
                list.push(path);
            },
            None => {
                proof {
                    lemma_paths_stay_none(entries@, i + 1, entries.len() as int, separator);
                }
                return None;
            },
        }
        i += 1;
    }
    Some(list)
}

/// `files` is what `expected` says: the same paths, or an error of the
/// same kind.
pub open spec fn is_outcome(
    files: Result<Vec<String>, TorrentParserError>,
    expected: Result<Seq<Seq<char>>, TorrentParserErrorKind>,
) -> bool {
    match files {
        Ok(list) => expected == Ok::<Seq<Seq<char>>, TorrentParserErrorKind>(
            crate::text::views_of(list@),
        ),
        Err(error) => expected == Err::<Seq<Seq<char>>, TorrentParserErrorKind>(error@),
    }
}

/// Reads the files that a torrent descriptor lists, each as its path
/// components joined by `separator`, in the descriptor's order. A
/// descriptor that nests deeper than `MAX_NESTING` is not decoded.
pub fn get_files_with(torrent_file_content: &[u8], separator: char) -> (files: Result<
    Vec<String>,
    TorrentParserError,
>)
    ensures
        is_outcome(files, get_files_spec(torrent_file_content@, separator)),
{
    if !nesting_within(torrent_file_content, MAX_NESTING) {
        return Err(TorrentParserError::Nesting);
    }
    match decode(torrent_file_content) {
        Ok(root) => match files_in(&root, separator) {
            Some(list) => Ok(list),
            None => Err(TorrentParserError::Layout),
        },
        Err(error) => Err(TorrentParserError::Syntax(message_of(&error))),
    }
}

/// Reads the files that a torrent descriptor lists, each as its path
/// components joined by the platform's separator: by the slash, or by
/// the backslash.
pub fn get_files(torrent_file_content: &[u8]) -> (files: Result<Vec<String>, TorrentParserError>)
    ensures
        is_outcome(files, get_files_spec(torrent_file_content@, '/')) || is_outcome(
            files,
            get_files_spec(torrent_file_content@, '\\'),
        ),
{
    let separator = crate::text::main_separator();
    get_files_with(torrent_file_content, separator)
}

/// How many paths a list of entries has does not depend on the separator
/// that joins their components.
proof fn lemma_separator_keeps_the_count(
    entries: Seq<Value>,
    count: int,
    one: char,
    other: char,
)
    ensures
        match (file_paths_of(entries, count, one), file_paths_of(entries, count, other)) {
            (Some(these), Some(those)) => these.len() == those.len(),
            (None, None) => true,
            _ => false,
        },
    decreases count,
{
    if count > 0 {
        lemma_separator_keeps_the_count(entries, count - 1, one, other);
    }
}

/// Counts the files that a torrent descriptor lists.
pub fn get_files_count(torrent_file_content: &[u8]) -> (count: Result<usize, TorrentParserError>)
    ensures
        forall|separator: char|
            match #[trigger] get_files_spec(torrent_file_content@, separator) {
                Ok(files) => count == Ok::<usize, TorrentParserError>(files.len() as usize),
                Err(kind) => count matches Err(error) && error@ == kind,
            },
{
    match get_files_with(torrent_file_content, '/') {
        Ok(files) => {
            proof {
                assert forall|separator: char|
                    (#[trigger] get_files_spec(torrent_file_content@, separator)) matches Ok(
                        listed,
                    ) && listed.len() == files.len() by {
                    let root = decoded(torrent_file_content@)->0;
                    let info = entry_of(root, "info"@)->0;
                    if entry_of(info, "files"@) is Some {
                        let entries = list_items(entry_of(info, "files"@)->0)->0;
                        lemma_separator_keeps_the_count(
                            entries,
                            entries.len() as int,
                            '/',
                            separator,
                        );
                    }
                }
            }
            Ok(files.len())
        },
        Err(error) => {
            proof {
                assert forall|separator: char|
                    (#[trigger] get_files_spec(torrent_file_content@, separator)) == Err::<
                        Seq<Seq<char>>,
                        TorrentParserErrorKind,
                    >(error@) by {
                    if nests_within(torrent_file_content@, 0, 0, MAX_NESTING as nat) && decoded(
                        torrent_file_content@,
                    ) is Some {
                        let root = decoded(torrent_file_content@)->0;
                        if entry_of(root, "info"@) is Some {
                            let info = entry_of(root, "info"@)->0;
                            if entry_of(info, "files"@) is Some && list_items(
                                entry_of(info, "files"@)->0,
                            ) is Some {
                                let entries = list_items(entry_of(info, "files"@)->0)->0;
                                lemma_separator_keeps_the_count(
                                    entries,
                                    entries.len() as int,
                                    '/',
                                    separator,
                                );
                            }
                        }
                    }
                }
            }
            Err(error)
        },
    }
}

} // verus!
