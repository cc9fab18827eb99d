use track_requests::torrent_parser::{
    get_files, get_files_count, get_files_with, nesting_within, TorrentParserError, MAX_NESTING,
};

#[test]
fn files_are_joined_in_the_order_of_the_descriptor() {
    let bytes = b"d8:announce3:url4:infod5:filesld6:lengthi10e4:pathl1:a5:b.mp3eed6:lengthi20e4:pathl5:c.logeee4:name5:album12:piece lengthi16384e6:pieces0:ee";
    let files = get_files_with(bytes, '/').unwrap();
    assert_eq!(files, vec!["a/b.mp3".to_string(), "c.log".to_string()]);
}

#[test]
fn components_are_joined_by_the_given_separator() {
    let bytes = b"d4:infod5:filesld4:pathl3:one3:two5:threeeeeee";
    assert_eq!(get_files_with(bytes, '\\').unwrap(), vec!["one\\two\\three".to_string()]);
    assert_eq!(get_files_with(bytes, '/').unwrap(), vec!["one/two/three".to_string()]);
}

#[test]
fn entry_with_an_empty_path_gives_an_empty_name() {
    let bytes = b"d4:infod5:filesld4:pathleeeee";
    assert_eq!(get_files_with(bytes, '/').unwrap(), vec![String::new()]);
}

#[test]
fn single_file_descriptor_lists_nothing() {
    let bytes = b"d4:infod6:lengthi5e4:name5:a.mp312:piece lengthi1e6:pieces0:ee";
    assert_eq!(get_files_with(bytes, '/').unwrap(), Vec::<String>::new());
}

#[test]
fn empty_file_list_lists_nothing() {
    let bytes = b"d4:infod5:filesleee";
    assert_eq!(get_files_with(bytes, '/').unwrap(), Vec::<String>::new());
}

#[test]
fn names_keep_their_letters() {
    let name = "02. Дети — Children.flac";
    let bytes = format!("d4:infod5:filesld4:pathl{}:{}eeeee", name.len(), name).into_bytes();
    assert_eq!(get_files_with(&bytes, '/').unwrap(), vec![name.to_string()]);
}

#[test]
fn bytes_that_are_no_bencode_are_a_syntax_error() {
    assert!(matches!(get_files_with(b"", '/'), Err(TorrentParserError::Syntax(_))));
    assert!(matches!(get_files_with(b"hello", '/'), Err(TorrentParserError::Syntax(_))));
    assert!(matches!(get_files_with(b"d4:info", '/'), Err(TorrentParserError::Syntax(_))));
    assert!(matches!(get_files_with(&[1u8], '/'), Err(TorrentParserError::Syntax(_))));
}

#[test]
fn other_layouts_are_a_layout_error() {
    // No dictionary at the root.
    assert_eq!(get_files_with(b"i1e", '/'), Err(TorrentParserError::Layout));
    assert_eq!(get_files_with(b"le", '/'), Err(TorrentParserError::Layout));
    // No `info`, or one that is no dictionary.
    assert_eq!(get_files_with(b"de", '/'), Err(TorrentParserError::Layout));
    assert_eq!(get_files_with(b"d4:infoi1ee", '/'), Err(TorrentParserError::Layout));
    // `files` that is no list.
    assert_eq!(get_files_with(b"d4:infod5:filesi1eee", '/'), Err(TorrentParserError::Layout));
    // An entry that is no dictionary, or has no `path`.
    assert_eq!(get_files_with(b"d4:infod5:filesli1eeee", '/'), Err(TorrentParserError::Layout));
    assert_eq!(
        get_files_with(b"d4:infod5:filesld6:lengthi1eeeee", '/'),
        Err(TorrentParserError::Layout)
    );
    // A `path` that is no list, or holds something that is no text.
    assert_eq!(
        get_files_with(b"d4:infod5:filesld4:path1:aeeee", '/'),
        Err(TorrentParserError::Layout)
    );
    assert_eq!(
        get_files_with(b"d4:infod5:filesld4:pathli1eeeeee", '/'),
        Err(TorrentParserError::Layout)
    );
}

#[test]
fn component_that_is_not_utf8_is_a_layout_error() {
    let mut bytes = b"d4:infod5:filesld4:pathl2:".to_vec();
    bytes.extend_from_slice(&[0xff, 0xfe]);
    bytes.extend_from_slice(b"eeeee");
    assert_eq!(get_files_with(&bytes, '/'), Err(TorrentParserError::Layout));
}

#[test]
fn one_bad_entry_spoils_the_list() {
    let bytes = b"d4:infod5:filesld4:pathl1:aeed4:pathi1eeeee";
    assert_eq!(get_files_with(bytes, '/'), Err(TorrentParserError::Layout));
}

fn nested(depth: usize) -> Vec<u8> {
    let mut bytes = vec![b'l'; depth];
    bytes.extend(std::iter::repeat(b'e').take(depth));
    bytes
}

#[test]
fn nesting_is_counted_token_by_token() {
    assert!(nesting_within(b"", 0));
    assert!(nesting_within(b"i1e", 0));
    assert!(nesting_within(b"4:lldd", 0));
    assert!(!nesting_within(b"le", 0));
    assert!(nesting_within(b"le", 1));
    assert!(nesting_within(b"d1:ali1ei2eee", 2));
    assert!(!nesting_within(b"d1:ali1ei2eee", 1));
    // Letters inside a byte string or a number open nothing.
    assert!(nesting_within(b"l5:llllle", 1));
    assert!(nesting_within(b"l2:ll2:dde", 1));
    assert!(!nesting_within(b"l2:lll2:dde", 1));
    assert!(nesting_within(b"lilllelee", 2));
    assert!(!nesting_within(b"lilllelee", 1));
    // Lists side by side are no deeper than one of them.
    assert!(nesting_within(b"llelelee", 2));
    assert!(!nesting_within(b"llelelee", 1));
    // What follows the value at the top is not read.
    assert!(nesting_within(b"lelllll", 1));
    assert!(nesting_within(b"i1elllll", 0));
    // Reading ends at a token that is not well-formed.
    assert!(nesting_within(b"l9:lle", 1));
    assert!(nesting_within(b"l1x:lll", 1));
    assert!(nesting_within(b"l99999999999999999999999999999999999999999:lll", 1));
    assert!(nesting_within(b"lxlll", 1));
    assert!(nesting_within(b"li1", 1));
    assert!(!nesting_within(b"l01:al", 1));
    assert!(!nesting_within(b"l0:l", 1));
}

#[test]
fn descriptors_are_read_up_to_the_bound_of_nesting() {
    assert_eq!(MAX_NESTING, 100);
    assert!(nesting_within(&nested(100), MAX_NESTING));
    assert!(!nesting_within(&nested(101), MAX_NESTING));
    assert_eq!(get_files_with(&nested(100), '/'), Err(TorrentParserError::Layout));
    assert_eq!(get_files_with(&nested(101), '/'), Err(TorrentParserError::Nesting));
    assert_eq!(get_files_with(&nested(100_000), '/'), Err(TorrentParserError::Nesting));
    assert_eq!(get_files_with(&vec![b'd'; 1_000_000], '/'), Err(TorrentParserError::Nesting));
}

#[test]
fn files_are_joined_by_the_separator_of_the_platform() {
    let bytes = b"d4:infod5:filesld4:pathl3:one3:twoeed4:pathl5:threeeeeee";
    let separator = std::path::MAIN_SEPARATOR;
    assert_eq!(
        get_files(bytes).unwrap(),
        vec![format!("one{}two", separator), "three".to_string()]
    );
    assert_eq!(get_files(b"x"), get_files_with(b"x", separator));
}

#[test]
fn files_are_counted() {
    assert_eq!(
        get_files_count(b"d4:infod5:filesld4:pathl3:one3:twoeed4:pathl5:threeeeeee"),
        Ok(2)
    );
    assert_eq!(get_files_count(b"d4:infod4:name1:aee"), Ok(0));
    assert_eq!(get_files_count(b"d4:infod5:filesleee"), Ok(0));
    assert_eq!(get_files_count(b"de"), Err(TorrentParserError::Layout));
    assert_eq!(
        get_files_count(b"d4:infod5:filesld4:pathl1:aeed4:pathi1eeeee"),
        Err(TorrentParserError::Layout)
    );
    assert!(matches!(get_files_count(b"d"), Err(TorrentParserError::Syntax(_))));
}

/// The files of an album, as its descriptor lists them.
const ALBUM_FILES: [&str; 18] = [
    "00. Ted Irens - Life @ Mirror.m3u",
    "00. Ted Irens - Life @ Mirror.nfo",
    "01. Ted Irens - Sunday Breakfast.flac",
    "02. Ted Irens - Rain In The Forest.flac",
    "03. Ted Irens - Another Moon Night.flac",
    "04. Ted Irens - Rising Star.flac",
    "05. Ted Irens - Dreamland Trip.flac",
    "06. Ted Irens - Northern Lights.flac",
    "07. Ted Irens - Winter's Sunset.flac",
    "08. Ted Irens - Two Mountains.flac",
    "09. Ted Irens - Living In Clouds.flac",
    "10. Ted Irens - Summer Evening.flac",
    "11. Ted Irens - Crystal Driver.flac",
    "12. Ted Irens - Rider.flac",
    "13. Ted Irens - Dancing On The Moon.flac",
    "14. Ted Irens - The City.flac",
    "audiochecker.log",
    "Folder.jpg",
];

/// A bencoded byte string.
fn text(value: &str) -> Vec<u8> {
    format!("{}:{}", value.len(), value).into_bytes()
}

/// A descriptor of the album, with the keys of each dictionary in order.
fn album_descriptor() -> Vec<u8> {
    let mut out = Vec::new();
    out.push(b'd');
    out.extend(text("announce"));
    out.extend(text("http://tracker.example/announce"));
    out.extend(text("created by"));
    out.extend(text("uTorrent/3"));
    out.extend(text("creation date"));
    out.extend_from_slice(b"i1400000000e");
    out.extend(text("encoding"));
    out.extend(text("UTF-8"));
    out.extend(text("info"));
    out.push(b'd');
    out.extend(text("files"));
    out.push(b'l');
    for (index, name) in ALBUM_FILES.iter().enumerate() {
        out.push(b'd');
        out.extend(text("length"));
        out.extend_from_slice(format!("i{}e", 1000 + index).as_bytes());
        out.extend(text("path"));
        out.push(b'l');
        out.extend(text(name));
        out.extend_from_slice(b"ee");
    }
    out.push(b'e');
    out.extend(text("name"));
    out.extend(text("Ted Irens - Life @ Mirror"));
    out.extend(text("piece length"));
    out.extend_from_slice(b"i65536e");
    out.extend(text("pieces"));
    out.extend_from_slice(b"20:");
    out.extend_from_slice(&[0xaau8; 20]);
    out.extend_from_slice(b"ee");
    out
}

#[test]
fn test_getting_files_count() {
    let contents = album_descriptor();
    let files_count = get_files_count(&contents).unwrap();

    assert_eq!(18, files_count);
}

#[test]
fn test_getting_files_list() {
    let contents = album_descriptor();
    let files = get_files(&contents).unwrap();

    assert_eq!(
        vec![
            "00. Ted Irens - Life @ Mirror.m3u",
            "00. Ted Irens - Life @ Mirror.nfo",
            "01. Ted Irens - Sunday Breakfast.flac",
            "02. Ted Irens - Rain In The Forest.flac",
            "03. Ted Irens - Another Moon Night.flac",
            "04. Ted Irens - Rising Star.flac",
            "05. Ted Irens - Dreamland Trip.flac",
            "06. Ted Irens - Northern Lights.flac",
            "07. Ted Irens - Winter's Sunset.flac",
            "08. Ted Irens - Two Mountains.flac",
            "09. Ted Irens - Living In Clouds.flac",
            "10. Ted Irens - Summer Evening.flac",
            "11. Ted Irens - Crystal Driver.flac",
            "12. Ted Irens - Rider.flac",
            "13. Ted Irens - Dancing On The Moon.flac",
            "14. Ted Irens - The City.flac",
            "audiochecker.log",
            "Folder.jpg"
        ],
        files
    );
}

#[test]
fn syntax_error_carries_the_message_of_the_decoder() {
    match get_files_with(b"x", '/') {
        Err(TorrentParserError::Syntax(message)) => assert!(!message.is_empty()),
        other => panic!("unexpected outcome: {:?}", other),
    }
}
