use track_requests::adapters::{uploaded_track, RadioManagerClientError, RadioManagerResponse};
use track_requests::config::{default_bind_address, default_shutdown_timeout};
use track_requests::ids::{
    DownloadId, RadioManagerTrackId, RequestId, TopicId, TorrentId, UserId,
};
use track_requests::search::{
    get_search_result_priority, parse_and_validate_auth_state, parse_search_rows, rank_topics,
    read_search_row, read_topic, AuthError, FoundTopic, SearchResult, SearchRow, Topic,
};
use track_requests::state::AudioMetadata;
use track_requests::text::{
    contains_ignore_case, contains_in_filename_ignore_case, contains_in_filename_ignore_case_with,
    decimal_text, file_name, find_first_match, parse_u64, remove_all, select_matching,
};
use track_requests::transitions::{find_first_untried, full_path, is_tried, search_queries};
use track_requests::adapters::TopicData;

#[test]
fn case_is_ignored_on_both_sides() {
    assert!(contains_ignore_case("Path/To/02 - CHILDREN.mp3", "children"));
    assert!(contains_ignore_case("path/to/02 - children.mp3", "ChIlDrEn"));
    assert!(contains_ignore_case("ДЕТИ.flac", "дети"));
    assert!(contains_ignore_case("anything", ""));
    assert!(!contains_ignore_case("path/to/track02.mp3", "Children"));
    assert!(!contains_ignore_case("child", "children"));
}

#[test]
fn file_name_is_what_follows_the_last_separator() {
    assert_eq!(file_name("path/to/file.mp3", '/'), "file.mp3");
    assert_eq!(file_name("file.mp3", '/'), "file.mp3");
    assert_eq!(file_name("path/to/", '/'), "");
    assert_eq!(file_name("", '/'), "");
    assert_eq!(file_name("a\\b/c\\d", '\\'), "d");
    assert_eq!(file_name("путь/песня.mp3", '/'), "песня.mp3");
}

#[test]
fn only_the_file_name_is_searched() {
    assert!(contains_in_filename_ignore_case_with("Album/Children.mp3", "children", '/'));
    assert!(!contains_in_filename_ignore_case_with("Children/track02.mp3", "children", '/'));
    assert!(contains_in_filename_ignore_case_with("Children/track02.mp3", "children", '\\'));
    let separator = std::path::MAIN_SEPARATOR;
    let path = format!("Children{}track02.mp3", separator);
    assert!(!contains_in_filename_ignore_case(&path, "children"));
    assert!(contains_in_filename_ignore_case(&path, "TRACK"));
}

#[test]
fn first_match_and_selection_follow_the_order_of_the_files() {
    let files: Vec<String> =
        vec!["cover.jpg".into(), "01 Children.mp3".into(), "02 children (live).mp3".into()];
    assert_eq!(find_first_match(&files, "Children"), Some(1));
    assert_eq!(select_matching(&files, "Children"), vec![1, 2]);
    assert_eq!(find_first_match(&files, "Fable"), None);
    assert_eq!(select_matching(&files, "Fable"), Vec::<i32>::new());
    assert_eq!(select_matching(&files, ""), vec![0, 1, 2]);
    assert_eq!(find_first_match(&Vec::new(), "x"), None);
}

#[test]
fn queries_are_built_from_artist_and_album() {
    let metadata = AudioMetadata {
        title: "Children".into(),
        artist: "Robert Miles".into(),
        album: "Dreamland".into(),
    };
    assert_eq!(
        search_queries(&metadata),
        vec![
            "Robert Miles - Dreamland".to_string(),
            "Robert Miles дискография".to_string(),
            "Robert Miles discography".to_string(),
            "Robert Miles дискографія".to_string(),
        ]
    );
}

#[test]
fn full_path_joins_with_a_slash() {
    assert_eq!(full_path("downloads", "path/to/track02.mp3"), "downloads/path/to/track02.mp3");
    assert_eq!(full_path("", "a"), "/a");
}

#[test]
fn untried_topics_are_found_in_order() {
    let results: Vec<TopicData> = [5u64, 6, 7]
        .iter()
        .map(|id| TopicData {
            topic_id: TopicId(*id),
            download_id: DownloadId(*id + 100),
            title: format!("topic {}", id),
        })
        .collect();
    assert_eq!(find_first_untried(&vec![], &results), Some(0));
    assert_eq!(find_first_untried(&vec![TopicId(5)], &results), Some(1));
    assert_eq!(find_first_untried(&vec![TopicId(6), TopicId(5)], &results), Some(2));
    assert_eq!(find_first_untried(&vec![TopicId(7), TopicId(6), TopicId(5)], &results), None);
    assert!(is_tried(&vec![TopicId(1), TopicId(2)], TopicId(2)));
    assert!(!is_tried(&vec![TopicId(1), TopicId(2)], TopicId(3)));
}

fn result(title: &str, seeds_number: u64) -> SearchResult {
    SearchResult { title: title.into(), topic_id: TopicId(1), seeds_number }
}

#[test]
fn priority_adds_format_bitrate_and_seeds() {
    // FLAC (0), lossless (0), 18 seeds (2).
    assert_eq!(get_search_result_priority(&result("Dreamland - 1996, FLAC (tracks+.cue), lossless", 18)), 2);
    // MP3 (1 * 5), 320 kbps (1 * 10), 9 seeds (3).
    assert_eq!(get_search_result_priority(&result("Dreamland - 2016, MP3, 320 kbps", 9)), 18);
    // ALAC (2 * 5), lossless (0), 3 seeds (3).
    assert_eq!(get_search_result_priority(&result("Dreamland - 1996, ALAC, lossless", 3)), 13);
    // AAC (3 * 5), 256 kbps (2 * 10), 2 seeds (3).
    assert_eq!(get_search_result_priority(&result("Dreamland [WEB], AAC (tracks) 256 kbps", 2)), 38);
    // Nothing known (10 * 5 + 10 * 10), no seeds (10).
    assert_eq!(get_search_result_priority(&result("Dreamland", 0)), 160);
    assert_eq!(get_search_result_priority(&result("Dreamland", 29)), 151);
    assert_eq!(get_search_result_priority(&result("Dreamland", 30)), 150);
    assert_eq!(get_search_result_priority(&result("Dreamland", 10)), 152);
    assert_eq!(get_search_result_priority(&result("Dreamland", 20)), 151);
    // The first format that occurs in the list counts, not the first in the title.
    assert_eq!(get_search_result_priority(&result("MP3 and FLAC", 30)), 100);
    // Formats are matched as written.
    assert_eq!(get_search_result_priority(&result("flac LOSSLESS", 30)), 150);
}

#[test]
fn auth_state_is_read_off_the_page() {
    assert_eq!(parse_and_validate_auth_state("<a class=\"log-out-icon\">"), Ok(()));
    assert_eq!(
        parse_and_validate_auth_state("... введите код подтверждения ... log-out-icon"),
        Err(AuthError::CaptchaVerificationIsRequired)
    );
    assert_eq!(
        parse_and_validate_auth_state("неверный пароль log-out-icon"),
        Err(AuthError::IncorrectPasswordText)
    );
    assert_eq!(
        parse_and_validate_auth_state("неверный пароль, введите код подтверждения"),
        Err(AuthError::CaptchaVerificationIsRequired)
    );
    assert_eq!(parse_and_validate_auth_state("<html></html>"), Err(AuthError::UnknownAuthError));
    assert_eq!(parse_and_validate_auth_state(""), Err(AuthError::UnknownAuthError));
}

#[test]
fn topic_is_a_pair_of_identifiers() {
    let topic = Topic { topic_id: TopicId(5309922), download_id: DownloadId(5309922) };
    assert_eq!(topic, Topic { topic_id: 5309922.into(), download_id: 5309922.into() });
    assert_eq!(UserId::from(1), UserId(1));
    assert_eq!(TorrentId::from(-3), TorrentId(-3));
}

#[test]
fn defaults_of_the_configuration() {
    assert_eq!(default_bind_address(), "0.0.0.0:8080");
    assert_eq!(default_shutdown_timeout(), 30);
}

#[test]
fn backend_answer_is_an_error_unless_its_code_is_one() {
    let fine = RadioManagerResponse { code: 1, message: "OK".to_string(), data: 7u32 };
    assert_eq!(fine.error_for_code(), Ok(7));
    let bad = RadioManagerResponse { code: 0, message: "No access".to_string(), data: 7u32 };
    assert_eq!(
        bad.error_for_code(),
        Err(RadioManagerClientError("Unexpected error: No access".into()))
    );
    let odd = RadioManagerResponse { code: -1, message: String::new(), data: () };
    assert_eq!(odd.error_for_code(), Err(RadioManagerClientError("Unexpected error: ".into())));
}

#[test]
fn upload_stands_for_the_first_track_it_reports() {
    assert_eq!(uploaded_track(&vec![7, 8]), Ok(RadioManagerTrackId(7)));
    assert_eq!(
        uploaded_track(&vec![]),
        Err(RadioManagerClientError("Unexpected error: No tracks were uploaded".into()))
    );
}

fn row(category: &str, title: &str, topic: &str, link: &str, seeds: &str) -> SearchRow {
    SearchRow {
        category: Some(category.into()),
        title: Some(title.into()),
        topic_id: Some(topic.into()),
        download_link: Some(link.into()),
        seeds_number: Some(seeds.into()),
    }
}

#[test]
fn rows_are_read_and_ranked() {
    let rows = vec![
        row("Trance (lossy)", "Dreamland, MP3, 320 kbps", "5309922", "dl.php?t=5309922", "9"),
        row("Video", "Dreamland (DVD)", "1", "dl.php?t=1", "100"),
        row("Trance (Lossless)", "Dreamland, FLAC (image+.cue), lossless", "2", "dl.php?t=2", "50"),
        row("Trance (lossless)", "Dreamland, FLAC (tracks), lossless", "5318721", "dl.php?t=42", "8"),
        row("Trance (lossless)", "Dreamland, ALAC, lossless", "1201152", "dl.php?t=1201152", "3"),
        row("Trance (lossless)", "Dreamland, FLAC, lossless", "x", "dl.php?t=3", "8"),
        row("Trance (lossless)", "Dreamland, FLAC, lossless", "3", "magnet:3", "8"),
        row("Trance (lossless)", "Dreamland, FLAC, lossless", "3", "dl.php?t=3", "many"),
        SearchRow { seeds_number: None, ..row("lossless", "FLAC", "4", "dl.php?t=4", "1") },
        SearchRow { category: None, ..row("lossless", "FLAC", "4", "dl.php?t=4", "1") },
        row("Trance (lossless)", "Dreamland - 1996, FLAC (tracks+.cue) lossless", "3418878", "dl.php?t=7", "4"),
    ];
    let ranked = parse_search_rows(&rows);
    let topics: Vec<(u64, u64)> =
        ranked.iter().map(|found| (found.result.topic_id.0, found.download_id.0)).collect();
    assert_eq!(
        topics,
        vec![(5318721, 42), (3418878, 7), (1201152, 1201152), (5309922, 5309922)]
    );
    assert_eq!(ranked[0].result.title, "Dreamland, FLAC (tracks), lossless");
    assert_eq!(ranked[0].result.seeds_number, 8);
    assert_eq!(parse_search_rows(&vec![]), vec![]);
    assert_eq!(read_search_row(&rows[1]), None);
    assert_eq!(read_search_row(&rows[0]).map(|found| found.download_id), Some(DownloadId(5309922)));
}

#[test]
fn ranking_keeps_the_order_among_equals() {
    let found: Vec<FoundTopic> = [(1u64, "MP3", 5u64), (2, "FLAC", 5), (3, "MP3", 7), (4, "FLAC", 1), (5, "AAC", 40)]
        .iter()
        .map(|(topic, title, seeds)| FoundTopic {
            result: SearchResult {
                title: title.to_string(),
                topic_id: TopicId(*topic),
                seeds_number: *seeds,
            },
            download_id: DownloadId(*topic),
        })
        .collect();
    let mut expected: Vec<(usize, u64)> = found
        .iter()
        .map(|topic| (get_search_result_priority(&topic.result), topic.result.topic_id.0))
        .collect();
    expected.sort_by_key(|(priority, _)| *priority);
    let ranked: Vec<u64> =
        rank_topics(&found).iter().map(|topic| topic.result.topic_id.0).collect();
    assert_eq!(ranked, expected.iter().map(|(_, topic)| *topic).collect::<Vec<_>>());
    assert_eq!(ranked, vec![2, 4, 1, 3, 5]);
}

#[test]
fn topic_is_read_off_its_links() {
    assert_eq!(
        read_topic(Some("viewtopic.php?t=5309922"), Some("dl.php?t=5309922")),
        Some(Topic { topic_id: TopicId(5309922), download_id: DownloadId(5309922) })
    );
    assert_eq!(read_topic(Some("viewtopic.php?t=1"), None), None);
    assert_eq!(read_topic(None, Some("dl.php?t=1")), None);
    assert_eq!(read_topic(Some("viewtopic.php?p=1"), Some("dl.php?t=1")), None);
    assert_eq!(read_topic(Some("7"), Some("8")), Some(Topic { topic_id: TopicId(7), download_id: DownloadId(8) }));
}

#[test]
fn request_identifier_has_its_canonical_text() {
    let id = RequestId(0xa1a2a3a4b1b2c1c2d1d2d3d4d5d6d7d8);
    assert_eq!(id.to_text(), "a1a2a3a4-b1b2-c1c2-d1d2-d3d4d5d6d7d8");
    assert_eq!(RequestId(0).to_text(), "00000000-0000-0000-0000-000000000000");
    assert_eq!(RequestId(1).to_text(), "00000000-0000-0000-0000-000000000001");
    assert_eq!(RequestId(u128::MAX).to_text(), "ffffffff-ffff-ffff-ffff-ffffffffffff");
    assert_eq!(RequestId::parse("a1a2a3a4-b1b2-c1c2-d1d2-d3d4d5d6d7d8"), Some(id));
    assert_eq!(RequestId::parse("A1A2A3A4B1B2C1C2D1D2D3D4D5D6D7D8"), Some(id));
    assert_eq!(RequestId::parse("not an identifier"), None);
    assert_eq!(RequestId::parse(""), None);
    let fresh = RequestId::generate();
    assert_eq!(RequestId::parse(&fresh.to_text()), Some(fresh));
    assert_ne!(RequestId::generate(), RequestId::generate());
}

#[test]
fn generated_identifier_is_a_random_uuid() {
    for _ in 0..64 {
        let id = RequestId::generate();
        // The thirteenth digit is the version, the seventeenth the variant.
        assert_eq!((id.0 >> 76) & 0xf, 4);
        let variant = (id.0 >> 60) & 0xf;
        assert!((8..=11).contains(&variant), "variant digit {:x}", variant);
        let text = id.to_text();
        assert_eq!(text.as_bytes()[14], b'4');
        assert!(b"89ab".contains(&text.as_bytes()[19]));
    }
}

#[test]
fn numbers_are_written_in_decimal() {
    assert_eq!(decimal_text(0), "0");
    assert_eq!(decimal_text(7), "7");
    assert_eq!(decimal_text(10), "10");
    assert_eq!(decimal_text(4096), "4096");
    assert_eq!(decimal_text(u64::MAX), "18446744073709551615");
    for value in [0u64, 1, 9, 10, 99, 100, 12345678901234567890] {
        assert_eq!(decimal_text(value), value.to_string());
    }
}

#[test]
fn numbers_are_read_as_the_standard_library_reads_them() {
    assert_eq!(parse_u64("0"), Some(0));
    assert_eq!(parse_u64("42"), Some(42));
    assert_eq!(parse_u64("+42"), Some(42));
    assert_eq!(parse_u64("0042"), Some(42));
    assert_eq!(parse_u64("18446744073709551615"), Some(u64::MAX));
    assert_eq!(parse_u64("18446744073709551616"), None);
    assert_eq!(parse_u64("99999999999999999999999"), None);
    for text in [
        "", "+", "-", "++1", "+-1", "-1", "1+", "1 ", " 1", "1_000", "0x10", "1.0", "١٢٣", "12a",
        "a12", "+18446744073709551616", "000000000000000000000000000001",
    ] {
        assert_eq!(parse_u64(text), text.parse::<u64>().ok(), "{:?}", text);
    }
}

#[test]
fn occurrences_are_taken_out_from_the_left() {
    assert_eq!(remove_all("1-ctx", "-ctx"), "1");
    assert_eq!(remove_all("-ctx-ctx", "-ctx"), "");
    assert_eq!(remove_all("a-ctxb-ctxc", "-ctx"), "abc");
    assert_eq!(remove_all("-ct-ctxx", "-ctx"), "-ctx");
    assert_eq!(remove_all("aaa", "aa"), "a");
    assert_eq!(remove_all("", "-ctx"), "");
    assert_eq!(remove_all("-ct", "-ctx"), "-ct");
    // An empty pattern occurs nowhere.
    assert_eq!(remove_all("abc", ""), "abc");
    assert_eq!(remove_all("", ""), "");
    assert_eq!(remove_all("abc", ""), "abc".replace("", ""));
    assert_eq!(remove_all("жучок-ctx", "-ctx"), "жучок");
    for (text, pattern) in [("abcabcab", "abc"), ("zzzzz", "zz"), ("--ctx-ctx-", "-ctx")] {
        assert_eq!(remove_all(text, pattern), text.replace(pattern, ""));
    }
}

#[test]
fn ranking_puts_lossless_and_well_seeded_results_first() {
    let ranked = vec![
        ("(Trance, Dream House, Downtempo) Robert Miles - Dreamland - 1996 (Deconstruction [74321 42974 2]), FLAC (tracks+.cue), lossless", 1183770u64, 18u64),
        ("(Trance, Dream House, Downtempo) Robert Miles - Dreamland (The Winter Edition) - 1996 (Urban #533 791-2), FLAC (tracks+.cue), lossless", 1184081, 11),
        ("(Trance) [WEB] Robert Miles - Dreamland (Remastered) - 2016, FLAC (tracks), lossless", 5318721, 8),
        ("(Trance, Dream House, Downtempo) Robert Miles - Dreamland - 1996, FLAC (tracks+.cue) lossless", 3418878, 4),
        ("Robert Miles - Dreamland - 1996, ALAC, lossless", 1201152, 3),
        ("(Trance) Robert Miles - Dreamland (Remastered) - 2016, MP3, 320 kbps", 5309922, 9),
        ("(Dream House) Robert Miles - Dreamland (Including One and One) - 1996 [WEB], AAC (tracks) 256 kbps", 4737164, 2),
    ];
    let priorities: Vec<usize> = ranked
        .iter()
        .map(|(title, topic, seeds)| {
            get_search_result_priority(&SearchResult {
                title: title.to_string(),
                topic_id: TopicId(*topic),
                seeds_number: *seeds,
            })
        })
        .collect();
    assert_eq!(priorities, vec![2, 2, 3, 3, 13, 18, 38]);

    // Sorting by priority keeps results of one priority in their order.
    let mut shuffled: Vec<usize> = vec![5, 2, 6, 0, 4, 3, 1];
    shuffled.sort_by_key(|index| (priorities[*index], *index));
    assert_eq!(shuffled, vec![0, 1, 2, 3, 4, 5, 6]);
}
