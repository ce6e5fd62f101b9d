use downloader::error::{BackupError, ParseFault};
use downloader::number::parse_micros;
use downloader::playlist::{
    extract_track_info_from_playlist, extract_track_info_from_playlist_file, track_info, Segment,
};

const SAMPLE_PLAYLIST: &str = "#EXTM3U\n#EXT-X-VERSION:3\n#EXT-X-MEDIA-SEQUENCE:0\n\
#EXT-X-ALLOW-CACHE:YES\n#EXT-X-TARGETDURATION:18002\n#EXTINF:18001.720898,\n\
1740252892.mp4_000.mp4\n#EXTINF:14633.040755,\n1740252892.mp4_001.mp4\n#EXT-X-ENDLIST\n";

fn micros(text: &str) -> Option<u64> {
    let chars: Vec<char> = text.chars().collect();
    parse_micros(&chars)
}

fn seconds(micros: u64) -> f64 {
    micros as f64 / 1_000_000.0
}

#[test]
fn test_extract_track_info_from_playlist() {
    let (total_time, parts) = extract_track_info_from_playlist(SAMPLE_PLAYLIST.to_string())
        .expect("failed to extract track info from playlist");
    assert_eq!(seconds(total_time.unwrap()), 18002.0 as f64);
    assert_eq!(parts.len(), 2);

    assert_eq!(
        (parts[0].path.clone(), seconds(parts[0].duration_micros)),
        ("1740252892.mp4_000.mp4".to_string(), 18001.720898 as f64)
    );
    assert_eq!(
        (parts[1].path.clone(), seconds(parts[1].duration_micros)),
        ("1740252892.mp4_001.mp4".to_string(), 14633.040755 as f64)
    );
}

#[test]
fn test_extract_track_info_from_playlist_file() {
    let parent_dir = std::path::Path::new("tests/test_data/");
    let res = extract_track_info_from_playlist_file(
        "tests/test_data/",
        SAMPLE_PLAYLIST.to_string(),
    )
    .unwrap();
    let (parts, second_last_time, last_time, second_last_path, last_path) = res;
    assert_eq!(parts.len(), 2);

    let first = parent_dir.join("1740252892.mp4_000.mp4");
    let second = parent_dir.join("1740252892.mp4_001.mp4");
    assert_eq!(second_last_path, Some(first.to_str().unwrap().to_string()));
    assert_eq!(last_path, Some(second.to_str().unwrap().to_string()));
    assert_eq!(parts[0], first.to_str().unwrap());
    assert_eq!(parts[1], second.to_str().unwrap());
    assert_eq!(seconds(second_last_time), 18001.720898 as f64);
    assert_eq!(seconds(last_time), 14633.040755 as f64);
}

#[test]
fn playlist_file_with_one_part_has_no_second_last() {
    let res = extract_track_info_from_playlist_file("dir", "#EXTINF:4.5,\nonly.mp4\n".to_string())
        .unwrap();
    assert_eq!(res.0, vec![std::path::Path::new("dir").join("only.mp4").to_str().unwrap()]);
    assert_eq!(res.1, 0);
    assert_eq!(res.2, 4_500_000);
    assert_eq!(res.3, None);
    assert!(res.4.is_some());
}

#[test]
fn playlist_file_without_parts_is_empty() {
    let res = extract_track_info_from_playlist_file("dir", "#EXTM3U\n".to_string()).unwrap();
    assert!(res.0.is_empty());
    assert_eq!((res.1, res.2), (0, 0));
    assert_eq!((res.3, res.4), (None, None));
}

#[test]
fn exact_microseconds_of_the_sample() {
    let (total, parts) = extract_track_info_from_playlist(SAMPLE_PLAYLIST.to_string()).unwrap();
    assert_eq!(total, Some(18_002_000_000));
    assert_eq!(
        parts,
        vec![
            Segment { path: "1740252892.mp4_000.mp4".to_string(), duration_micros: 18_001_720_898 },
            Segment { path: "1740252892.mp4_001.mp4".to_string(), duration_micros: 14_633_040_755 },
        ]
    );
}

#[test]
fn pairs_without_end_marker_all_come_out_in_order() {
    let mut text = String::new();
    for i in 0..7 {
        text.push_str(&format!("#EXTINF:{}.25,\npart_{}.mp4\n", i, i));
    }
    let (total, parts) = extract_track_info_from_playlist(text).unwrap();
    assert_eq!(total, None);
    assert_eq!(parts.len(), 7);
    for (i, part) in parts.iter().enumerate() {
        assert_eq!(part.path, format!("part_{}.mp4", i));
        assert_eq!(part.duration_micros, i as u64 * 1_000_000 + 250_000);
    }
}

#[test]
fn parsing_stops_at_the_end_marker() {
    let text = "#EXTINF:1.0,\na.mp4\n#EXT-X-ENDLIST\n#EXTINF:2.0,\nb.mp4\nstray.mp4\n#EXTINF:x\n";
    let (_, parts) = extract_track_info_from_playlist(text.to_string()).unwrap();
    assert_eq!(parts, vec![Segment { path: "a.mp4".to_string(), duration_micros: 1_000_000 }]);
}

#[test]
fn path_before_any_duration_is_refused() {
    let res = extract_track_info_from_playlist("a.mp4\n#EXTINF:1.0,\nb.mp4\n".to_string());
    assert_eq!(res, Err(BackupError::Parse(ParseFault::PathWithoutDuration)));
    let res = extract_track_info_from_playlist("#EXTINF:1.0,\na.mp4\nb.mp4\n".to_string());
    assert_eq!(res, Err(BackupError::Parse(ParseFault::PathWithoutDuration)));
}

#[test]
fn malformed_numbers_are_refused() {
    let res = extract_track_info_from_playlist("#EXTINF:abc,\na.mp4\n".to_string());
    assert_eq!(res, Err(BackupError::Parse(ParseFault::MalformedDuration)));
    let res = extract_track_info_from_playlist("#EXTINF:,\na.mp4\n".to_string());
    assert_eq!(res, Err(BackupError::Parse(ParseFault::MalformedDuration)));
    let res = extract_track_info_from_playlist("#EXT-X-TARGETDURATION:1x\n".to_string());
    assert_eq!(res, Err(BackupError::Parse(ParseFault::MalformedTotal)));
}

#[test]
fn blank_lines_comments_and_line_endings() {
    let text = "#EXTM3U\r\n\r\n#EXTINF: 3.5 ,\r\n# a comment\r\n\r\n  a b.mp4  \r\n#EXTINF:2,\nlast.mp4";
    let res = extract_track_info_from_playlist(text.to_string());
    assert_eq!(res, Err(BackupError::Parse(ParseFault::MalformedDuration)));
    let text = "#EXTM3U\r\n\r\n#EXTINF: 3.5,\r\n# a comment\r\n\r\n  a b.mp4  \r\n#EXTINF:2,\nlast.mp4";
    let (_, parts) = extract_track_info_from_playlist(text.to_string()).unwrap();
    assert_eq!(
        parts,
        vec![
            Segment { path: "a b.mp4".to_string(), duration_micros: 3_500_000 },
            Segment { path: "last.mp4".to_string(), duration_micros: 2_000_000 },
        ]
    );
}

#[test]
fn a_later_duration_replaces_a_pending_one() {
    let text = "#EXTINF:1,\n#EXTINF:2,\na.mp4\n#EXTINF:9,\n";
    let (_, parts) = extract_track_info_from_playlist(text.to_string()).unwrap();
    assert_eq!(parts, vec![Segment { path: "a.mp4".to_string(), duration_micros: 2_000_000 }]);
}

#[test]
fn empty_manifest_has_no_parts() {
    let (total, parts) = extract_track_info_from_playlist(String::new()).unwrap();
    assert_eq!(total, None);
    assert!(parts.is_empty());
}

#[test]
fn decimal_numbers_as_microseconds() {
    assert_eq!(micros("0"), Some(0));
    assert_eq!(micros("5"), Some(5_000_000));
    assert_eq!(micros("5."), Some(5_000_000));
    assert_eq!(micros(".5"), Some(500_000));
    assert_eq!(micros("18001.720898"), Some(18_001_720_898));
    assert_eq!(micros("1.0000019"), Some(1_000_001));
    assert_eq!(micros("007.25"), Some(7_250_000));
    assert_eq!(micros(""), None);
    assert_eq!(micros("."), None);
    assert_eq!(micros("1.2.3"), None);
    assert_eq!(micros("-1"), None);
    assert_eq!(micros("+1"), None);
    assert_eq!(micros("1e3"), None);
    assert_eq!(micros("1.5x"), None);
    assert_eq!(micros("1.1234567x"), None);
    assert_eq!(micros(" 1"), None);
}

#[test]
fn decimal_numbers_at_the_edge_of_the_range() {
    assert_eq!(micros("18446744073709.551615"), Some(u64::MAX));
    assert_eq!(micros("18446744073709.5516159"), Some(u64::MAX));
    assert_eq!(micros("18446744073709.551616"), None);
    assert_eq!(micros("18446744073710"), None);
    assert_eq!(micros("99999999999999999999999999999999"), None);
}

#[test]
fn track_info_of_given_paths() {
    let segments = vec![
        Segment { path: "a".to_string(), duration_micros: 1 },
        Segment { path: "b".to_string(), duration_micros: 2 },
        Segment { path: "c".to_string(), duration_micros: 3 },
    ];
    let paths = vec!["x/a".to_string(), "x/b".to_string(), "x/c".to_string()];
    let info = track_info(&segments, paths.clone());
    assert_eq!(info, (paths, 2, 3, Some("x/b".to_string()), Some("x/c".to_string())));
    let info = track_info(&segments[..1].to_vec(), vec!["x/a".to_string()]);
    assert_eq!(info, (vec!["x/a".to_string()], 0, 1, None, Some("x/a".to_string())));
    let info = track_info(&vec![], vec![]);
    assert_eq!(info, (vec![], 0, 0, None, None));
}
