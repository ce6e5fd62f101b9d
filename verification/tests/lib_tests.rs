use downloader::data::{Config, Streamers, VideoData, VideoMetadata, Videos};
use downloader::error::{BackupError, VideoField};
use downloader::titles::{
    creation_date, date_string, date_tag_string, playlist_title_string, prefix_string,
    title_string,
};
use downloader::{
    cap_long_title, duration_to_string, get_date_string_from_video,
    get_playlist_title_from_twitch_video, get_video_description_from_twitch_video,
    get_video_prefix_from_twitch_video, get_video_title_from_twitch_video,
    MAX_VIDEO_TITLE_LENGTH, PART_PREFIX_LENGTH, PREFIX_LENGTH,
};

fn get_sample_video() -> VideoData {
    VideoData {
        video: Videos {
            created_at: Some(get_utc_from_string("2021-01-01T00:00:00")),
            video_id: 1,
            title: Some("Test Video".to_string()),
            description: Some("Test Description".to_string()),
            bool_test: Some(true),
            user_login: Some("nopixelvods".to_string()),
            url: Some("https://www.twitch.tv/videos/1".to_string()),
            viewable: Some("public".to_string()),
            language: Some("en".to_string()),
            view_count: Some(1),
            video_type: Some("archive".to_string()),
            duration: Some(1),
            thumbnail_url: Some("i dont know".to_string()),
        },
        metadata: VideoMetadata {
            video_id: 1,
            backed_up: Some(false),
            ..Default::default()
        },
        streamer: Streamers {
            display_name: Some("NoPixel VODs".to_string()),
            login: "nopixelvods".to_string(),
            youtube_user: Some("NoPixel VODs".to_string()),
            watched: Some(true),
            public_videos_default: Some(false),
            youtube_google_ident: None,
        },
    }
}

fn get_utc_from_string(s: &str) -> i64 {
    let n = chrono::NaiveDateTime::parse_from_str(s, "%Y-%m-%dT%H:%M:%S").unwrap();
    n.and_utc().timestamp()
}

fn config_with_template(template: &str) -> Config {
    Config {
        download_folder_path: "downloads".to_string(),
        youtube_description_template: template.to_string(),
        youtube_tags: vec!["backup".to_string()],
        youtube_video_length_minutes_soft_cap: 300,
        youtube_video_length_minutes_hard_cap: 359,
    }
}

const LONG_TITLE: &'static str =
    "long title with over a hundred characters that is definitely going to \
    be cut of because it does not fit into the maximum length that youtube requires";

const LONG_TITLE_ONLY_EMOJI: &'static str = "🔴🟠🔴🟠🔴🟠🔴🟠🔴🟠🔴🟠🔴🟠🔴🟠🔴🟠🔴🟠\
                                             🔴🟠🔴🟠🔴🟠🔴🟠🔴🟠🔴🟠🔴🟠🔴🟠🔴🟠🔴🟠\
                                             🔴🟠🔴🟠🔴🟠🔴🟠🔴🟠🔴🟠🔴🟠🔴🟠🔴🟠🔴🟠\
                                             🔴🟠🔴🟠🔴🟠🔴🟠🔴🟠🔴🟠🔴🟠🔴🟠🔴🟠🔴🟠\
                                             🔴🟠🔴🟠🔴🟠🔴🟠🔴🟠🔴🟠🔴🟠🔴🟠🔴🟠🔴🟠\
                                             🔴🟠🔴🟠🔴🟠🔴🟠🔴🟠🔴🟠🔴🟠🔴🟠🔴🟠🔴🟠\
                                             🔴🟠🔴🟠🔴🟠🔴🟠🔴🟠🔴🟠🔴🟠🔴🟠🔴🟠🔴🟠\
                                             🔴🟠🔴🟠🔴🟠🔴🟠🔴🟠🔴🟠🔴🟠🔴🟠🔴🟠🔴🟠\
                                             🔴🟠🔴🟠🔴🟠🔴🟠🔴🟠🔴🟠🔴🟠🔴🟠🔴🟠🔴🟠";

#[test]
fn test_duration_to_string() {
    let res = duration_to_string(0);
    assert_eq!(res, "00:00:00");

    let res = duration_to_string(1);
    assert_eq!(res, "00:00:01");

    let res = duration_to_string(60);
    assert_eq!(res, "00:01:00");

    let res = duration_to_string(3600);
    assert_eq!(res, "01:00:00");

    let res = duration_to_string(3600 + 60 + 1);
    assert_eq!(res, "01:01:01");
}

#[test]
fn duration_to_string_beyond_two_digits_and_below_zero() {
    assert_eq!(duration_to_string(359_999), "99:59:59");
    assert_eq!(duration_to_string(360_000), "100:00:00");
    assert_eq!(duration_to_string(-5), format!("{:02}:{:02}:{:02}", 0, 0, -5));
    assert_eq!(duration_to_string(-3_725), format!("{:02}:{:02}:{:02}", -1, -2, -5));
    let min = i64::MIN;
    assert_eq!(
        duration_to_string(min),
        format!("{:02}:{:02}:{:02}", min / 3600, (min % 3600) / 60, min % 60)
    );
    let max = i64::MAX;
    assert_eq!(
        duration_to_string(max),
        format!("{:02}:{:02}:{:02}", max / 3600, (max % 3600) / 60, max % 60)
    );
}

#[test]
fn get_video_title() {
    let video = get_sample_video();

    let title = get_video_title_from_twitch_video(&video, 5, 20).unwrap();
    assert_eq!(title, "[2021-01-01][Part 05/20] Test Video");
}

#[test]
fn get_video_long_title() {
    let mut video = get_sample_video();
    video.video.title = Some(LONG_TITLE.to_string());
    let title = get_video_title_from_twitch_video(&video, 5, 20).unwrap();
    println!("part title: {}", title);
    assert_eq!(title, "[2021-01-01][Part 05/20] long title with over a hundred characters that is definitely going to be...");
}

#[test]
fn get_video_long_title_only_emoji() {
    let mut video = get_sample_video();
    video.video.title = Some(LONG_TITLE_ONLY_EMOJI.to_string());
    let title = get_video_title_from_twitch_video(&video, 1, 1).unwrap();
    println!("part title: {}", title);
    assert_eq!(
        MAX_VIDEO_TITLE_LENGTH - PART_PREFIX_LENGTH,
        title.chars().count()
    );
    assert_eq!(
        "[2021-01-01] 🔴🟠🔴🟠🔴🟠🔴🟠🔴🟠🔴🟠🔴🟠🔴🟠🔴🟠🔴🟠🔴🟠🔴🟠🔴🟠🔴🟠🔴🟠🔴🟠🔴🟠🔴🟠🔴🟠🔴🟠🔴🟠🔴🟠🔴🟠🔴🟠🔴🟠🔴🟠🔴🟠🔴🟠🔴🟠🔴🟠🔴🟠🔴🟠🔴🟠🔴🟠🔴🟠🔴🟠...",
        title,
    );
    video.video.title = Some(LONG_TITLE_ONLY_EMOJI.to_string());
    let title = get_video_title_from_twitch_video(&video, 5, 20).unwrap();
    println!("part title: {}", title);
    assert_eq!(MAX_VIDEO_TITLE_LENGTH, title.chars().count());
    assert_eq!(
        "[2021-01-01][Part 05/20] 🔴🟠🔴🟠🔴🟠🔴🟠🔴🟠🔴🟠🔴🟠🔴🟠🔴🟠🔴🟠🔴🟠🔴🟠🔴🟠🔴🟠🔴🟠🔴🟠🔴🟠🔴🟠🔴🟠🔴🟠🔴🟠🔴🟠🔴🟠🔴🟠🔴🟠🔴🟠🔴🟠🔴🟠🔴🟠🔴🟠🔴🟠🔴🟠🔴🟠🔴🟠🔴🟠🔴🟠...",
        title,
    );
}

#[test]
fn get_video_title_single_part() {
    let video = get_sample_video();

    let title = get_video_title_from_twitch_video(&video, 1, 1).unwrap();
    assert_eq!(title, "[2021-01-01] Test Video");
}

#[test]
fn get_video_long_title_single_part() {
    let mut video = get_sample_video();

    video.video.title = Some(LONG_TITLE.to_string());
    let title = get_video_title_from_twitch_video(&video, 1, 1).unwrap();
    println!("single part title: {}", title);
    assert_eq!(
        title,
        "[2021-01-01] long title with over a hundred characters that is definitely going to be..."
    );
}

#[test]
fn get_playlist_title() {
    let video = get_sample_video();

    let title = get_playlist_title_from_twitch_video(&video).unwrap();
    assert_eq!("[2021-01-01] Test Video", title);
}

#[test]
fn get_playlist_long_title() {
    let mut video = get_sample_video();

    video.video.title = Some(LONG_TITLE.to_string());
    let title = get_playlist_title_from_twitch_video(&video).unwrap();
    println!("playlist title: {}", title);
    assert_eq!(
        "[2021-01-01] long title with over a hundred characters that is definitel...",
        title
    );
}

#[test]
fn get_video_prefix() {
    let video = get_sample_video();

    let prefix = get_video_prefix_from_twitch_video(&video, 5, 20).unwrap();
    println!("prefix: {}", prefix);
    assert_eq!(prefix, "[2021-01-01][Part 05/20]");
    assert_eq!(prefix.chars().count(), PREFIX_LENGTH);
}

#[test]
fn video_prefix_with_wide_numbers() {
    let video = get_sample_video();
    let prefix = get_video_prefix_from_twitch_video(&video, 7, 120).unwrap();
    assert_eq!(prefix, "[2021-01-01][Part 07/120]");
    let prefix = get_video_prefix_from_twitch_video(&video, 0, 0).unwrap();
    assert_eq!(prefix, "[2021-01-01][Part 00/00]");
}

#[test]
fn title_body_is_the_same_for_every_part_count() {
    let mut video = get_sample_video();
    video.video.title = Some(LONG_TITLE.to_string());
    let single = get_video_title_from_twitch_video(&video, 1, 1).unwrap();
    let many = get_video_title_from_twitch_video(&video, 5, 20).unwrap();
    let body_single: String = single.chars().skip("[2021-01-01] ".len()).collect();
    let body_many: String = many.chars().skip("[2021-01-01][Part 05/20] ".len()).collect();
    assert_eq!(body_single, body_many);
    assert_eq!(body_single, cap_long_title(LONG_TITLE).unwrap());
    assert_eq!(body_single.chars().count(), 75);
    assert_eq!(many.chars().count(), MAX_VIDEO_TITLE_LENGTH);
}

#[test]
fn cap_long_title_at_the_budget() {
    let exact: String = "x".repeat(75);
    assert_eq!(cap_long_title(&exact).unwrap(), exact);
    let over: String = "x".repeat(76);
    assert_eq!(cap_long_title(&over).unwrap(), format!("{}...", "x".repeat(72)));
    assert_eq!(cap_long_title("").unwrap(), "");
    let emoji: String = "🔴".repeat(76);
    assert_eq!(cap_long_title(&emoji).unwrap(), format!("{}...", "🔴".repeat(72)));
}

#[test]
fn date_string_of_other_days() {
    let mut video = get_sample_video();
    video.video.created_at = Some(get_utc_from_string("2023-11-09T23:59:59"));
    assert_eq!(get_date_string_from_video(&video).unwrap(), "[2023-11-09]");
    video.video.created_at = Some(0);
    assert_eq!(get_date_string_from_video(&video).unwrap(), "[1970-01-01]");
    video.video.created_at = Some(-1);
    assert_eq!(get_date_string_from_video(&video).unwrap(), "[1969-12-31]");
    video.video.created_at = Some(get_utc_from_string("0987-02-03T00:00:00"));
    assert_eq!(get_date_string_from_video(&video).unwrap(), "[0987-02-03]");
    video.video.created_at = Some(-62_198_755_200);
    assert_eq!(get_date_string_from_video(&video).unwrap(), format!("[{:0>4}-{:0>2}-{:0>2}]", -1, 1, 1));
    video.video.created_at = Some(253_402_300_800);
    assert_eq!(get_date_string_from_video(&video).unwrap(), "[10000-01-01]");
}

#[test]
fn missing_fields_are_reported() {
    let mut video = get_sample_video();
    video.video.created_at = None;
    let missing_date = Err(BackupError::MissingField(VideoField::CreatedAt));
    assert_eq!(get_date_string_from_video(&video), missing_date);
    assert_eq!(get_video_prefix_from_twitch_video(&video, 1, 2), missing_date);
    assert_eq!(get_video_title_from_twitch_video(&video, 1, 2), missing_date);
    assert_eq!(get_playlist_title_from_twitch_video(&video), missing_date);
    video.video.created_at = Some(i64::MAX);
    assert_eq!(get_date_string_from_video(&video), missing_date);

    let mut video = get_sample_video();
    video.video.title = None;
    let missing_title = Err(BackupError::MissingField(VideoField::Title));
    assert_eq!(get_video_title_from_twitch_video(&video, 1, 2), missing_title);
    assert_eq!(get_playlist_title_from_twitch_video(&video), missing_title);
    let config = config_with_template("$$video_title$$");
    assert_eq!(get_video_description_from_twitch_video(&video, 1, 2, &config), missing_title);
    assert!(get_video_prefix_from_twitch_video(&video, 1, 2).is_ok());

    video.video.created_at = None;
    assert_eq!(get_video_title_from_twitch_video(&video, 1, 2), missing_date);
    assert_eq!(get_playlist_title_from_twitch_video(&video), missing_title);
}

#[test]
fn description_replaces_every_token() {
    let video = get_sample_video();
    let config = config_with_template(
        "$$video_title$$|$$video_url$$|$$video_id$$|$$video_duration$$|$$video_part$$|\
         $$video_total_parts$$|$$video_streamer_name$$|$$video_streamer_login$$",
    );
    let description = get_video_description_from_twitch_video(&video, 3, 12, &config).unwrap();
    assert_eq!(
        description,
        "Test Video|https://www.twitch.tv/videos/1|1|00:00:01|3|12|NoPixel VODs|nopixelvods"
    );
}

#[test]
fn description_replaces_every_occurrence_once() {
    let mut video = get_sample_video();
    video.video.title = Some("$$video_id$$".to_string());
    let config = config_with_template("$$video_part$$ $$video_title$$ $$video_part$$/$$video_part$$");
    let description = get_video_description_from_twitch_video(&video, 4, 9, &config).unwrap();
    assert_eq!(description, "4 $$video_id$$ 4/4");
}

#[test]
fn description_keeps_unknown_tokens() {
    let video = get_sample_video();
    let text = "no tokens, $$video_unknown$$, $$ $video_id$ $$video_ID$$ $$video_id$";
    let config = config_with_template(text);
    let description = get_video_description_from_twitch_video(&video, 1, 1, &config).unwrap();
    assert_eq!(description, text);
    let config = config_with_template("");
    assert_eq!(get_video_description_from_twitch_video(&video, 1, 1, &config).unwrap(), "");
}

#[test]
fn description_falls_back_where_fields_are_absent() {
    let mut video = get_sample_video();
    video.video.url = None;
    video.video.duration = None;
    video.streamer.display_name = None;
    video.video.video_id = -42;
    let config = config_with_template(
        "$$video_url$$ $$video_duration$$ $$video_streamer_name$$ $$video_id$$$$video_id$$",
    );
    let description = get_video_description_from_twitch_video(&video, 1, 1, &config).unwrap();
    assert_eq!(description, "<NO URL FOUND> 00:00:00 <NO NAME FOUND> -42-42");
}

#[test]
fn description_reads_tokens_from_left_to_right() {
    let video = get_sample_video();
    let config = config_with_template("$$video_part$$video_id$$ $$$video_id$$$");
    let description = get_video_description_from_twitch_video(&video, 8, 9, &config).unwrap();
    assert_eq!(description, "8video_id$$ $1$");
}

#[test]
fn titles_from_a_given_date() {
    let day = Some((2021, 1, 1));
    let title = Some("Test Video".to_string());
    assert_eq!(date_string(day).unwrap(), "[2021-01-01]");
    assert_eq!(prefix_string(day, 5, 20).unwrap(), "[2021-01-01][Part 05/20]");
    assert_eq!(title_string(day, &title, 5, 20).unwrap(), "[2021-01-01][Part 05/20] Test Video");
    assert_eq!(title_string(day, &title, 1, 1).unwrap(), "[2021-01-01] Test Video");
    assert_eq!(title_string(day, &title, 0, 0).unwrap(), "[2021-01-01][Part 00/00] Test Video");
    assert_eq!(playlist_title_string(day, &title).unwrap(), "[2021-01-01] Test Video");
    assert_eq!(date_tag_string(987, 2, 3), "[0987-02-03]");
    assert_eq!(date_tag_string(-45, 12, 31), format!("[{:0>4}-{:0>2}-{:0>2}]", -45, 12, 31));
    assert_eq!(date_tag_string(12345, 10, 9), "[12345-10-09]");
}

#[test]
fn titles_without_date_or_title() {
    let day = Some((2021, 1, 1));
    let title = Some("Test Video".to_string());
    let missing_date = Err(BackupError::MissingField(VideoField::CreatedAt));
    let missing_title = Err(BackupError::MissingField(VideoField::Title));
    assert_eq!(date_string(None), missing_date);
    assert_eq!(prefix_string(None, 1, 2), missing_date);
    assert_eq!(title_string(None, &title, 1, 2), missing_date);
    assert_eq!(title_string(None, &None, 1, 2), missing_date);
    assert_eq!(title_string(day, &None, 1, 2), missing_title);
    assert_eq!(playlist_title_string(None, &title), missing_date);
    assert_eq!(playlist_title_string(None, &None), missing_title);
    assert_eq!(playlist_title_string(day, &None), missing_title);
}

#[test]
fn creation_date_of_a_recording() {
    let mut video = get_sample_video();
    assert_eq!(creation_date(&video), Some((2021, 1, 1)));
    video.video.created_at = Some(get_utc_from_string("2024-02-29T12:30:00"));
    assert_eq!(creation_date(&video), Some((2024, 2, 29)));
    video.video.created_at = Some(i64::MIN);
    assert_eq!(creation_date(&video), None);
    video.video.created_at = None;
    assert_eq!(creation_date(&video), None);
}
