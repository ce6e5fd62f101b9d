//! The records of the catalog, as plain values: a streamer, a video, the
//! state of a video's backup, and the three taken together.

use vstd::prelude::*;

use crate::error::BackupError;
use crate::number::{integer_of, parse_integer};
use crate::text::chars_of;

verus! {

/// A streamer whose recordings are backed up.
#[derive(Debug, Clone, PartialEq, Eq)]
pub struct Streamers {
    /// The login name, in lower case: the key of the record.
    pub login: String,
    pub display_name: Option<String>,
    pub watched: Option<bool>,
    pub youtube_user: Option<String>,
    pub public_videos_default: Option<bool>,
    pub youtube_google_ident: Option<String>,
}

/// A recording on the source platform.
#[derive(Debug, Clone, PartialEq, Eq)]
pub struct Videos {
    /// The key of the record.
    pub video_id: i64,
    pub title: Option<String>,
    pub description: Option<String>,
    pub bool_test: Option<bool>,
    pub user_login: Option<String>,
    /// When the recording was made, in seconds since the Unix epoch.
    pub created_at: Option<i64>,
    pub url: Option<String>,
    pub viewable: Option<String>,
    pub language: Option<String>,
    pub view_count: Option<i64>,
    pub video_type: Option<String>,
    /// How long the recording plays, in seconds.
    pub duration: Option<i64>,
    pub thumbnail_url: Option<String>,
}

/// How far the backup of a recording has come.
#[derive(Debug, Clone, PartialEq, Eq)]
pub struct VideoMetadata {
    /// The key of the record: that of the recording.
    pub video_id: i64,
    pub backed_up: Option<bool>,
    pub total_clips_amount: Option<i64>,
    pub parts_backed_up_id: Option<i64>,
    pub parts_size: Option<i64>,
    pub error: Option<String>,
    pub download_playlist_url: Option<String>,
    pub youtube_playlist_url: Option<String>,
}

/// A recording with the state of its backup and its streamer.
#[derive(Debug, Clone, PartialEq, Eq)]
pub struct VideoData {
    pub video: Videos,
    pub metadata: VideoMetadata,
    pub streamer: Streamers,
}

/// A recording as the source platform describes it.
#[derive(Debug, Clone, PartialEq, Eq)]
pub struct TwitchVideo {
    /// The platform's identifier of the recording: a decimal numeral.
    pub id: String,
    pub title: String,
    pub description: String,
    pub user_login: String,
    /// When the recording was made, in seconds since the Unix epoch.
    pub created_at: i64,
    pub url: String,
    pub viewable: String,
    pub language: String,
    pub view_count: i64,
    /// How long the recording plays, in seconds.
    pub duration: i64,
    pub thumbnail_url: String,
}

/// The settings that the backup works with.
#[derive(Debug, Clone, PartialEq, Eq)]
pub struct Config {
    /// The directory into which recordings are downloaded.
    pub download_folder_path: String,
    /// The template of a part's description.
    pub youtube_description_template: String,
    /// The tags that every uploaded part gets.
    pub youtube_tags: Vec<String>,
    /// The length that each part should have, in minutes.
    pub youtube_video_length_minutes_soft_cap: i64,
    /// The length that a merged part must stay under, in minutes.
    pub youtube_video_length_minutes_hard_cap: i64,
}

/// What `str::to_lowercase` makes of `s`.
pub uninterp spec fn lowercase_of(s: Seq<char>) -> Seq<char>;

/// Calls `str::to_lowercase` on `s`. The contract claims only that the answer
/// is a function of the text.
#[verifier::external_body]
pub(crate) fn to_lowercase(s: &str) -> (lower: String)
    ensures
        lower@ == lowercase_of(s@),
{
    s.to_lowercase()
}

/// Whether `found` holds a string of the characters `expected`.
pub open spec fn holds_text(found: Option<String>, expected: Seq<char>) -> bool {
    found matches Some(s) && s@ == expected
}

impl Default for Streamers {
    fn default() -> (r: Streamers)
        ensures
            r.login@.len() == 0,
            r.display_name is None,
            r.watched is None,
            r.youtube_user is None,
            r.public_videos_default is None,
            r.youtube_google_ident is None,
    {
        Streamers {
            login: String::new(),
            display_name: None,
            watched: None,
            youtube_user: None,
            public_videos_default: None,
            youtube_google_ident: None,
        }
    }
}

impl Default for Videos {
    fn default() -> (r: Videos)
        ensures
            r.video_id == 0,
            r.title is None,
            r.description is None,
            r.bool_test is None,
            r.user_login is None,
            r.created_at is None,
            r.url is None,
            r.viewable is None,
            r.language is None,
            r.view_count is None,
            r.video_type is None,
            r.duration is None,
            r.thumbnail_url is None,
    {
        Videos {
            video_id: 0,
            title: None,
            description: None,
            bool_test: None,
            user_login: None,
            created_at: None,
            url: None,
            viewable: None,
            language: None,
            view_count: None,
            video_type: None,
            duration: None,
            thumbnail_url: None,
        }
    }
}

impl Default for VideoMetadata {
    fn default() -> (r: VideoMetadata)
        ensures
            r.video_id == 0,
            r.backed_up is None,
            r.total_clips_amount is None,
            r.parts_backed_up_id is None,
            r.parts_size is None,
            r.error is None,
            r.download_playlist_url is None,
            r.youtube_playlist_url is None,
    {
        VideoMetadata {
            video_id: 0,
            backed_up: None,
            total_clips_amount: None,
            parts_backed_up_id: None,
            parts_size: None,
            error: None,
            download_playlist_url: None,
            youtube_playlist_url: None,
        }
    }
}

/// Whether `data` is the record of the recording `video` that the source
/// platform lists, with the identifier `id` and the login `login`: the fields
/// of the recording are taken over, the backup has not been made, and the
/// streamer is left empty.
pub open spec fn is_record_of(
    data: VideoData,
    video: TwitchVideo,
    id: i64,
    login: Seq<char>,
) -> bool {
    &&& data.video.video_id == id
    &&& holds_text(data.video.title, video.title@)
    &&& holds_text(data.video.description, video.description@)
    &&& data.video.bool_test == Some(true)
    &&& holds_text(data.video.user_login, login)
    &&& data.video.created_at == Some(video.created_at)
    &&& holds_text(data.video.url, video.url@)
    &&& holds_text(data.video.viewable, video.viewable@)
    &&& holds_text(data.video.language, video.language@)
    &&& data.video.view_count == Some(video.view_count)
    &&& holds_text(data.video.video_type, "archive"@)
    &&& data.video.duration == Some(video.duration)
    &&& holds_text(data.video.thumbnail_url, video.thumbnail_url@)
    &&& data.metadata.video_id == id
    &&& data.metadata.backed_up == Some(false)
    &&& data.metadata.total_clips_amount is None
    &&& data.metadata.parts_backed_up_id is None
    &&& data.metadata.parts_size is None
    &&& data.metadata.error is None
    &&& data.metadata.download_playlist_url is None
    &&& data.metadata.youtube_playlist_url is None
    &&& data.streamer.login@.len() == 0
    &&& data.streamer.display_name is None
    &&& data.streamer.watched is None
    &&& data.streamer.youtube_user is None
    &&& data.streamer.public_videos_default is None
    &&& data.streamer.youtube_google_ident is None
}

impl VideoData {
    /// The record of the recording `video` that the source platform lists,
    /// under the identifier `id` and with the login `login`.
    pub fn listed(video: &TwitchVideo, id: i64, login: String) -> (data: VideoData)
        ensures
            is_record_of(data, *video, id, login@),
    {
        let mut metadata = VideoMetadata::default();
        metadata.video_id = id;
        metadata.backed_up = Some(false);
        VideoData {
            video: Videos {
                video_id: id,
                title: Some(video.title.clone()),
                description: Some(video.description.clone()),
                bool_test: Some(true),
                user_login: Some(login),
                created_at: Some(video.created_at),
                url: Some(video.url.clone()),
                viewable: Some(video.viewable.clone()),
                language: Some(video.language.clone()),
                view_count: Some(video.view_count),
                video_type: Some("archive".to_owned()),
                duration: Some(video.duration),
                thumbnail_url: Some(video.thumbnail_url.clone()),
            },
            metadata,
            streamer: Streamers::default(),
        }
    }

    /// The record of a recording that the source platform lists and the
    /// catalog does not hold yet.
    ///
    /// The identifier is read as a number and the login is put in lower case.
    /// A recording whose identifier is no numeral of 64 bits is refused.
    pub fn from_twitch_video(video: &TwitchVideo) -> (r: Result<VideoData, BackupError>)
        ensures
            match integer_of(video.id@) {
                None => r matches Err(e) && e == BackupError::InvalidVideoId,
                Some(id) => r matches Ok(data) && is_record_of(
                    data,
                    *video,
                    id,
                    lowercase_of(video.user_login@),
                ),
            },
    {
        let digits = chars_of(video.id.as_str());
        match parse_integer(digits.as_slice()) {
            Some(id) => Ok(VideoData::listed(video, id, to_lowercase(video.user_login.as_str()))),
            None => Err(BackupError::InvalidVideoId),
        }
    }
}

} // verus!
