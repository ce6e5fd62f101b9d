//! What is handed to the destination platform for each part of a recording,
//! and what is written down about a backup once it has ended.

use vstd::prelude::*;

use crate::data::{Config, Streamers, VideoData, VideoMetadata};
use crate::description::{description_bindings, get_video_description_from_twitch_video};
use crate::error::{BackupError, VideoField};
use crate::template::expand;
use crate::text::{chars_of, copy_strings, push_str, string_of, views_of};
use crate::titles::{
    creation_date,
    date_tag_of,
    playlist_title,
    playlist_title_string,
    tag_of,
    title_string,
    video_title,
    Date,
};

verus! {

/// Who may see an uploaded part.
#[derive(Debug, Clone, Copy, PartialEq, Eq, Structural)]
pub enum PrivacyStatus {
    Public,
    Unlisted,
    Private,
}

/// One part of a recording, ready to be uploaded.
#[derive(Debug, Clone, PartialEq, Eq)]
pub struct UploadRequest {
    /// The file of the part.
    pub path: String,
    pub title: String,
    pub description: String,
    pub tags: Vec<String>,
    pub privacy: PrivacyStatus,
    /// The title of the playlist that the part is added to.
    pub playlist_title: String,
}

/// Who may see the parts of a streamer's recordings: everyone where the
/// streamer's recordings are public by default, and only the owner else.
pub open spec fn privacy_for(streamer: Streamers) -> PrivacyStatus {
    if streamer.public_videos_default == Some(true) {
        PrivacyStatus::Public
    } else {
        PrivacyStatus::Private
    }
}

/// Tells who may see the parts of a streamer's recordings.
pub fn privacy_of(streamer: &Streamers) -> (privacy: PrivacyStatus)
    ensures
        privacy == privacy_for(*streamer),
{
    match streamer.public_videos_default {
        Some(true) => PrivacyStatus::Public,
        _ => PrivacyStatus::Private,
    }
}

/// Whether `request` is what is uploaded for the part at place `index` of
/// `parts`, for a recording with the date tag `tag` and the title `title`.
pub open spec fn is_request_for(
    request: UploadRequest,
    video: VideoData,
    tag: Seq<char>,
    title: Seq<char>,
    parts: Seq<Seq<char>>,
    index: int,
    config: Config,
) -> bool {
    &&& request.path@ == parts[index]
    &&& request.title@ == video_title(tag, (index + 1) as nat, parts.len(), title)
    &&& request.description@ == expand(
        description_bindings(video, title, (index + 1) as nat, parts.len()),
        config.youtube_description_template@,
    )
    &&& views_of(request.tags@) == views_of(config.youtube_tags@)
    &&& request.privacy == privacy_for(video.streamer)
    &&& request.playlist_title@ == playlist_title(tag, title)
}

/// Says what is uploaded for each of `parts`, in order, for a recording that
/// was made on `date`. Parts are counted from one.
///
/// Where there are parts, it fails if there is no date, and else if the
/// recording has no title.
pub fn plan_uploads_on(
    video: &VideoData,
    date: Option<Date>,
    parts: &Vec<String>,
    config: &Config,
) -> (r: Result<Vec<UploadRequest>, BackupError>)
    ensures
        parts.len() == 0 ==> (r matches Ok(requests) && requests.len() == 0),
        parts.len() > 0 ==> match (date, video.video.title) {
            (None, _) => r matches Err(e) && e == BackupError::MissingField(VideoField::CreatedAt),
            (Some(_), None) => r matches Err(e) && e == BackupError::MissingField(
                VideoField::Title,
            ),
            (Some(day), Some(title)) => r matches Ok(requests) && requests.len() == parts.len()
                && forall|i: int|
                0 <= i < parts.len() ==> is_request_for(
                    #[trigger] requests[i],
                    *video,
                    tag_of(day),
                    title@,
                    views_of(parts@),
                    i,
                    *config,
                ),
        },
{
    let count = parts.len();
    let mut requests: Vec<UploadRequest> = Vec::new();
    let mut i: usize = 0;
    while i < count
        invariant
            count == parts.len(),
            i <= count,
            requests.len() == i,
            i > 0 ==> date is Some && video.video.title is Some,
            forall|k: int|
                0 <= k < i ==> is_request_for(
                    #[trigger] requests[k],
                    *video,
                    tag_of(date->0),
                    video.video.title->0@,
                    views_of(parts@),
                    k,
                    *config,
                ),
        decreases count - i,
    {
        let title = match title_string(date, &video.video.title, i + 1, count) {
            Ok(title) => title,
            Err(e) => {
                return Err(e);
            },
        };
        let description = match get_video_description_from_twitch_video(
            video,
            i + 1,
            count,
            config,
        ) {
            Ok(description) => description,
            Err(e) => {
                return Err(e);
            },
        };
        let playlist_title = match playlist_title_string(date, &video.video.title) {
            Ok(playlist_title) => playlist_title,
            Err(e) => {
                return Err(e);
            },
        };
        requests.push(
            UploadRequest {
                path: parts[i].clone(),
                title,
                description,
                tags: copy_strings(&config.youtube_tags),
                privacy: privacy_of(&video.streamer),
                playlist_title,
            },
        );
        i += 1;
    }
    Ok(requests)
}

/// Says what is uploaded for each of `parts`, in order. Parts are counted
/// from one.
///
/// Where there are parts, it fails if the recording has no usable time of
/// creation, and else if it has no title.
pub fn plan_uploads(video: &VideoData, parts: &Vec<String>, config: &Config) -> (r: Result<
    Vec<UploadRequest>,
    BackupError,
>)
    ensures
        parts.len() == 0 ==> (r matches Ok(requests) && requests.len() == 0),
        parts.len() > 0 ==> match (date_tag_of(*video), video.video.title) {
            (None, _) => r matches Err(e) && e == BackupError::MissingField(VideoField::CreatedAt),
            (Some(_), None) => r matches Err(e) && e == BackupError::MissingField(
                VideoField::Title,
            ),
            (Some(tag), Some(title)) => r matches Ok(requests) && requests.len() == parts.len()
                && forall|i: int|
                0 <= i < parts.len() ==> is_request_for(
                    #[trigger] requests[i],
                    *video,
                    tag,
                    title@,
                    views_of(parts@),
                    i,
                    *config,
                ),
        },
{
    plan_uploads_on(video, creation_date(video), parts, config)
}

/// The note that is kept of a backup that failed with the message `message`.
pub open spec fn failure_note(message: Seq<char>) -> Seq<char> {
    "Error while backing up video: "@ + message
}

/// Writes down that the backup of a recording failed: the note of the
/// failure is kept, and the recording counts as not backed up.
pub fn record_backup_failure(metadata: &mut VideoMetadata, message: &str)
    ensures
        final(metadata).error matches Some(note) && note@ == failure_note(message@),
        final(metadata).backed_up == Some(false),
        final(metadata).video_id == old(metadata).video_id,
        final(metadata).total_clips_amount == old(metadata).total_clips_amount,
        final(metadata).parts_backed_up_id == old(metadata).parts_backed_up_id,
        final(metadata).parts_size == old(metadata).parts_size,
        final(metadata).download_playlist_url == old(metadata).download_playlist_url,
        final(metadata).youtube_playlist_url == old(metadata).youtube_playlist_url,
{
    let mut note = chars_of("Error while backing up video: ");
    push_str(&mut note, message);
    metadata.error = Some(string_of(note.as_slice()));
    metadata.backed_up = Some(false);
}

/// Writes down how the upload of a recording ended: a failure leaves its
/// message, and a success marks the recording as backed up.
pub fn record_upload_outcome(metadata: &mut VideoMetadata, failure: Option<String>)
    ensures
        match failure {
            Some(message) => {
                &&& final(metadata).error matches Some(note) && note@ == message@
                &&& final(metadata).backed_up == old(metadata).backed_up
            },
            None => {
                &&& final(metadata).error == old(metadata).error
                &&& final(metadata).backed_up == Some(true)
            },
        },
        final(metadata).video_id == old(metadata).video_id,
        final(metadata).total_clips_amount == old(metadata).total_clips_amount,
        final(metadata).parts_backed_up_id == old(metadata).parts_backed_up_id,
        final(metadata).parts_size == old(metadata).parts_size,
        final(metadata).download_playlist_url == old(metadata).download_playlist_url,
        final(metadata).youtube_playlist_url == old(metadata).youtube_playlist_url,
{
    match failure {
        Some(message) => {
            metadata.error = Some(message);
        },
        None => {
            metadata.backed_up = Some(true);
        },
    }
}

} // verus!
