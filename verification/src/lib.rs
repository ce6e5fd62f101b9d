//! Backing up livestream recordings: a recording is cut into parts that fit
//! the length limit of a video platform, and each part gets a title and a
//! description under which it is uploaded.
//!
//! The library decides and computes; it runs no tool and touches no file.
//! [`segmenter`] says step by step what has to be done to cut a recording,
//! [`playlist`] reads the list of parts that the transcoding tool writes,
//! [`join`] decides whether the last two parts become one, and [`titles`] and
//! [`description`] write what the parts are labelled with.

pub mod calendar;
pub mod data;
pub mod description;
pub mod duration;
pub mod error;
pub mod join;
pub mod number;
pub mod paths;
pub mod playlist;
pub mod segmenter;
pub mod template;
pub mod text;
pub mod titles;
pub mod upload;

pub use crate::description::get_video_description_from_twitch_video;
pub use crate::duration::duration_to_string;
pub use crate::playlist::{extract_track_info_from_playlist, extract_track_info_from_playlist_file};
pub use crate::titles::{
    cap_long_title, get_date_string_from_video, get_playlist_title_from_twitch_video,
    get_video_prefix_from_twitch_video, get_video_title_from_twitch_video,
    MAX_VIDEO_TITLE_LENGTH, PART_PREFIX_LENGTH, PREFIX_LENGTH,
};
