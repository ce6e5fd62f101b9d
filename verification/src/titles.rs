//! Titles of uploaded parts and of the playlist that holds them.
//!
//! A title starts with the date of the recording and, where the recording has
//! several parts, the number of the part. What follows is the title of the
//! recording, cut so that the whole fits the platform's limit whatever the
//! number of parts is.

use vstd::prelude::*;

use crate::calendar::{utc_date, utc_date_of};
use crate::data::VideoData;
use crate::error::{BackupError, VideoField};
use crate::text::{
    chars_of,
    decimal,
    lemma_decimal_len,
    lemma_pad_left_len,
    decimal_chars,
    pad_left,
    push_all,
    push_padded,
    push_str,
    signed_decimal,
    signed_decimal_chars,
    string_of,
};

verus! {

/// The longest title that the platform accepts, in characters.
pub const MAX_VIDEO_TITLE_LENGTH: usize = 100;

/// The room kept free for the date and the part number in front of a title.
pub const PREFIX_LENGTH: usize = 24;

/// The room that the part number takes in front of a title.
pub const PART_PREFIX_LENGTH: usize = 12;

/// The room kept free for the blank between the prefix and the title.
pub const SEPARATOR_LENGTH: usize = 1;

/// The length of the mark that stands for what was cut off.
pub const ELLIPSIS_LENGTH: usize = 3;

/// The characters that a title may have after its prefix.
pub const TITLE_BUDGET: usize = MAX_VIDEO_TITLE_LENGTH - PREFIX_LENGTH - SEPARATOR_LENGTH;

/// The mark that stands for what was cut off.
pub open spec fn ellipsis() -> Seq<char> {
    seq!['.', '.', '.']
}

/// `title`, cut to the budget: a longer one keeps its first characters and
/// ends in the ellipsis, so that it fills the budget exactly.
pub open spec fn capped_title(title: Seq<char>) -> Seq<char> {
    if title.len() > TITLE_BUDGET {
        title.take(TITLE_BUDGET - ELLIPSIS_LENGTH) + ellipsis()
    } else {
        title
    }
}

/// A number written with at least two digits.
pub open spec fn two_wide(n: nat) -> Seq<char> {
    pad_left(decimal(n), 2, '0')
}

/// The tag `[YYYY-MM-DD]` of a date.
pub open spec fn date_tag(year: int, month: nat, day: nat) -> Seq<char> {
    seq!['['] + pad_left(signed_decimal(year), 4, '0') + seq!['-'] + two_wide(month) + seq!['-']
        + two_wide(day) + seq![']']
}

/// The tag `[Part NN/MM]` of part `part` of `total`.
pub open spec fn part_tag(part: nat, total: nat) -> Seq<char> {
    "[Part "@ + two_wide(part) + seq!['/'] + two_wide(total) + seq![']']
}

/// What stands in front of the title of part `part` of `total`, the blank
/// included: the date, and the part number unless the part is the only one.
pub open spec fn title_prefix(date: Seq<char>, part: nat, total: nat) -> Seq<char> {
    if total == 1 {
        date + seq![' ']
    } else {
        date + part_tag(part, total) + seq![' ']
    }
}

/// The title of part `part` of `total` of a recording with the date tag
/// `date` and the title `title`.
pub open spec fn video_title(date: Seq<char>, part: nat, total: nat, title: Seq<char>) -> Seq<
    char,
> {
    title_prefix(date, part, total) + capped_title(title)
}

/// The title of the playlist of a recording with the date tag `date` and the
/// title `title`: the two with a blank between them, cut to the budget.
pub open spec fn playlist_title(date: Seq<char>, title: Seq<char>) -> Seq<char> {
    capped_title(date + seq![' '] + title)
}

/// A calendar date: the year, the month and the day of the month.
pub type Date = (i32, u32, u32);

/// The tag `[YYYY-MM-DD]` of the date `date`.
pub open spec fn tag_of(date: Date) -> Seq<char> {
    date_tag(date.0 as int, date.1 as nat, date.2 as nat)
}

/// The day on which `video` was made, in UTC; `None` where it has no time of
/// creation or one that the calendar cannot represent.
pub open spec fn date_of(video: VideoData) -> Option<Date> {
    match video.video.created_at {
        None => None,
        Some(seconds) => utc_date_of(seconds),
    }
}

/// The date tag of `video`; `None` where it has no time of creation or one
/// that the calendar cannot represent.
pub open spec fn date_tag_of(video: VideoData) -> Option<Seq<char>> {
    match date_of(video) {
        None => None,
        Some(date) => Some(tag_of(date)),
    }
}

/// Writes the tag `[YYYY-MM-DD]` of a date.
pub fn date_tag_string(year: i32, month: u32, day: u32) -> (tag: String)
    ensures
        tag@ == date_tag(year as int, month as nat, day as nat),
{
    let mut out: Vec<char> = Vec::new();
    out.push('[');
    let digits = signed_decimal_chars(year as i64);
    push_padded(&mut out, digits.as_slice(), 4, '0');
    out.push('-');
    let digits = decimal_chars(month as u64);
    push_padded(&mut out, digits.as_slice(), 2, '0');
    out.push('-');
    let digits = decimal_chars(day as u64);
    push_padded(&mut out, digits.as_slice(), 2, '0');
    out.push(']');
    assert(out@ =~= date_tag(year as int, month as nat, day as nat));
    string_of(out.as_slice())
}

/// Appends the tag `[Part NN/MM]` to `out`.
fn push_part_tag(out: &mut Vec<char>, part: usize, total_parts: usize)
    ensures
        final(out)@ == old(out)@ + part_tag(part as nat, total_parts as nat),
{
    push_str(out, "[Part ");
    let digits = decimal_chars(part as u64);
    push_padded(out, digits.as_slice(), 2, '0');
    out.push('/');
    let digits = decimal_chars(total_parts as u64);
    push_padded(out, digits.as_slice(), 2, '0');
    out.push(']');
    assert(out@ =~= old(out)@ + part_tag(part as nat, total_parts as nat));
}

/// Appends `title`, cut to the budget, to `out`.
fn push_capped(out: &mut Vec<char>, title: &[char])
    ensures
        final(out)@ == old(out)@ + capped_title(title@),
{
    if title.len() > TITLE_BUDGET {
        let kept = vstd::slice::slice_subrange(title, 0, TITLE_BUDGET - ELLIPSIS_LENGTH);
        push_all(out, kept);
        out.push('.');
        out.push('.');
        out.push('.');
        assert(out@ =~= old(out)@ + capped_title(title@));
    } else {
        push_all(out, title);
    }
}

/// Cuts a title that is longer than the budget, and marks the cut with an
/// ellipsis. Characters are counted, not bytes, so that none is split.
pub fn cap_long_title(title: &str) -> (r: Result<String, BackupError>)
    ensures
        r matches Ok(capped) && capped@ == capped_title(title@),
{
    let chars = chars_of(title);
    let mut out: Vec<char> = Vec::new();
    push_capped(&mut out, chars.as_slice());
    assert(out@ =~= capped_title(title@));
    Ok(string_of(out.as_slice()))
}

/// The day on which a recording was made, in UTC; `None` where it has no
/// time of creation or one that the calendar cannot represent.
pub fn creation_date(video: &VideoData) -> (date: Option<Date>)
    ensures
        date == date_of(*video),
{
    match video.video.created_at {
        Some(seconds) => utc_date(seconds),
        None => None,
    }
}

/// The date tag of a recording that was made on `date`.
///
/// It fails where there is no date.
pub fn date_string(date: Option<Date>) -> (r: Result<String, BackupError>)
    ensures
        match date {
            Some(day) => r matches Ok(found) && found@ == tag_of(day),
            None => r matches Err(e) && e == BackupError::MissingField(VideoField::CreatedAt),
        },
{
    match date {
        Some(day) => Ok(date_tag_string(day.0, day.1, day.2)),
        None => Err(BackupError::MissingField(VideoField::CreatedAt)),
    }
}

/// The date tag and the part tag of part `part` of `total_parts` of a
/// recording that was made on `date`.
///
/// It fails where there is no date.
pub fn prefix_string(date: Option<Date>, part: usize, total_parts: usize) -> (r: Result<
    String,
    BackupError,
>)
    ensures
        match date {
            Some(day) => r matches Ok(found) && found@ == tag_of(day) + part_tag(
                part as nat,
                total_parts as nat,
            ),
            None => r matches Err(e) && e == BackupError::MissingField(VideoField::CreatedAt),
        },
{
    let tag = match date_string(date) {
        Ok(tag) => tag,
        Err(e) => {
            return Err(e);
        },
    };
    let mut out = chars_of(tag.as_str());
    push_part_tag(&mut out, part, total_parts);
    Ok(string_of(out.as_slice()))
}

/// The title under which part `part` of `total_parts` is uploaded, for a
/// recording that was made on `date` and has the title `title`.
///
/// It fails where there is no date, and else where there is no title.
pub fn title_string(
    date: Option<Date>,
    title: &Option<String>,
    part: usize,
    total_parts: usize,
) -> (r: Result<String, BackupError>)
    ensures
        match (date, *title) {
            (None, _) => r matches Err(e) && e == BackupError::MissingField(VideoField::CreatedAt),
            (Some(_), None) => r matches Err(e) && e == BackupError::MissingField(
                VideoField::Title,
            ),
            (Some(day), Some(text)) => r matches Ok(found) && found@ == video_title(
                tag_of(day),
                part as nat,
                total_parts as nat,
                text@,
            ),
        },
{
    let tag = match date_string(date) {
        Ok(tag) => tag,
        Err(e) => {
            return Err(e);
        },
    };
    let text = match title {
        Some(text) => chars_of(text.as_str()),
        None => {
            return Err(BackupError::MissingField(VideoField::Title));
        },
    };
    let mut out = chars_of(tag.as_str());
    if total_parts != 1 {
        push_part_tag(&mut out, part, total_parts);
    }
    out.push(' ');
    push_capped(&mut out, text.as_slice());
    assert(out@ =~= video_title(tag@, part as nat, total_parts as nat, text@));
    Ok(string_of(out.as_slice()))
}

/// The title of the playlist that holds the parts of a recording that was
/// made on `date` and has the title `title`.
///
/// It fails where there is no title, and else where there is no date.
pub fn playlist_title_string(date: Option<Date>, title: &Option<String>) -> (r: Result<
    String,
    BackupError,
>)
    ensures
        match (*title, date) {
            (None, _) => r matches Err(e) && e == BackupError::MissingField(VideoField::Title),
            (Some(_), None) => r matches Err(e) && e == BackupError::MissingField(
                VideoField::CreatedAt,
            ),
            (Some(text), Some(day)) => r matches Ok(found) && found@ == playlist_title(
                tag_of(day),
                text@,
            ),
        },
{
    let text = match title {
        Some(text) => chars_of(text.as_str()),
        None => {
            return Err(BackupError::MissingField(VideoField::Title));
        },
    };
    let tag = match date_string(date) {
        Ok(tag) => tag,
        Err(e) => {
            return Err(e);
        },
    };
    let mut whole = chars_of(tag.as_str());
    whole.push(' ');
    push_all(&mut whole, text.as_slice());
    assert(whole@ =~= tag@ + seq![' '] + text@);
    let mut out: Vec<char> = Vec::new();
    push_capped(&mut out, whole.as_slice());
    assert(out@ =~= playlist_title(tag@, text@));
    Ok(string_of(out.as_slice()))
}

/// The date tag of a recording.
///
/// It fails where the recording has no time of creation, or one that the
/// calendar cannot represent.
pub fn get_date_string_from_video(video: &VideoData) -> (r: Result<String, BackupError>)
    ensures
        match date_tag_of(*video) {
            Some(tag) => r matches Ok(found) && found@ == tag,
            None => r matches Err(e) && e == BackupError::MissingField(VideoField::CreatedAt),
        },
{
    date_string(creation_date(video))
}

/// The date tag and the part tag of part `part` of `total_parts`.
///
/// It fails where the recording has no usable time of creation.
pub fn get_video_prefix_from_twitch_video(video: &VideoData, part: usize, total_parts: usize) -> (r:
    Result<String, BackupError>)
    ensures
        match date_tag_of(*video) {
            Some(tag) => r matches Ok(found) && found@ == tag + part_tag(
                part as nat,
                total_parts as nat,
            ),
            None => r matches Err(e) && e == BackupError::MissingField(VideoField::CreatedAt),
        },
{
    prefix_string(creation_date(video), part, total_parts)
}

/// The title under which part `part` of `total_parts` is uploaded.
///
/// It fails where the recording has no usable time of creation, and else
/// where it has no title.
pub fn get_video_title_from_twitch_video(video: &VideoData, part: usize, total_parts: usize) -> (r:
    Result<String, BackupError>)
    ensures
        match (date_tag_of(*video), video.video.title) {
            (None, _) => r matches Err(e) && e == BackupError::MissingField(VideoField::CreatedAt),
            (Some(_), None) => r matches Err(e) && e == BackupError::MissingField(
                VideoField::Title,
            ),
            (Some(tag), Some(title)) => r matches Ok(found) && found@ == video_title(
                tag,
                part as nat,
                total_parts as nat,
                title@,
            ),
        },
{
    title_string(creation_date(video), &video.video.title, part, total_parts)
}

/// The title of the playlist that holds the parts of a recording.
///
/// It fails where the recording has no title, and else where it has no usable
/// time of creation.
pub fn get_playlist_title_from_twitch_video(video: &VideoData) -> (r: Result<String, BackupError>)
    ensures
        match (video.video.title, date_tag_of(*video)) {
            (None, _) => r matches Err(e) && e == BackupError::MissingField(VideoField::Title),
            (Some(_), None) => r matches Err(e) && e == BackupError::MissingField(
                VideoField::CreatedAt,
            ),
            (Some(title), Some(tag)) => r matches Ok(found) && found@ == playlist_title(
                tag,
                title@,
            ),
        },
{
    playlist_title_string(creation_date(video), &video.video.title)
}

/// A title that is cut fills the budget exactly: with the room kept for the
/// prefix and the blank it makes up the platform's limit. What is kept are
/// the first characters of the title, whole, and the ellipsis follows them.
pub proof fn lemma_cut_title_fills_budget(title: Seq<char>)
    requires
        title.len() > TITLE_BUDGET,
    ensures
        capped_title(title).len() + PREFIX_LENGTH + SEPARATOR_LENGTH == MAX_VIDEO_TITLE_LENGTH,
        capped_title(title).take(TITLE_BUDGET - ELLIPSIS_LENGTH) == title.take(
            TITLE_BUDGET - ELLIPSIS_LENGTH,
        ),
        capped_title(title).skip(TITLE_BUDGET - ELLIPSIS_LENGTH) == ellipsis(),
{
    let kept = title.take(TITLE_BUDGET - ELLIPSIS_LENGTH);
    assert((kept + ellipsis()).take(TITLE_BUDGET - ELLIPSIS_LENGTH) =~= kept);
    assert((kept + ellipsis()).skip(TITLE_BUDGET - ELLIPSIS_LENGTH) =~= ellipsis());
}

/// A title within the budget is kept as it is, and no title comes out longer
/// than the budget.
pub proof fn lemma_capped_title_within_budget(title: Seq<char>)
    ensures
        capped_title(title).len() <= TITLE_BUDGET,
        title.len() <= TITLE_BUDGET ==> capped_title(title) == title,
{
}

/// What follows the prefix of a title is the same whatever part of however
/// many the title is for: the title of the recording, cut to the one budget.
pub proof fn lemma_title_body_is_stable(
    date: Seq<char>,
    title: Seq<char>,
    part: nat,
    total: nat,
    other_part: nat,
    other_total: nat,
)
    ensures
        video_title(date, part, total, title).skip(title_prefix(date, part, total).len() as int)
            == capped_title(title),
        video_title(date, part, total, title).skip(title_prefix(date, part, total).len() as int)
            == video_title(date, other_part, other_total, title).skip(
            title_prefix(date, other_part, other_total).len() as int,
        ),
{
    let one = title_prefix(date, part, total);
    let other = title_prefix(date, other_part, other_total);
    assert((one + capped_title(title)).skip(one.len() as int) =~= capped_title(title));
    assert((other + capped_title(title)).skip(other.len() as int) =~= capped_title(title));
}

/// With a year of four digits and part numbers of two, the prefix takes the
/// room that is kept for it, and the whole title stays within the platform's
/// limit.
pub proof fn lemma_title_fits(
    year: int,
    month: nat,
    day: nat,
    part: nat,
    total: nat,
    title: Seq<char>,
)
    requires
        0 <= year <= 9999,
        month < 100,
        day < 100,
        part < 100,
        total < 100,
    ensures
        date_tag(year, month, day).len() + PART_PREFIX_LENGTH == PREFIX_LENGTH,
        part_tag(part, total).len() == PART_PREFIX_LENGTH,
        title_prefix(date_tag(year, month, day), part, total).len() <= PREFIX_LENGTH
            + SEPARATOR_LENGTH,
        video_title(date_tag(year, month, day), part, total, title).len()
            <= MAX_VIDEO_TITLE_LENGTH,
{
    reveal_strlit("[Part ");
    lemma_decimal_len(year as nat);
    lemma_decimal_len(month);
    lemma_decimal_len(day);
    lemma_decimal_len(part);
    lemma_decimal_len(total);
    lemma_pad_left_len(signed_decimal(year), 4, '0');
    lemma_pad_left_len(decimal(month), 2, '0');
    lemma_pad_left_len(decimal(day), 2, '0');
    lemma_pad_left_len(decimal(part), 2, '0');
    lemma_pad_left_len(decimal(total), 2, '0');
}

} // verus!
