//! The description under which a part of a recording is uploaded: a template
//! of the user's, with tokens that stand for what is known of the recording.

use vstd::prelude::*;

use crate::data::{Config, VideoData};
use crate::duration::{clock_text, duration_to_string};
use crate::error::{BackupError, VideoField};
use crate::template::{
    bindings_of,
    expand,
    expand_template,
    first_match,
    lemma_expand_token,
    lemma_expand_without_tokens,
    lemma_match_from,
    starts_token,
    Binding,
    Replacement,
};
use crate::text::{
    chars_of,
    decimal,
    decimal_chars,
    signed_decimal,
    signed_decimal_chars,
    string_of,
};

verus! {

/// The text of `found`, or `fallback` where there is none.
pub open spec fn text_or(found: Option<String>, fallback: Seq<char>) -> Seq<char> {
    match found {
        Some(text) => text@,
        None => fallback,
    }
}

/// The tokens of a description and what each stands for, for part `part` of
/// `total` of the recording `video` with the title `title`.
pub open spec fn description_bindings(
    video: VideoData,
    title: Seq<char>,
    part: nat,
    total: nat,
) -> Seq<Binding> {
    seq![
        ("$$video_title$$"@, title),
        ("$$video_url$$"@, text_or(video.video.url, "<NO URL FOUND>"@)),
        ("$$video_id$$"@, signed_decimal(video.video.video_id as int)),
        (
            "$$video_duration$$"@,
            clock_text(
                match video.video.duration {
                    Some(seconds) => seconds as int,
                    None => 0,
                },
            ),
        ),
        ("$$video_part$$"@, decimal(part)),
        ("$$video_total_parts$$"@, decimal(total)),
        ("$$video_streamer_name$$"@, text_or(video.streamer.display_name, "<NO NAME FOUND>"@)),
        ("$$video_streamer_login$$"@, video.streamer.login@),
    ]
}

/// A replacement of the token `token` by `value`.
fn replacement(token: &str, value: Vec<char>) -> (r: Replacement)
    ensures
        r@ == (token@, value@),
{
    Replacement { token: chars_of(token), value }
}

/// The characters of `found`, or those of `fallback` where there is none.
fn chars_or(found: &Option<String>, fallback: &str) -> (chars: Vec<char>)
    ensures
        chars@ == text_or(*found, fallback@),
{
    match found {
        Some(text) => chars_of(text.as_str()),
        None => chars_of(fallback),
    }
}

/// The description of part `part` of `total_parts`: the template of the
/// settings with every token replaced by what it stands for. Text that is no
/// token stays as it is.
///
/// It fails where the recording has no title.
pub fn get_video_description_from_twitch_video(
    video: &VideoData,
    part: usize,
    total_parts: usize,
    config: &Config,
) -> (r: Result<String, BackupError>)
    ensures
        match video.video.title {
            None => r matches Err(e) && e == BackupError::MissingField(VideoField::Title),
            Some(title) => r matches Ok(text) && text@ == expand(
                description_bindings(*video, title@, part as nat, total_parts as nat),
                config.youtube_description_template@,
            ),
        },
{
    let title = match &video.video.title {
        Some(title) => chars_of(title.as_str()),
        None => {
            return Err(BackupError::MissingField(VideoField::Title));
        },
    };
    let seconds: i64 = match video.video.duration {
        Some(seconds) => seconds,
        None => 0,
    };
    let duration = duration_to_string(seconds);
    let mut list: Vec<Replacement> = Vec::new();
    list.push(replacement("$$video_title$$", title));
    list.push(replacement("$$video_url$$", chars_or(&video.video.url, "<NO URL FOUND>")));
    list.push(replacement("$$video_id$$", signed_decimal_chars(video.video.video_id)));
    list.push(replacement("$$video_duration$$", chars_of(duration.as_str())));
    list.push(replacement("$$video_part$$", decimal_chars(part as u64)));
    list.push(replacement("$$video_total_parts$$", decimal_chars(total_parts as u64)));
    list.push(
        replacement(
            "$$video_streamer_name$$",
            chars_or(&video.streamer.display_name, "<NO NAME FOUND>"),
        ),
    );
    list.push(replacement("$$video_streamer_login$$", chars_of(video.streamer.login.as_str())));
    assert(bindings_of(list@) =~= description_bindings(
        *video,
        video.video.title->0@,
        part as nat,
        total_parts as nat,
    ));
    let template = chars_of(config.youtube_description_template.as_str());
    let out = expand_template(&list, template.as_slice());
    Ok(string_of(out.as_slice()))
}

/// The tokens that a description knows.
pub open spec fn description_tokens() -> Seq<Seq<char>> {
    seq![
        "$$video_title$$"@,
        "$$video_url$$"@,
        "$$video_id$$"@,
        "$$video_duration$$"@,
        "$$video_part$$"@,
        "$$video_total_parts$$"@,
        "$$video_streamer_name$$"@,
        "$$video_streamer_login$$"@,
    ]
}

/// Whether one of the tokens of a description stands at place `i` of `s`.
pub open spec fn token_stands_at(s: Seq<char>, i: int) -> bool {
    exists|k: int|
        0 <= k < description_tokens().len() && (#[trigger] description_tokens()[k]).is_prefix_of(
            s.skip(i),
        )
}

/// Reveals what the eight tokens are made of.
proof fn lemma_tokens_known()
    ensures
        description_tokens().len() == 8,
        forall|k: int|
            0 <= k < 8 ==> (#[trigger] description_tokens()[k]).len() >= 12
                && description_tokens()[k][0] == '$',
        description_tokens()[0][8] == 't' && description_tokens()[0][9] == 'i',
        description_tokens()[1][8] == 'u',
        description_tokens()[2][8] == 'i',
        description_tokens()[3][8] == 'd',
        description_tokens()[4][8] == 'p',
        description_tokens()[5][8] == 't' && description_tokens()[5][9] == 'o',
        description_tokens()[6][8] == 's' && description_tokens()[6][17] == 'n',
        description_tokens()[6].len() >= 18,
        description_tokens()[7][8] == 's' && description_tokens()[7][17] == 'l',
        description_tokens()[7].len() >= 18,
{
    reveal_strlit("$$video_title$$");
    reveal_strlit("$$video_url$$");
    reveal_strlit("$$video_id$$");
    reveal_strlit("$$video_duration$$");
    reveal_strlit("$$video_part$$");
    reveal_strlit("$$video_total_parts$$");
    reveal_strlit("$$video_streamer_name$$");
    reveal_strlit("$$video_streamer_login$$");
}

/// No token of a description stands where another of them starts.
proof fn lemma_tokens_differ(j: int, k: int, after: Seq<char>)
    requires
        0 <= j < 8,
        0 <= k < 8,
        j != k,
    ensures
        !description_tokens()[j].is_prefix_of(description_tokens()[k] + after),
{
    lemma_tokens_known();
    let one = description_tokens()[j];
    let other = description_tokens()[k];
    let at: int = if (j == 0 && k == 5) || (j == 5 && k == 0) {
        9
    } else if (j == 6 && k == 7) || (j == 7 && k == 6) {
        17
    } else {
        8
    };
    assert(one[at] != other[at]);
    assert((other + after)[at] == other[at]);
    if one.is_prefix_of(other + after) {
        assert((other + after).subrange(0, one.len() as int)[at] == one[at]);
    }
}

/// The bindings of a description bind the tokens of a description, in their
/// order.
proof fn lemma_bindings_bind_tokens(video: VideoData, title: Seq<char>, part: nat, total: nat)
    ensures
        description_bindings(video, title, part, total).len() == 8,
        forall|k: int|
            0 <= k < 8 ==> (#[trigger] description_bindings(video, title, part, total)[k]).0
                == description_tokens()[k],
{
}

/// Every token of a description is replaced by its value once where it
/// stands, and the value is not read again: where no token stands before this
/// one, what goes before it is kept, the value follows, and then what the
/// rest of the template comes to.
pub proof fn lemma_description_token(
    video: VideoData,
    title: Seq<char>,
    part: nat,
    total: nat,
    before: Seq<char>,
    k: int,
    after: Seq<char>,
)
    requires
        0 <= k < 8,
        forall|i: int|
            0 <= i < before.len() ==> !token_stands_at(before + description_tokens()[k] + after, i),
    ensures
        expand(
            description_bindings(video, title, part, total),
            before + description_tokens()[k] + after,
        ) == before + description_bindings(video, title, part, total)[k].1 + expand(
            description_bindings(video, title, part, total),
            after,
        ),
{
    let bindings = description_bindings(video, title, part, total);
    let token = description_tokens()[k];
    let s = before + token + after;
    lemma_tokens_known();
    lemma_bindings_bind_tokens(video, title, part, total);
    assert(bindings[k].0 == token);
    lemma_match_from(bindings, token + after, 0);
    assert((token + after).subrange(0, token.len() as int) =~= token);
    assert(starts_token(token, token + after));
    assert forall|j: int| 0 <= j < 8 && j != k implies !starts_token(
        (#[trigger] bindings[j]).0,
        token + after,
    ) by {
        lemma_tokens_differ(j, k, after);
    }
    assert(first_match(bindings, token + after) == Some(k));
    assert forall|i: int| 0 <= i < before.len() && i < s.len() implies first_match(
        bindings,
        #[trigger] s.skip(i),
    ) is None by {
        lemma_match_from(bindings, s.skip(i), 0);
        assert(!token_stands_at(s, i));
        assert forall|j: int| 0 <= j < 8 implies !starts_token(
            (#[trigger] bindings[j]).0,
            s.skip(i),
        ) by {
            assert(bindings[j].0 == description_tokens()[j]);
        }
    }
    lemma_expand_token(bindings, before, k, after);
}

/// Every token of a description starts with `$`, so none stands where no `$`
/// is: text without `$` in front of a token is kept, and the token is replaced
/// by its value.
pub proof fn lemma_description_token_after_plain_text(
    video: VideoData,
    title: Seq<char>,
    part: nat,
    total: nat,
    before: Seq<char>,
    k: int,
    after: Seq<char>,
)
    requires
        0 <= k < 8,
        forall|i: int| 0 <= i < before.len() ==> #[trigger] before[i] != '$',
    ensures
        expand(
            description_bindings(video, title, part, total),
            before + description_tokens()[k] + after,
        ) == before + description_bindings(video, title, part, total)[k].1 + expand(
            description_bindings(video, title, part, total),
            after,
        ),
{
    let s = before + description_tokens()[k] + after;
    lemma_tokens_known();
    assert forall|i: int| 0 <= i < before.len() implies !token_stands_at(s, i) by {
        assert(s.skip(i)[0] == before[i]);
        assert forall|j: int| 0 <= j < 8 implies !(#[trigger] description_tokens()[j]).is_prefix_of(
            s.skip(i),
        ) by {
            let t = description_tokens()[j];
            if t.is_prefix_of(s.skip(i)) {
                assert(s.skip(i).subrange(0, t.len() as int)[0] == t[0]);
            }
        }
    }
    lemma_description_token(video, title, part, total, before, k, after);
}

/// A template in which no token of a description stands comes out as it went
/// in, whatever else it holds.
pub proof fn lemma_description_without_tokens(
    video: VideoData,
    title: Seq<char>,
    part: nat,
    total: nat,
    template: Seq<char>,
)
    requires
        forall|i: int| 0 <= i < template.len() ==> !token_stands_at(template, i),
    ensures
        expand(description_bindings(video, title, part, total), template) == template,
{
    let bindings = description_bindings(video, title, part, total);
    lemma_bindings_bind_tokens(video, title, part, total);
    assert forall|i: int| 0 <= i < template.len() implies first_match(
        bindings,
        #[trigger] template.skip(i),
    ) is None by {
        lemma_match_from(bindings, template.skip(i), 0);
        assert(!token_stands_at(template, i));
        assert forall|j: int| 0 <= j < 8 implies !starts_token(
            (#[trigger] bindings[j]).0,
            template.skip(i),
        ) by {
            assert(bindings[j].0 == description_tokens()[j]);
        }
    }
    lemma_expand_without_tokens(bindings, template);
}

} // verus!
