//! The decision whether the last two parts of a recording become one.

use vstd::prelude::*;

use crate::playlist::{tracks_of, Segment, Track};

verus! {

/// Whether to merge the last two parts, and how long the merged part would be.
#[derive(Debug, Clone, Copy, PartialEq, Eq, Structural)]
pub struct JoinPlan {
    /// Whether the last two parts are to be merged.
    pub should_join: bool,
    /// The two last durations added up, in microseconds; zero where there are
    /// fewer than two parts.
    pub merged_micros: u128,
}

/// The durations of the last two parts added up, in microseconds; zero where
/// there are fewer than two parts.
pub open spec fn merged_micros(tracks: Seq<Track>) -> nat {
    if tracks.len() < 2 {
        0
    } else {
        (tracks[tracks.len() - 2].1 + tracks[tracks.len() - 1].1) as nat
    }
}

/// Whether the last two parts are merged: there are two, and together they
/// stay strictly under the cap of `hard_cap_seconds` seconds.
pub open spec fn should_join(tracks: Seq<Track>, hard_cap_seconds: int) -> bool {
    tracks.len() >= 2 && merged_micros(tracks) < hard_cap_seconds * 1_000_000
}

/// Decides whether the last two of `segments` are merged under a cap of
/// `hard_cap_seconds` seconds. Only the last two parts are looked at.
pub fn plan_join(segments: &Vec<Segment>, hard_cap_seconds: i64) -> (plan: JoinPlan)
    ensures
        plan.should_join == should_join(tracks_of(segments@), hard_cap_seconds as int),
        plan.merged_micros as nat == merged_micros(tracks_of(segments@)),
        segments.len() < 2 ==> !plan.should_join,
{
    let n = segments.len();
    if n < 2 {
        return JoinPlan { should_join: false, merged_micros: 0 };
    }
    let second_last: u64 = segments[n - 2].duration_micros;
    let last: u64 = segments[n - 1].duration_micros;
    let merged: u128 = second_last as u128 + last as u128;
    let should_join = hard_cap_seconds > 0 && merged < hard_cap_seconds as u128 * 1_000_000;
    JoinPlan { should_join, merged_micros: merged }
}

/// Only the last two parts count: whatever goes before them, the decision
/// and the merged duration are the same.
pub proof fn lemma_join_looks_at_last_two(
    before: Seq<Track>,
    other: Seq<Track>,
    second_last: Track,
    last: Track,
    hard_cap_seconds: int,
)
    ensures
        merged_micros(before + seq![second_last, last]) == second_last.1 + last.1,
        merged_micros(before + seq![second_last, last]) == merged_micros(
            other + seq![second_last, last],
        ),
        should_join(before + seq![second_last, last], hard_cap_seconds) == should_join(
            other + seq![second_last, last],
            hard_cap_seconds,
        ),
        should_join(before + seq![second_last, last], hard_cap_seconds) == (second_last.1 + last.1
            < hard_cap_seconds * 1_000_000),
{
}

/// Fewer than two parts are never merged, whatever the cap.
pub proof fn lemma_no_join_below_two(tracks: Seq<Track>, hard_cap_seconds: int)
    requires
        tracks.len() < 2,
    ensures
        !should_join(tracks, hard_cap_seconds),
{
}

/// Two parts that together are exactly as long as the cap are not merged.
pub proof fn lemma_no_join_at_the_cap(before: Seq<Track>, second_last: Track, last: Track)
    requires
        (second_last.1 + last.1) % 1_000_000 == 0,
    ensures
        !should_join(before + seq![second_last, last], (second_last.1 + last.1) / 1_000_000),
{
}

} // verus!
