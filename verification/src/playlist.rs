//! The segment manifest that the transcoding tool writes beside the parts of a
//! recording: an ordered list of part files, each with its duration.

use vstd::prelude::*;
use vstd::slice::slice_subrange;

use crate::error::{BackupError, ParseFault};
use crate::number::{first_index_of, lemma_first_index_of, micros_of, parse_micros};
use crate::paths::{join_path, joined_path};
use crate::text::{chars_of, starts_with, string_of, trim, trim_slice, views_of};

verus! {

/// One part of a recording, as the manifest lists it.
#[derive(Debug, Clone, PartialEq, Eq)]
pub struct Segment {
    /// Where the part lies, as the manifest writes it.
    pub path: String,
    /// How long the part plays, in microseconds.
    pub duration_micros: u64,
}

/// A path and a duration in microseconds: what a [`Segment`] stands for.
pub type Track = (Seq<char>, u64);

impl View for Segment {
    type V = Track;

    open spec fn view(&self) -> Track {
        (self.path@, self.duration_micros)
    }
}

/// The tracks that a list of segments stands for, in order.
pub open spec fn tracks_of(segments: Seq<Segment>) -> Seq<Track> {
    Seq::new(segments.len(), |i: int| segments[i]@)
}

/// The marker of a line that carries the duration of the next part.
pub open spec fn duration_marker() -> Seq<char> {
    "#EXTINF:"@
}

/// The marker of the line that ends the list.
pub open spec fn end_marker() -> Seq<char> {
    "#EXT-X-ENDLIST"@
}

/// The marker of the line that declares the target duration.
pub open spec fn total_marker() -> Seq<char> {
    "#EXT-X-TARGETDURATION:"@
}

/// `s` without one trailing carriage return.
pub open spec fn strip_cr(s: Seq<char>) -> Seq<char> {
    if s.len() > 0 && s.last() == '\r' {
        s.drop_last()
    } else {
        s
    }
}

/// `s` without one trailing comma.
pub open spec fn strip_comma(s: Seq<char>) -> Seq<char> {
    if s.len() > 0 && s.last() == ',' {
        s.drop_last()
    } else {
        s
    }
}

/// The lines of `text`: it is cut at every line feed, and a carriage return
/// right before a line feed goes with it. A last line needs no line feed.
pub open spec fn lines_of(text: Seq<char>) -> Seq<Seq<char>>
    decreases text.len(),
{
    if text.len() == 0 {
        Seq::empty()
    } else {
        let n = first_index_of(text, '\n');
        if 0 <= n < text.len() {
            seq![strip_cr(text.take(n))] + lines_of(text.skip(n + 1))
        } else {
            seq![text]
        }
    }
}

/// What a line of the manifest is.
#[derive(Debug, Clone, Copy, PartialEq, Eq, Structural)]
pub enum LineKind {
    /// The duration of the next part; `None` where the number is malformed.
    Duration(Option<u64>),
    /// The end of the list.
    End,
    /// The declared target duration; `None` where the number is malformed.
    Total(Option<u64>),
    /// A blank line or a comment.
    Skip,
    /// The path of a part.
    Path,
}

/// The kind of `line`. The three markers are looked for at the very start of
/// the line; of what is left, a line of whitespace only and a line that
/// starts with `#` carry nothing, and every other line is a path.
pub open spec fn line_kind(line: Seq<char>) -> LineKind {
    if duration_marker().is_prefix_of(line) {
        LineKind::Duration(
            micros_of(strip_comma(trim(line.skip(duration_marker().len() as int)))),
        )
    } else if end_marker().is_prefix_of(line) {
        LineKind::End
    } else if total_marker().is_prefix_of(line) {
        LineKind::Total(micros_of(line.skip(total_marker().len() as int)))
    } else if trim(line).len() == 0 || line[0] == '#' {
        LineKind::Skip
    } else {
        LineKind::Path
    }
}

/// How far a manifest has been read.
pub struct Scan {
    /// The duration that waits for its path.
    pub pending: Option<u64>,
    /// The declared target duration, once a line has given it.
    pub total: Option<u64>,
    /// The parts found so far, in the order of the file.
    pub tracks: Seq<Track>,
}

/// The state before the first line.
pub open spec fn scan_start() -> Scan {
    Scan { pending: None, total: None, tracks: Seq::empty() }
}

/// Reads `lines` one after the other, starting from the state `scan`.
///
/// A duration line sets the pending duration, a path line takes it. The end
/// marker stops the reading, whatever follows it.
pub open spec fn scan_lines(lines: Seq<Seq<char>>, scan: Scan) -> Result<Scan, ParseFault>
    decreases lines.len(),
{
    if lines.len() == 0 {
        Ok(scan)
    } else {
        let line = lines[0];
        let rest = lines.drop_first();
        match line_kind(line) {
            LineKind::Duration(None) => Err(ParseFault::MalformedDuration),
            LineKind::Duration(Some(d)) => scan_lines(rest, Scan { pending: Some(d), ..scan }),
            LineKind::End => Ok(scan),
            LineKind::Total(None) => Err(ParseFault::MalformedTotal),
            LineKind::Total(Some(t)) => scan_lines(rest, Scan { total: Some(t), ..scan }),
            LineKind::Skip => scan_lines(rest, scan),
            LineKind::Path => match scan.pending {
                None => Err(ParseFault::PathWithoutDuration),
                Some(d) => scan_lines(
                    rest,
                    Scan { pending: None, tracks: scan.tracks.push((trim(line), d)), ..scan },
                ),
            },
        }
    }
}

/// What the manifest `text` holds: the declared target duration and the parts
/// in the order of the file, or what is wrong with it.
pub open spec fn manifest_of(text: Seq<char>) -> Result<Scan, ParseFault> {
    scan_lines(lines_of(text), scan_start())
}

/// Tells what kind of line `line` is.
fn classify_line(line: &[char], duration: &[char], end: &[char], total: &[char]) -> (kind:
    LineKind)
    requires
        duration@ == duration_marker(),
        end@ == end_marker(),
        total@ == total_marker(),
    ensures
        kind == line_kind(line@),
{
    if starts_with(line, duration) {
        let rest = trim_slice(slice_subrange(line, duration.len(), line.len()));
        let n = rest.len();
        let number = if n > 0 && rest[n - 1] == ',' {
            slice_subrange(rest, 0, n - 1)
        } else {
            rest
        };
        assert(number@ =~= strip_comma(rest@));
        LineKind::Duration(parse_micros(number))
    } else if starts_with(line, end) {
        LineKind::End
    } else if starts_with(line, total) {
        LineKind::Total(parse_micros(slice_subrange(line, total.len(), line.len())))
    } else if trim_slice(line).len() == 0 || line[0] == '#' {
        LineKind::Skip
    } else {
        LineKind::Path
    }
}

/// Reads a segment manifest.
///
/// The result holds the declared target duration, in microseconds, where the
/// manifest gives one, and the parts in the order of the file. A manifest with
/// a malformed number, or with a path that no duration line precedes, is
/// refused.
pub fn extract_track_info_from_playlist(playlist: String) -> (r: Result<
    (Option<u64>, Vec<Segment>),
    BackupError,
>)
    ensures
        match manifest_of(playlist@) {
            Ok(scan) => r matches Ok(found) && found.0 == scan.total && tracks_of(found.1@)
                == scan.tracks,
            Err(fault) => r matches Err(e) && e == BackupError::Parse(fault),
        },
{
    let text = chars_of(playlist.as_str());
    let t = text.as_slice();
    let n = t.len();
    let duration = chars_of("#EXTINF:");
    let end = chars_of("#EXT-X-ENDLIST");
    let total_mark = chars_of("#EXT-X-TARGETDURATION:");
    let mut pending: Option<u64> = None;
    let mut total: Option<u64> = None;
    let mut found: Vec<Segment> = Vec::new();
    let mut pos: usize = 0;
    assert(t@.skip(0) =~= t@);
    assert(tracks_of(found@) =~= Seq::<Track>::empty());
    while pos < n
        invariant
            t@ == playlist@,
            n == t.len(),
            pos <= n,
            duration@ == duration_marker(),
            end@ == end_marker(),
            total_mark@ == total_marker(),
            manifest_of(playlist@) == scan_lines(
                lines_of(t@.skip(pos as int)),
                Scan { pending, total, tracks: tracks_of(found@) },
            ),
        decreases n - pos,
    {
        let ghost tail = t@.skip(pos as int);
        let mut stop: usize = pos;
        while stop < n && t[stop] != '\n'
            invariant
                n == t.len(),
                pos <= stop <= n,
                forall|k: int| pos <= k < stop ==> t@[k] != '\n',
            decreases n - stop,
        {
            stop += 1;
        }
        proof {
            assert forall|k: int| 0 <= k < stop - pos implies tail[k] != '\n' by {
                assert(tail[k] == t@[pos + k]);
            }
            lemma_first_index_of(tail, '\n', stop - pos);
        }
        let line_end: usize = if stop < n && stop > pos && t[stop - 1] == '\r' {
            stop - 1
        } else {
            stop
        };
        let next: usize = if stop < n {
            stop + 1
        } else {
            n
        };
        let line = slice_subrange(t, pos, line_end);
        proof {
            if stop < n {
                assert(tail.take(stop - pos) =~= t@.subrange(pos as int, stop as int));
                assert(line@ =~= strip_cr(tail.take(stop - pos)));
                assert(tail.skip(stop - pos + 1) =~= t@.skip(next as int));
            } else {
                assert(line@ =~= tail);
                assert(t@.skip(next as int) =~= Seq::<char>::empty());
            }
            assert(lines_of(tail) =~= seq![line@] + lines_of(t@.skip(next as int)));
            assert(lines_of(tail).drop_first() =~= lines_of(t@.skip(next as int)));
        }
        match classify_line(line, duration.as_slice(), end.as_slice(), total_mark.as_slice()) {
            LineKind::Duration(None) => {
                return Err(BackupError::Parse(ParseFault::MalformedDuration));
            },
            LineKind::Duration(Some(d)) => {
                pending = Some(d);
            },
            LineKind::End => {
                return Ok((total, found));
            },
            LineKind::Total(None) => {
                return Err(BackupError::Parse(ParseFault::MalformedTotal));
            },
            LineKind::Total(Some(d)) => {
                total = Some(d);
            },
            LineKind::Skip => {},
            LineKind::Path => {
                match pending {
                    None => {
                        return Err(BackupError::Parse(ParseFault::PathWithoutDuration));
                    },
                    Some(d) => {
                        let path = string_of(trim_slice(line));
                        let ghost before = found@;
                        found.push(Segment { path, duration_micros: d });
                        assert(tracks_of(found@) =~= tracks_of(before).push((trim(line@), d)));
                        pending = None;
                    },
                }
            },
        }
        pos = next;
    }
    assert(t@.skip(n as int) =~= Seq::<char>::empty());
    Ok((total, found))
}

/// The paths of `tracks`, each joined to the directory `parent`.
pub open spec fn resolved_paths(parent: Seq<char>, tracks: Seq<Track>) -> Seq<Seq<char>> {
    Seq::new(tracks.len(), |i: int| joined_path(parent, tracks[i].0))
}

/// Joins the path of each segment to the directory `parent_dir`.
pub fn resolve_paths(parent_dir: &str, segments: &Vec<Segment>) -> (paths: Vec<String>)
    ensures
        views_of(paths@) == resolved_paths(parent_dir@, tracks_of(segments@)),
{
    let mut paths: Vec<String> = Vec::new();
    let mut i: usize = 0;
    while i < segments.len()
        invariant
            i <= segments.len(),
            paths.len() == i,
            views_of(paths@) == resolved_paths(parent_dir@, tracks_of(segments@)).take(i as int),
        decreases segments.len() - i,
    {
        let joined = join_path(parent_dir, segments[i].path.as_str());
        let ghost before = paths@;
        paths.push(joined);
        proof {
            let all = resolved_paths(parent_dir@, tracks_of(segments@));
            assert forall|k: int| 0 <= k < i + 1 implies views_of(paths@)[k] == all[k] by {
                if k < i {
                    assert(views_of(before)[k] == all.take(i as int)[k]);
                }
            }
            assert(views_of(paths@) =~= all.take(i + 1));
        }
        i += 1;
    }
    assert(views_of(paths@) =~= resolved_paths(parent_dir@, tracks_of(segments@)));
    paths
}

/// The duration of the part that stands `back` places before the end of
/// `tracks`, in microseconds; zero where there is no such part.
pub open spec fn duration_from_end(tracks: Seq<Track>, back: int) -> u64 {
    if 0 < back <= tracks.len() {
        tracks[tracks.len() - back].1
    } else {
        0
    }
}

/// The entry of `paths` that stands `back` places before its end; `None`
/// where there is no such entry.
pub open spec fn path_from_end(paths: Seq<Seq<char>>, back: int) -> Option<Seq<char>> {
    if 0 < back <= paths.len() {
        Some(paths[paths.len() - back])
    } else {
        None
    }
}

/// Whether `found` holds `expected`.
pub open spec fn holds_path(found: Option<String>, expected: Option<Seq<char>>) -> bool {
    match expected {
        Some(path) => found matches Some(s) && s@ == path,
        None => found is None,
    }
}

/// A copy of the entry of `paths` that stands `back` places before its end.
fn copy_from_end(paths: &Vec<String>, back: usize) -> (found: Option<String>)
    ensures
        holds_path(found, path_from_end(views_of(paths@), back as int)),
{
    if 0 < back && back <= paths.len() {
        Some(paths[paths.len() - back].clone())
    } else {
        None
    }
}

/// The duration of the segment that stands `back` places before the end of
/// `segments`, in microseconds; zero where there is no such segment.
fn micros_from_end(segments: &Vec<Segment>, back: usize) -> (micros: u64)
    ensures
        micros == duration_from_end(tracks_of(segments@), back as int),
{
    if 0 < back && back <= segments.len() {
        segments[segments.len() - back].duration_micros
    } else {
        0
    }
}

/// What is known of the parts `segments` that lie at `paths`: the paths
/// themselves; the durations of the second last and of the last part, in
/// microseconds, zero where there is no such part; and the second last and
/// the last of the paths, where there are such.
pub fn track_info(segments: &Vec<Segment>, paths: Vec<String>) -> (info: (
    Vec<String>,
    u64,
    u64,
    Option<String>,
    Option<String>,
))
    ensures
        views_of(info.0@) == views_of(paths@),
        info.1 == duration_from_end(tracks_of(segments@), 2),
        info.2 == duration_from_end(tracks_of(segments@), 1),
        holds_path(info.3, path_from_end(views_of(paths@), 2)),
        holds_path(info.4, path_from_end(views_of(paths@), 1)),
{
    let second_last_time = micros_from_end(segments, 2);
    let last_time = micros_from_end(segments, 1);
    let second_last_path = copy_from_end(&paths, 2);
    let last_path = copy_from_end(&paths, 1);
    (paths, second_last_time, last_time, second_last_path, last_path)
}

/// Reads the text of a segment manifest that lies in the directory
/// `parent_dir`.
///
/// The result holds the path of every part, joined to `parent_dir` and in the
/// order of the file; the durations of the second last and of the last part, in
/// microseconds, zero where there is no such part; and the paths of these two
/// parts, where there are such parts.
pub fn extract_track_info_from_playlist_file(parent_dir: &str, playlist: String) -> (r: Result<
    (Vec<String>, u64, u64, Option<String>, Option<String>),
    BackupError,
>)
    ensures
        match manifest_of(playlist@) {
            Ok(scan) => r matches Ok(info) && {
                let paths = resolved_paths(parent_dir@, scan.tracks);
                &&& views_of(info.0@) == paths
                &&& info.1 == duration_from_end(scan.tracks, 2)
                &&& info.2 == duration_from_end(scan.tracks, 1)
                &&& holds_path(info.3, path_from_end(paths, 2))
                &&& holds_path(info.4, path_from_end(paths, 1))
            },
            Err(fault) => r matches Err(e) && e == BackupError::Parse(fault),
        },
{
    let segments = match extract_track_info_from_playlist(playlist) {
        Ok(found) => found.1,
        Err(e) => {
            return Err(e);
        },
    };
    let paths = resolve_paths(parent_dir, &segments);
    Ok(track_info(&segments, paths))
}

/// Whether `lines` are one duration line and one path line for each of
/// `tracks`, in turn and in order.
pub open spec fn pairs_of(lines: Seq<Seq<char>>, tracks: Seq<Track>) -> bool {
    &&& lines.len() == 2 * tracks.len()
    &&& forall|i: int|
        0 <= i < tracks.len() ==> {
            &&& line_kind(lines[2 * i]) == LineKind::Duration(Some((#[trigger] tracks[i]).1))
            &&& line_kind(lines[2 * i + 1]) == LineKind::Path
            &&& trim(lines[2 * i + 1]) == tracks[i].0
        }
}

/// Lines that are pairs of a duration and a path add their tracks, in order,
/// to those found before, and leave no duration pending.
pub proof fn lemma_scan_pairs(lines: Seq<Seq<char>>, tracks: Seq<Track>, scan: Scan)
    requires
        pairs_of(lines, tracks),
        tracks.len() > 0,
    ensures
        scan_lines(lines, scan) == Ok::<Scan, ParseFault>(
            Scan { pending: None, total: scan.total, tracks: scan.tracks + tracks },
        ),
    decreases tracks.len(),
{
    let first = tracks[0];
    let after_duration = Scan { pending: Some(first.1), ..scan };
    let after_path = Scan { pending: None, tracks: scan.tracks.push(first), ..scan };
    let rest = lines.drop_first().drop_first();
    let left = tracks.drop_first();
    assert(lines.drop_first()[0] == lines[1]);
    assert(scan_lines(lines, scan) == scan_lines(lines.drop_first(), after_duration));
    assert(scan_lines(lines.drop_first(), after_duration) == scan_lines(rest, after_path));
    if left.len() == 0 {
        assert(rest.len() == 0);
        assert(scan.tracks.push(first) =~= scan.tracks + tracks);
    } else {
        assert forall|i: int| 0 <= i < left.len() implies {
            &&& line_kind(rest[2 * i]) == LineKind::Duration(Some((#[trigger] left[i]).1))
            &&& line_kind(rest[2 * i + 1]) == LineKind::Path
            &&& trim(rest[2 * i + 1]) == left[i].0
        } by {
            assert(left[i] == tracks[i + 1]);
            assert(rest[2 * i] == lines[2 * (i + 1)]);
            assert(rest[2 * i + 1] == lines[2 * (i + 1) + 1]);
        }
        lemma_scan_pairs(rest, left, after_path);
        assert(scan.tracks.push(first) + left =~= scan.tracks + tracks);
    }
}

/// A manifest of nothing but pairs of a duration line and a path line, with
/// no end marker, holds exactly the tracks of the pairs, in the order of the
/// file.
pub proof fn lemma_pairs_give_their_tracks(text: Seq<char>, tracks: Seq<Track>)
    requires
        pairs_of(lines_of(text), tracks),
    ensures
        manifest_of(text) matches Ok(scan) && scan.tracks == tracks && scan.tracks.len()
            == tracks.len(),
{
    if tracks.len() > 0 {
        lemma_scan_pairs(lines_of(text), tracks, scan_start());
        assert(scan_start().tracks + tracks =~= tracks);
    } else {
        assert(lines_of(text).len() == 0);
        assert(scan_start().tracks =~= tracks);
    }
}

/// What follows the end marker changes nothing: the reading stops there.
pub proof fn lemma_end_marker_stops(
    before: Seq<Seq<char>>,
    end: Seq<char>,
    after: Seq<Seq<char>>,
    scan: Scan,
)
    requires
        line_kind(end) == LineKind::End,
    ensures
        scan_lines(before + seq![end] + after, scan) == scan_lines(before + seq![end], scan),
    decreases before.len(),
{
    let long = before + seq![end] + after;
    let short = before + seq![end];
    if before.len() == 0 {
        assert(long[0] == end);
        assert(short[0] == end);
    } else {
        let rest = before.drop_first();
        assert(long[0] == before[0] && short[0] == before[0]);
        assert(long.drop_first() =~= rest + seq![end] + after);
        assert(short.drop_first() =~= rest + seq![end]);
        match line_kind(before[0]) {
            LineKind::Duration(Some(d)) => {
                lemma_end_marker_stops(rest, end, after, Scan { pending: Some(d), ..scan });
            },
            LineKind::Total(Some(t)) => {
                lemma_end_marker_stops(rest, end, after, Scan { total: Some(t), ..scan });
            },
            LineKind::Skip => {
                lemma_end_marker_stops(rest, end, after, scan);
            },
            LineKind::Path => {
                if let Some(d) = scan.pending {
                    lemma_end_marker_stops(
                        rest,
                        end,
                        after,
                        Scan {
                            pending: None,
                            tracks: scan.tracks.push((trim(before[0]), d)),
                            ..scan
                        },
                    );
                }
            },
            _ => {},
        }
    }
}

/// Whether `line` is none of these: a duration line, the end marker, a
/// target duration with a malformed number.
pub open spec fn sets_no_duration(line: Seq<char>) -> bool {
    match line_kind(line) {
        LineKind::Skip => true,
        LineKind::Path => true,
        LineKind::Total(Some(_)) => true,
        _ => false,
    }
}

/// A path line that no duration line precedes is refused, whatever follows
/// it: the lines before it hold neither a duration nor the end marker, and no
/// malformed target duration, which would be refused first.
pub proof fn lemma_path_without_duration(
    before: Seq<Seq<char>>,
    path: Seq<char>,
    after: Seq<Seq<char>>,
    scan: Scan,
)
    requires
        scan.pending is None,
        forall|i: int| 0 <= i < before.len() ==> sets_no_duration(#[trigger] before[i]),
        line_kind(path) == LineKind::Path,
    ensures
        scan_lines(before + seq![path] + after, scan) == Err::<Scan, ParseFault>(
            ParseFault::PathWithoutDuration,
        ),
    decreases before.len(),
{
    let lines = before + seq![path] + after;
    if before.len() == 0 {
        assert(lines[0] == path);
    } else {
        let rest = before.drop_first();
        assert(lines[0] == before[0]);
        assert(sets_no_duration(before[0]));
        assert(lines.drop_first() =~= rest + seq![path] + after);
        assert forall|i: int| 0 <= i < rest.len() implies sets_no_duration(#[trigger] rest[i]) by {
            assert(rest[i] == before[i + 1]);
        }
        match line_kind(before[0]) {
            LineKind::Total(Some(t)) => {
                lemma_path_without_duration(rest, path, after, Scan { total: Some(t), ..scan });
            },
            LineKind::Skip => {
                lemma_path_without_duration(rest, path, after, scan);
            },
            _ => {},
        }
    }
}

/// The lines of a text that ends in a line feed, followed by more text, are
/// the lines of the one and then the lines of the other.
pub proof fn lemma_lines_of_concat(a: Seq<char>, b: Seq<char>)
    requires
        a.len() == 0 || a.last() == '\n',
    ensures
        lines_of(a + b) == lines_of(a) + lines_of(b),
    decreases a.len(),
{
    if a.len() == 0 {
        assert(a + b =~= b);
        assert(lines_of(a) + lines_of(b) =~= lines_of(b));
    } else {
        let m = first_index_of(a, '\n');
        crate::number::lemma_first_index_of_bound(a, '\n');
        if m == a.len() {
            assert(a[a.len() - 1] != '\n');
        }
        assert forall|k: int| 0 <= k < m implies (a + b)[k] != '\n' by {
            assert((a + b)[k] == a[k]);
        }
        assert((a + b)[m] == a[m]);
        lemma_first_index_of(a + b, '\n', m);
        assert((a + b).take(m) =~= a.take(m));
        let rest = a.skip(m + 1);
        assert((a + b).skip(m + 1) =~= rest + b);
        if rest.len() > 0 {
            assert(rest.last() == a.last());
        }
        lemma_lines_of_concat(rest, b);
        assert(lines_of(a + b) =~= lines_of(a) + lines_of(b));
    }
}

/// Whether `line` holds no line feed.
pub open spec fn is_one_line(line: Seq<char>) -> bool {
    forall|i: int| 0 <= i < line.len() ==> #[trigger] line[i] != '\n'
}

/// A line with its line feed, followed by more text, is read as that line,
/// without a carriage return at its end, and then the lines of the rest.
pub proof fn lemma_lines_of_line(line: Seq<char>, tail: Seq<char>)
    requires
        is_one_line(line),
    ensures
        lines_of(line + seq!['\n'] + tail) == seq![strip_cr(line)] + lines_of(tail),
{
    let text = line + seq!['\n'] + tail;
    assert forall|k: int| 0 <= k < line.len() implies text[k] != '\n' by {
        assert(text[k] == line[k]);
    }
    assert(text[line.len() as int] == '\n');
    lemma_first_index_of(text, '\n', line.len() as int);
    assert(text.take(line.len() as int) =~= line);
    assert(text.skip(line.len() as int + 1) =~= tail);
}

/// In the text of a manifest, what follows the line of the end marker changes
/// nothing.
pub proof fn lemma_text_after_end_marker(head: Seq<char>, line: Seq<char>, tail: Seq<char>)
    requires
        head.len() == 0 || head.last() == '\n',
        is_one_line(line),
        line_kind(strip_cr(line)) == LineKind::End,
    ensures
        manifest_of(head + line + seq!['\n'] + tail) == manifest_of(head + line + seq!['\n']),
{
    let none = Seq::<char>::empty();
    assert(head + line + seq!['\n'] + tail =~= head + (line + seq!['\n'] + tail));
    assert(head + line + seq!['\n'] =~= head + (line + seq!['\n'] + none));
    lemma_lines_of_concat(head, line + seq!['\n'] + tail);
    lemma_lines_of_concat(head, line + seq!['\n'] + none);
    lemma_lines_of_line(line, tail);
    lemma_lines_of_line(line, none);
    assert(seq![strip_cr(line)] + lines_of(none) =~= seq![strip_cr(line)]);
    assert(lines_of(head) + (seq![strip_cr(line)] + lines_of(tail)) =~= lines_of(head)
        + seq![strip_cr(line)] + lines_of(tail));
    lemma_end_marker_stops(lines_of(head), strip_cr(line), lines_of(tail), scan_start());
}

/// In the text of a manifest, a path line that no duration line precedes is
/// refused, whatever follows it: the lines before it hold neither a duration
/// nor the end marker, and no malformed target duration.
pub proof fn lemma_text_path_without_duration(head: Seq<char>, line: Seq<char>, tail: Seq<char>)
    requires
        head.len() == 0 || head.last() == '\n',
        forall|i: int|
            0 <= i < lines_of(head).len() ==> sets_no_duration(#[trigger] lines_of(head)[i]),
        is_one_line(line),
        line_kind(strip_cr(line)) == LineKind::Path,
    ensures
        manifest_of(head + line + seq!['\n'] + tail) == Err::<Scan, ParseFault>(
            ParseFault::PathWithoutDuration,
        ),
{
    assert(head + line + seq!['\n'] + tail =~= head + (line + seq!['\n'] + tail));
    lemma_lines_of_concat(head, line + seq!['\n'] + tail);
    lemma_lines_of_line(line, tail);
    assert(lines_of(head) + (seq![strip_cr(line)] + lines_of(tail)) =~= lines_of(head)
        + seq![strip_cr(line)] + lines_of(tail));
    lemma_path_without_duration(lines_of(head), strip_cr(line), lines_of(tail), scan_start());
}

} // verus!
