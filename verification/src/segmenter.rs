//! Cutting a recording into parts.
//!
//! The work alternates between running the transcoding tool, touching files
//! and deciding what to do next. The deciding is done here: a [`SplitJob`]
//! takes the outcome of the last action and names the next one. Whoever drives
//! the job performs the actions; the job itself touches nothing.

use vstd::prelude::*;

use crate::data::Config;
use crate::duration::{clock_text, duration_to_string};
use crate::error::BackupError;
use crate::join::{plan_join, should_join};
use crate::paths::{clean_path, cleaned_path, file_stem, file_stem_of, join_path, joined_path};
use crate::playlist::{
    extract_track_info_from_playlist,
    manifest_of,
    resolve_paths,
    resolved_paths,
};
use crate::text::{chars_of, copy_strings, push_str, string_of, views_of};

verus! {

/// Seconds in one minute.
pub const SECONDS_PER_MINUTE: i64 = 60;

/// How far the cutting of one recording has come.
#[derive(Debug, Clone, Copy, PartialEq, Eq, Structural)]
pub enum Phase {
    /// Nothing has been done yet.
    Ready,
    /// The tool is cutting the recording.
    Splitting,
    /// The manifest that the tool wrote is being read.
    ReadingManifest,
    /// The list of the two parts to merge is being written.
    WritingJoinList,
    /// The tool is merging the last two parts.
    Concatenating,
    /// The second last part is being removed.
    RemovingSecondLast,
    /// The last part is being removed.
    RemovingLast,
    /// The list of the two merged parts is being removed.
    RemovingJoinList,
    /// The manifest is being removed.
    RemovingManifest,
    /// The merged part is being moved to where the second last part was.
    Renaming,
    /// The recording itself is being removed.
    RemovingSource,
    /// The parts are ready.
    Finished,
    /// The cutting was given up.
    Failed(BackupError),
}

/// What the driver of a job reports back.
#[derive(Debug, Clone, PartialEq, Eq)]
pub enum Outcome {
    /// The last action was carried out.
    Done,
    /// The file was read, and this is its text.
    Text(String),
    /// The last action could not be carried out.
    Failed,
}

/// What an [`Outcome`] stands for.
pub enum OutcomeView {
    Done,
    Text(Seq<char>),
    Failed,
}

impl View for Outcome {
    type V = OutcomeView;

    open spec fn view(&self) -> OutcomeView {
        match self {
            Outcome::Done => OutcomeView::Done,
            Outcome::Text(text) => OutcomeView::Text(text@),
            Outcome::Failed => OutcomeView::Failed,
        }
    }
}

/// What the driver of a job is asked to do next.
#[derive(Debug, Clone, PartialEq, Eq)]
pub enum Action {
    /// Run the transcoding tool with these arguments and wait for it.
    RunTool { args: Vec<String> },
    /// Read the text file at `path`.
    ReadFile { path: String },
    /// Write `content` to the file at `path`.
    WriteFile { path: String, content: String },
    /// Remove the file at `path`.
    RemoveFile { path: String },
    /// Move the file at `from` to `to`.
    RenameFile { from: String, to: String },
    /// Nothing is left to do: these are the parts, in order.
    Finish { parts: Vec<String> },
    /// Nothing more can be done.
    Fail { error: BackupError },
}

/// What an [`Action`] stands for.
pub enum ActionView {
    RunTool { args: Seq<Seq<char>> },
    ReadFile { path: Seq<char> },
    WriteFile { path: Seq<char>, content: Seq<char> },
    RemoveFile { path: Seq<char> },
    RenameFile { from: Seq<char>, to: Seq<char> },
    Finish { parts: Seq<Seq<char>> },
    Fail { error: BackupError },
}

impl View for Action {
    type V = ActionView;

    open spec fn view(&self) -> ActionView {
        match self {
            Action::RunTool { args } => ActionView::RunTool { args: views_of(args@) },
            Action::ReadFile { path } => ActionView::ReadFile { path: path@ },
            Action::WriteFile { path, content } => ActionView::WriteFile {
                path: path@,
                content: content@,
            },
            Action::RemoveFile { path } => ActionView::RemoveFile { path: path@ },
            Action::RenameFile { from, to } => ActionView::RenameFile { from: from@, to: to@ },
            Action::Finish { parts } => ActionView::Finish { parts: views_of(parts@) },
            Action::Fail { error } => ActionView::Fail { error: *error },
        }
    }
}

/// Where the files lie that the cutting of one recording makes and needs.
#[derive(Debug, Clone, PartialEq, Eq)]
pub struct Layout {
    /// Where the tool writes the manifest.
    pub manifest: String,
    /// The numbered pattern after which the tool names the parts.
    pub pattern: String,
    /// Where the list of the two parts to merge is written.
    pub join_list: String,
    /// The list of the two parts to merge, as the tool is told of it and as
    /// it is removed.
    pub join_input: String,
    /// Where the tool writes the merged part.
    pub join_output: String,
}

/// What a [`Layout`] stands for.
pub struct LayoutView {
    pub manifest: Seq<char>,
    pub pattern: Seq<char>,
    pub join_list: Seq<char>,
    pub join_input: Seq<char>,
    pub join_output: Seq<char>,
}

impl View for Layout {
    type V = LayoutView;

    open spec fn view(&self) -> LayoutView {
        LayoutView {
            manifest: self.manifest@,
            pattern: self.pattern@,
            join_list: self.join_list@,
            join_input: self.join_input@,
            join_output: self.join_output@,
        }
    }
}

/// The cutting of one recording into parts.
#[derive(Debug, Clone, PartialEq, Eq)]
pub struct SplitJob {
    /// How far the work has come.
    pub phase: Phase,
    /// The recording, as the caller named it.
    pub source: String,
    /// The recording, by its canonical path.
    pub input: String,
    /// The canonical path of the directory that holds the recording.
    pub parent_dir: String,
    /// Where the files of the cutting lie.
    pub layout: Layout,
    /// The length that the tool aims at for each part, in seconds.
    pub soft_cap_seconds: i64,
    /// The length that a merged part must stay under, in seconds.
    pub hard_cap_seconds: i64,
    /// The parts, in order, once the manifest has been read.
    pub parts: Vec<String>,
    /// The second last part, where the last two are merged.
    pub second_last: String,
    /// The last part, where the last two are merged.
    pub last: String,
}

/// What a [`SplitJob`] stands for.
pub struct JobView {
    pub phase: Phase,
    pub source: Seq<char>,
    pub input: Seq<char>,
    pub parent_dir: Seq<char>,
    pub layout: LayoutView,
    pub soft_cap_seconds: i64,
    pub hard_cap_seconds: i64,
    pub parts: Seq<Seq<char>>,
    pub second_last: Seq<char>,
    pub last: Seq<char>,
}

impl View for SplitJob {
    type V = JobView;

    open spec fn view(&self) -> JobView {
        JobView {
            phase: self.phase,
            source: self.source@,
            input: self.input@,
            parent_dir: self.parent_dir@,
            layout: self.layout@,
            soft_cap_seconds: self.soft_cap_seconds,
            hard_cap_seconds: self.hard_cap_seconds,
            parts: views_of(self.parts@),
            second_last: self.second_last@,
            last: self.last@,
        }
    }
}

/// Where the files of the cutting lie for a recording in the directory
/// `parent_dir` whose file name without extension is `stem`: the manifest
/// `output.m3u8`, the parts `<stem>_000.mp4` and so on, the list `join.txt`
/// and the merged part `join.mp4`, all in that directory.
pub open spec fn layout_in(parent_dir: Seq<char>, stem: Seq<char>) -> LayoutView {
    LayoutView {
        manifest: cleaned_path(joined_path(parent_dir, "output.m3u8"@)),
        pattern: joined_path(parent_dir, stem + "_%03d.mp4"@),
        join_list: joined_path(parent_dir, "join.txt"@),
        join_input: cleaned_path(joined_path(parent_dir, "join.txt"@)),
        join_output: cleaned_path(joined_path(parent_dir, "join.mp4"@)),
    }
}

/// The arguments with which the tool cuts the recording `input` into parts of
/// `soft_cap_seconds` seconds each, named after `pattern`, and lists them in
/// `manifest`.
pub open spec fn split_args(
    input: Seq<char>,
    soft_cap_seconds: int,
    manifest: Seq<char>,
    pattern: Seq<char>,
) -> Seq<Seq<char>> {
    seq![
        "-i"@,
        input,
        "-c"@,
        "copy"@,
        "-map"@,
        "0"@,
        "-segment_time"@,
        clock_text(soft_cap_seconds),
        "-reset_timestamps"@,
        "1"@,
        "-segment_list"@,
        manifest,
        "-segment_list_type"@,
        "m3u8"@,
        "-avoid_negative_ts"@,
        "1"@,
        "-f"@,
        "segment"@,
        pattern,
    ]
}

/// The arguments with which the tool merges the parts that the file `list`
/// names into the file `output`.
pub open spec fn concat_args(list: Seq<char>, output: Seq<char>) -> Seq<Seq<char>> {
    seq!["-f"@, "concat"@, "-safe"@, "0"@, "-i"@, list, "-c"@, "copy"@, output]
}

/// The text of the list of the two parts to merge: the last part first.
pub open spec fn join_list(last: Seq<char>, second_last: Seq<char>) -> Seq<char> {
    "file '"@ + last + "'\nfile '"@ + second_last + "'"@
}

/// The job given up with `error`.
pub open spec fn give_up(job: JobView, error: BackupError) -> (JobView, ActionView) {
    (JobView { phase: Phase::Failed(error), ..job }, ActionView::Fail { error })
}

/// The job moved on to `phase`, with the file at `path` to remove.
pub open spec fn go_remove(job: JobView, phase: Phase, path: Seq<char>) -> (JobView, ActionView) {
    (JobView { phase, ..job }, ActionView::RemoveFile { path })
}

/// `paths` without its last entry.
pub open spec fn without_last(paths: Seq<Seq<char>>) -> Seq<Seq<char>> {
    if paths.len() > 0 {
        paths.drop_last()
    } else {
        paths
    }
}

/// What follows once the parts are known: `paths` in the order of the
/// manifest, and whether the last two are merged.
///
/// Where they are, the last one leaves the list, the two are kept by the
/// paths `second_last` and `last`, and the list of the two is written next.
/// Where they are not, the recording is removed next.
pub open spec fn after_parts(
    job: JobView,
    join: bool,
    paths: Seq<Seq<char>>,
    second_last: Seq<char>,
    last: Seq<char>,
) -> (JobView, ActionView) {
    if join {
        (
            JobView {
                phase: Phase::WritingJoinList,
                parts: without_last(paths),
                second_last,
                last,
                ..job
            },
            ActionView::WriteFile {
                path: job.layout.join_list,
                content: join_list(last, second_last),
            },
        )
    } else {
        go_remove(JobView { parts: paths, ..job }, Phase::RemovingSource, job.source)
    }
}

/// The path in `paths` that stands `back` places before the end, cleaned; the
/// empty path where there is none.
pub open spec fn cleaned_from_end(paths: Seq<Seq<char>>, back: int) -> Seq<char> {
    if 0 < back <= paths.len() {
        cleaned_path(paths[paths.len() - back])
    } else {
        Seq::empty()
    }
}

/// What follows the reading of the manifest `text`.
///
/// A malformed manifest ends the job. Otherwise the parts are those of the
/// manifest, in its order, each joined to the directory of the recording, and
/// the last two are merged where together they stay under the hard cap.
pub open spec fn after_manifest(job: JobView, text: Seq<char>) -> (JobView, ActionView) {
    match manifest_of(text) {
        Err(fault) => give_up(job, BackupError::Parse(fault)),
        Ok(scan) => {
            let paths = resolved_paths(job.parent_dir, scan.tracks);
            let join = should_join(scan.tracks, job.hard_cap_seconds as int);
            if join {
                after_parts(
                    job,
                    true,
                    paths,
                    cleaned_from_end(paths, 2),
                    cleaned_from_end(paths, 1),
                )
            } else {
                after_parts(job, false, paths, Seq::empty(), Seq::empty())
            }
        },
    }
}

/// The state and the action that follow on `outcome` in the state `job`.
///
/// A failed run of the tool ends the job with [`BackupError::Tool`], a failed
/// file operation with [`BackupError::Io`]. A job that has ended repeats its
/// last word.
pub open spec fn transition(job: JobView, outcome: OutcomeView) -> (JobView, ActionView) {
    let failed = outcome is Failed;
    match job.phase {
        Phase::Ready => (
            JobView { phase: Phase::Splitting, ..job },
            ActionView::RunTool {
                args: split_args(
                    job.input,
                    job.soft_cap_seconds as int,
                    job.layout.manifest,
                    job.layout.pattern,
                ),
            },
        ),
        Phase::Splitting => if failed {
            give_up(job, BackupError::Tool)
        } else {
            (
                JobView { phase: Phase::ReadingManifest, ..job },
                ActionView::ReadFile { path: job.layout.manifest },
            )
        },
        Phase::ReadingManifest => match outcome {
            OutcomeView::Text(text) => after_manifest(job, text),
            _ => give_up(job, BackupError::Io),
        },
        Phase::WritingJoinList => if failed {
            give_up(job, BackupError::Io)
        } else {
            (
                JobView { phase: Phase::Concatenating, ..job },
                ActionView::RunTool {
                    args: concat_args(job.layout.join_input, job.layout.join_output),
                },
            )
        },
        Phase::Concatenating => if failed {
            give_up(job, BackupError::Tool)
        } else {
            go_remove(job, Phase::RemovingSecondLast, job.second_last)
        },
        Phase::RemovingSecondLast => if failed {
            give_up(job, BackupError::Io)
        } else {
            go_remove(job, Phase::RemovingLast, job.last)
        },
        Phase::RemovingLast => if failed {
            give_up(job, BackupError::Io)
        } else {
            go_remove(job, Phase::RemovingJoinList, job.layout.join_input)
        },
        Phase::RemovingJoinList => if failed {
            give_up(job, BackupError::Io)
        } else {
            go_remove(job, Phase::RemovingManifest, job.layout.manifest)
        },
        Phase::RemovingManifest => if failed {
            give_up(job, BackupError::Io)
        } else {
            (
                JobView { phase: Phase::Renaming, ..job },
                ActionView::RenameFile { from: job.layout.join_output, to: job.second_last },
            )
        },
        Phase::Renaming => if failed {
            give_up(job, BackupError::Io)
        } else {
            go_remove(job, Phase::RemovingSource, job.source)
        },
        Phase::RemovingSource => if failed {
            give_up(job, BackupError::Io)
        } else {
            (JobView { phase: Phase::Finished, ..job }, ActionView::Finish { parts: job.parts })
        },
        Phase::Finished => (job, ActionView::Finish { parts: job.parts }),
        Phase::Failed(error) => (job, ActionView::Fail { error }),
    }
}

/// The arguments with which the tool cuts the recording `input` into parts of
/// `soft_cap_seconds` seconds each, named after `pattern`, and lists them in
/// `manifest`.
pub fn split_arguments(input: &str, soft_cap_seconds: i64, manifest: &str, pattern: &str) -> (args:
    Vec<String>)
    ensures
        views_of(args@) == split_args(input@, soft_cap_seconds as int, manifest@, pattern@),
{
    let mut args: Vec<String> = Vec::new();
    args.push("-i".to_owned());
    args.push(input.to_owned());
    args.push("-c".to_owned());
    args.push("copy".to_owned());
    args.push("-map".to_owned());
    args.push("0".to_owned());
    args.push("-segment_time".to_owned());
    args.push(duration_to_string(soft_cap_seconds));
    args.push("-reset_timestamps".to_owned());
    args.push("1".to_owned());
    args.push("-segment_list".to_owned());
    args.push(manifest.to_owned());
    args.push("-segment_list_type".to_owned());
    args.push("m3u8".to_owned());
    args.push("-avoid_negative_ts".to_owned());
    args.push("1".to_owned());
    args.push("-f".to_owned());
    args.push("segment".to_owned());
    args.push(pattern.to_owned());
    assert(views_of(args@) =~= split_args(
        input@,
        soft_cap_seconds as int,
        manifest@,
        pattern@,
    ));
    args
}

/// The arguments with which the tool merges the parts that the file `list`
/// names into the file `output`.
pub fn concat_arguments(list: &str, output: &str) -> (args: Vec<String>)
    ensures
        views_of(args@) == concat_args(list@, output@),
{
    let mut args: Vec<String> = Vec::new();
    args.push("-f".to_owned());
    args.push("concat".to_owned());
    args.push("-safe".to_owned());
    args.push("0".to_owned());
    args.push("-i".to_owned());
    args.push(list.to_owned());
    args.push("-c".to_owned());
    args.push("copy".to_owned());
    args.push(output.to_owned());
    assert(views_of(args@) =~= concat_args(list@, output@));
    args
}

/// The text of the list of the two parts to merge: the last part first.
pub fn join_list_text(last: &str, second_last: &str) -> (content: String)
    ensures
        content@ == join_list(last@, second_last@),
{
    let mut content: Vec<char> = Vec::new();
    push_str(&mut content, "file '");
    push_str(&mut content, last);
    push_str(&mut content, "'\nfile '");
    push_str(&mut content, second_last);
    push_str(&mut content, "'");
    assert(content@ =~= join_list(last@, second_last@));
    string_of(content.as_slice())
}

impl Layout {
    /// Says where the files of the cutting lie for the recording `input` in
    /// the directory `parent_dir`; `None` where `input` names no file.
    pub fn of(parent_dir: &str, input: &str) -> (r: Option<Layout>)
        ensures
            match file_stem_of(input@) {
                Some(stem) => r matches Some(layout) && layout@ == layout_in(parent_dir@, stem),
                None => r is None,
            },
    {
        let stem = match file_stem(input) {
            Some(stem) => stem,
            None => {
                return None;
            },
        };
        let mut name = chars_of(stem.as_str());
        push_str(&mut name, "_%03d.mp4");
        let name = string_of(name.as_slice());
        let manifest = join_path(parent_dir, "output.m3u8");
        let join_list = join_path(parent_dir, "join.txt");
        let join_output = join_path(parent_dir, "join.mp4");
        Some(
            Layout {
                manifest: clean_path(manifest.as_str()),
                pattern: join_path(parent_dir, name.as_str()),
                join_input: clean_path(join_list.as_str()),
                join_list,
                join_output: clean_path(join_output.as_str()),
            },
        )
    }
}

impl SplitJob {
    /// Prepares the cutting of the recording that the caller names `source`,
    /// with its files laid out as `layout` says.
    ///
    /// `input` is the canonical path of the recording and `parent_dir` that of
    /// its directory. The caps are in seconds. A cap that is not positive is
    /// refused.
    pub fn with_layout(
        source: String,
        input: String,
        parent_dir: String,
        layout: Layout,
        soft_cap_seconds: i64,
        hard_cap_seconds: i64,
    ) -> (r: Result<SplitJob, BackupError>)
        ensures
            soft_cap_seconds <= 0 || hard_cap_seconds <= 0 ==> (r matches Err(e) && e
                == BackupError::Config),
            soft_cap_seconds > 0 && hard_cap_seconds > 0 ==> (r matches Ok(job) && job@
                == (JobView {
                phase: Phase::Ready,
                source: source@,
                input: input@,
                parent_dir: parent_dir@,
                layout: layout@,
                soft_cap_seconds,
                hard_cap_seconds,
                parts: Seq::empty(),
                second_last: Seq::empty(),
                last: Seq::empty(),
            })),
    {
        if soft_cap_seconds <= 0 || hard_cap_seconds <= 0 {
            return Err(BackupError::Config);
        }
        let job = SplitJob {
            phase: Phase::Ready,
            source,
            input,
            parent_dir,
            layout,
            soft_cap_seconds,
            hard_cap_seconds,
            parts: Vec::new(),
            second_last: String::new(),
            last: String::new(),
        };
        assert(job@.parts =~= Seq::<Seq<char>>::empty());
        Ok(job)
    }

    /// Prepares the cutting of the recording that the caller names `source`.
    ///
    /// `input` is the canonical path of the recording and `parent_dir` that of
    /// its directory. The caps are in seconds. A cap that is not positive is
    /// refused, and so is a recording whose path names no file.
    pub fn new(
        source: String,
        input: String,
        parent_dir: String,
        soft_cap_seconds: i64,
        hard_cap_seconds: i64,
    ) -> (r: Result<SplitJob, BackupError>)
        ensures
            soft_cap_seconds <= 0 || hard_cap_seconds <= 0 ==> (r matches Err(e) && e
                == BackupError::Config),
            soft_cap_seconds > 0 && hard_cap_seconds > 0 ==> match file_stem_of(input@) {
                None => r matches Err(e) && e == BackupError::Io,
                Some(stem) => r matches Ok(job) && job@ == (JobView {
                    phase: Phase::Ready,
                    source: source@,
                    input: input@,
                    parent_dir: parent_dir@,
                    layout: layout_in(parent_dir@, stem),
                    soft_cap_seconds,
                    hard_cap_seconds,
                    parts: Seq::empty(),
                    second_last: Seq::empty(),
                    last: Seq::empty(),
                }),
            },
    {
        if soft_cap_seconds <= 0 || hard_cap_seconds <= 0 {
            return Err(BackupError::Config);
        }
        match Layout::of(parent_dir.as_str(), input.as_str()) {
            None => Err(BackupError::Io),
            Some(layout) => SplitJob::with_layout(
                source,
                input,
                parent_dir,
                layout,
                soft_cap_seconds,
                hard_cap_seconds,
            ),
        }
    }

    /// Prepares the cutting of a recording with the caps of the settings, which
    /// are in minutes.
    ///
    /// Caps that are not positive are refused, and so are caps too long to be
    /// counted in seconds, and a recording whose path names no file.
    pub fn from_config(config: &Config, source: String, input: String, parent_dir: String) -> (r:
        Result<SplitJob, BackupError>)
        ensures
            !caps_are_usable(*config) ==> (r matches Err(e) && e == BackupError::Config),
            caps_are_usable(*config) ==> match file_stem_of(input@) {
                None => r matches Err(e) && e == BackupError::Io,
                Some(stem) => r matches Ok(job) && job@ == (JobView {
                    phase: Phase::Ready,
                    source: source@,
                    input: input@,
                    parent_dir: parent_dir@,
                    layout: layout_in(parent_dir@, stem),
                    soft_cap_seconds: (config.youtube_video_length_minutes_soft_cap * 60) as i64,
                    hard_cap_seconds: (config.youtube_video_length_minutes_hard_cap * 60) as i64,
                    parts: Seq::empty(),
                    second_last: Seq::empty(),
                    last: Seq::empty(),
                }),
            },
    {
        let soft = config.youtube_video_length_minutes_soft_cap;
        let hard = config.youtube_video_length_minutes_hard_cap;
        let most: i64 = i64::MAX / SECONDS_PER_MINUTE;
        if soft <= 0 || hard <= 0 || soft > most || hard > most {
            return Err(BackupError::Config);
        }
        SplitJob::new(
            source,
            input,
            parent_dir,
            soft * SECONDS_PER_MINUTE,
            hard * SECONDS_PER_MINUTE,
        )
    }

    /// Whether the job has ended, well or badly.
    pub fn is_over(&self) -> (over: bool)
        ensures
            over == (self.phase == Phase::Finished || self.phase is Failed),
    {
        match self.phase {
            Phase::Finished => true,
            Phase::Failed(_) => true,
            _ => false,
        }
    }

    /// Ends the job with `error`.
    fn fail(&mut self, error: BackupError) -> (action: Action)
        ensures
            (final(self)@, action@) == give_up(old(self)@, error),
    {
        self.phase = Phase::Failed(error);
        Action::Fail { error }
    }

    /// Moves on to `phase`, with the file at `path` to remove.
    fn remove(&mut self, phase: Phase, path: String) -> (action: Action)
        ensures
            (final(self)@, action@) == go_remove(old(self)@, phase, path@),
    {
        self.phase = phase;
        Action::RemoveFile { path }
    }

    /// Takes in the parts, in the order of the manifest, and whether the last
    /// two are merged, and names what follows.
    ///
    /// Where they are merged, the last part leaves the list, the two are kept
    /// by the paths `second_last` and `last`, and the list of the two is
    /// written next. Where they are not, the recording is removed next.
    pub fn take_parts(
        &mut self,
        join: bool,
        paths: Vec<String>,
        second_last: String,
        last: String,
    ) -> (action: Action)
        ensures
            (final(self)@, action@) == after_parts(
                old(self)@,
                join,
                views_of(paths@),
                second_last@,
                last@,
            ),
    {
        let mut paths = paths;
        if join {
            let ghost all = views_of(paths@);
            paths.pop();
            assert(views_of(paths@) =~= without_last(all));
            let content = join_list_text(last.as_str(), second_last.as_str());
            let path = self.layout.join_list.clone();
            self.phase = Phase::WritingJoinList;
            self.parts = paths;
            self.second_last = second_last;
            self.last = last;
            Action::WriteFile { path, content }
        } else {
            self.parts = paths;
            let source = self.source.clone();
            self.remove(Phase::RemovingSource, source)
        }
    }

    /// Takes in the text of the manifest and names what follows.
    fn read_manifest(&mut self, text: String) -> (action: Action)
        ensures
            (final(self)@, action@) == after_manifest(old(self)@, text@),
    {
        let segments = match extract_track_info_from_playlist(text) {
            Ok(found) => found.1,
            Err(error) => {
                return self.fail(error);
            },
        };
        let plan = plan_join(&segments, self.hard_cap_seconds);
        let paths = resolve_paths(self.parent_dir.as_str(), &segments);
        assert(views_of(paths@).len() == paths.len() && paths.len() == segments.len());
        if plan.should_join {
            let n = paths.len();
            let second_last = clean_path(paths[n - 2].as_str());
            let last = clean_path(paths[n - 1].as_str());
            self.take_parts(true, paths, second_last, last)
        } else {
            self.take_parts(false, paths, String::new(), String::new())
        }
    }

    /// Takes in the outcome of the last action and names the next one.
    ///
    /// The first call starts the job, whatever `outcome` it is given. The job
    /// has ended once the action is [`Action::Finish`] or [`Action::Fail`].
    pub fn step(&mut self, outcome: Outcome) -> (action: Action)
        ensures
            (final(self)@, action@) == transition(old(self)@, outcome@),
    {
        let failed = match outcome {
            Outcome::Failed => true,
            _ => false,
        };
        match self.phase {
            Phase::Ready => {
                let args = split_arguments(
                    self.input.as_str(),
                    self.soft_cap_seconds,
                    self.layout.manifest.as_str(),
                    self.layout.pattern.as_str(),
                );
                self.phase = Phase::Splitting;
                Action::RunTool { args }
            },
            Phase::Splitting => {
                if failed {
                    self.fail(BackupError::Tool)
                } else {
                    let path = self.layout.manifest.clone();
                    self.phase = Phase::ReadingManifest;
                    Action::ReadFile { path }
                }
            },
            Phase::ReadingManifest => {
                match outcome {
                    Outcome::Text(text) => self.read_manifest(text),
                    _ => self.fail(BackupError::Io),
                }
            },
            Phase::WritingJoinList => {
                if failed {
                    self.fail(BackupError::Io)
                } else {
                    let args = concat_arguments(
                        self.layout.join_input.as_str(),
                        self.layout.join_output.as_str(),
                    );
                    self.phase = Phase::Concatenating;
                    Action::RunTool { args }
                }
            },
            Phase::Concatenating => {
                if failed {
                    self.fail(BackupError::Tool)
                } else {
                    let path = self.second_last.clone();
                    self.remove(Phase::RemovingSecondLast, path)
                }
            },
            Phase::RemovingSecondLast => {
                if failed {
                    self.fail(BackupError::Io)
                } else {
                    let path = self.last.clone();
                    self.remove(Phase::RemovingLast, path)
                }
            },
            Phase::RemovingLast => {
                if failed {
                    self.fail(BackupError::Io)
                } else {
                    let path = self.layout.join_input.clone();
                    self.remove(Phase::RemovingJoinList, path)
                }
            },
            Phase::RemovingJoinList => {
                if failed {
                    self.fail(BackupError::Io)
                } else {
                    let path = self.layout.manifest.clone();
                    self.remove(Phase::RemovingManifest, path)
                }
            },
            Phase::RemovingManifest => {
                if failed {
                    self.fail(BackupError::Io)
                } else {
                    let from = self.layout.join_output.clone();
                    let to = self.second_last.clone();
                    self.phase = Phase::Renaming;
                    Action::RenameFile { from, to }
                }
            },
            Phase::Renaming => {
                if failed {
                    self.fail(BackupError::Io)
                } else {
                    let path = self.source.clone();
                    self.remove(Phase::RemovingSource, path)
                }
            },
            Phase::RemovingSource => {
                if failed {
                    self.fail(BackupError::Io)
                } else {
                    let parts = copy_strings(&self.parts);
                    self.phase = Phase::Finished;
                    Action::Finish { parts }
                }
            },
            Phase::Finished => {
                let parts = copy_strings(&self.parts);
                Action::Finish { parts }
            },
            Phase::Failed(error) => Action::Fail { error },
        }
    }
}

/// Whether the caps of `config`, which are in minutes, are positive and short
/// enough to be counted in seconds.
pub open spec fn caps_are_usable(config: Config) -> bool {
    &&& 0 < config.youtube_video_length_minutes_soft_cap <= i64::MAX / 60
    &&& 0 < config.youtube_video_length_minutes_hard_cap <= i64::MAX / 60
}

/// The actions that a job names, one after the other, when it starts in the
/// state `job` and is given `outcomes` in turn.
pub open spec fn run(job: JobView, outcomes: Seq<OutcomeView>) -> Seq<ActionView>
    decreases outcomes.len(),
{
    if outcomes.len() == 0 {
        Seq::empty()
    } else {
        let (next, action) = transition(job, outcomes[0]);
        seq![action] + run(next, outcomes.drop_first())
    }
}

/// `count` times the outcome that the last action was carried out.
pub open spec fn all_done(count: nat) -> Seq<OutcomeView> {
    Seq::new(count, |i: int| OutcomeView::Done)
}

/// A run is the action on the first outcome and then the run on the rest.
proof fn lemma_run_step(job: JobView, outcomes: Seq<OutcomeView>)
    requires
        outcomes.len() > 0,
    ensures
        run(job, outcomes) == seq![transition(job, outcomes[0]).1] + run(
            transition(job, outcomes[0]).0,
            outcomes.drop_first(),
        ),
{
}

/// The first actions of a fresh job when nothing fails: it cuts the
/// recording and reads the manifest.
pub open spec fn first_actions(job: JobView) -> Seq<ActionView> {
    seq![
        ActionView::RunTool {
            args: split_args(
                job.input,
                job.soft_cap_seconds as int,
                job.layout.manifest,
                job.layout.pattern,
            ),
        },
        ActionView::ReadFile { path: job.layout.manifest },
    ]
}

/// Where the last two parts are not merged and nothing fails, a fresh job
/// cuts the recording, reads the manifest, removes the recording and hands
/// out every part of the manifest, in its order.
pub proof fn lemma_run_without_join(job: JobView, text: Seq<char>)
    requires
        job.phase == Phase::Ready,
        manifest_of(text) is Ok,
        !should_join(manifest_of(text)->Ok_0.tracks, job.hard_cap_seconds as int),
    ensures
        run(job, seq![OutcomeView::Done, OutcomeView::Done, OutcomeView::Text(text)] + all_done(1))
            == first_actions(job) + seq![
            ActionView::RemoveFile { path: job.source },
            ActionView::Finish {
                parts: resolved_paths(job.parent_dir, manifest_of(text)->Ok_0.tracks),
            },
        ],
{
    let outcomes = seq![OutcomeView::Done, OutcomeView::Done, OutcomeView::Text(text)]
        + all_done(1);
    let o1 = outcomes.drop_first();
    let o2 = o1.drop_first();
    let o3 = o2.drop_first();
    let o4 = o3.drop_first();
    let j1 = transition(job, outcomes[0]).0;
    let j2 = transition(j1, o1[0]).0;
    let j3 = transition(j2, o2[0]).0;
    let j4 = transition(j3, o3[0]).0;
    lemma_run_step(job, outcomes);
    lemma_run_step(j1, o1);
    lemma_run_step(j2, o2);
    lemma_run_step(j3, o3);
    assert(run(j4, o4) =~= Seq::<ActionView>::empty());
    assert(run(job, outcomes) =~= first_actions(job) + seq![
        ActionView::RemoveFile { path: job.source },
        ActionView::Finish {
            parts: resolved_paths(job.parent_dir, manifest_of(text)->Ok_0.tracks),
        },
    ]);
}

/// The actions of a job that has the list of the two parts to write, when
/// nothing fails.
pub open spec fn join_actions(job: JobView) -> Seq<ActionView> {
    seq![
        ActionView::RunTool { args: concat_args(job.layout.join_input, job.layout.join_output) },
        ActionView::RemoveFile { path: job.second_last },
        ActionView::RemoveFile { path: job.last },
        ActionView::RemoveFile { path: job.layout.join_input },
        ActionView::RemoveFile { path: job.layout.manifest },
        ActionView::RenameFile { from: job.layout.join_output, to: job.second_last },
        ActionView::RemoveFile { path: job.source },
        ActionView::Finish { parts: job.parts },
    ]
}

/// Once the list of the two parts is written and nothing fails, a job merges
/// them, removes the two parts, the list and the manifest, moves the merged
/// part to where the second last part was, removes the recording, and hands
/// out its parts.
pub proof fn lemma_run_join(job: JobView)
    requires
        job.phase == Phase::WritingJoinList,
    ensures
        run(job, all_done(8)) == join_actions(job),
{
    let done = OutcomeView::Done;
    let o0 = all_done(8);
    let o1 = o0.drop_first();
    let o2 = o1.drop_first();
    let o3 = o2.drop_first();
    let o4 = o3.drop_first();
    let o5 = o4.drop_first();
    let o6 = o5.drop_first();
    let o7 = o6.drop_first();
    let o8 = o7.drop_first();
    assert(o0[0] == done && o1[0] == done && o2[0] == done && o3[0] == done);
    assert(o4[0] == done && o5[0] == done && o6[0] == done && o7[0] == done);
    let j1 = JobView { phase: Phase::Concatenating, ..job };
    let j2 = JobView { phase: Phase::RemovingSecondLast, ..job };
    let j3 = JobView { phase: Phase::RemovingLast, ..job };
    let j4 = JobView { phase: Phase::RemovingJoinList, ..job };
    let j5 = JobView { phase: Phase::RemovingManifest, ..job };
    let j6 = JobView { phase: Phase::Renaming, ..job };
    let j7 = JobView { phase: Phase::RemovingSource, ..job };
    let j8 = JobView { phase: Phase::Finished, ..job };
    assert(transition(job, done) == (j1, join_actions(job)[0]));
    assert(transition(j1, done) == (j2, join_actions(job)[1]));
    assert(transition(j2, done) == (j3, join_actions(job)[2]));
    assert(transition(j3, done) == (j4, join_actions(job)[3]));
    assert(transition(j4, done) == (j5, join_actions(job)[4]));
    assert(transition(j5, done) == (j6, join_actions(job)[5]));
    assert(transition(j6, done) == (j7, join_actions(job)[6]));
    assert(transition(j7, done) == (j8, join_actions(job)[7]));
    lemma_run_step(job, o0);
    lemma_run_step(j1, o1);
    lemma_run_step(j2, o2);
    lemma_run_step(j3, o3);
    lemma_run_step(j4, o4);
    lemma_run_step(j5, o5);
    lemma_run_step(j6, o6);
    lemma_run_step(j7, o7);
    assert(run(j8, o8) =~= Seq::<ActionView>::empty());
    assert(run(j7, o7) =~= join_actions(job).skip(7));
    assert(run(j6, o6) =~= join_actions(job).skip(6));
    assert(run(j5, o5) =~= join_actions(job).skip(5));
    assert(run(j4, o4) =~= join_actions(job).skip(4));
    assert(run(j3, o3) =~= join_actions(job).skip(3));
    assert(run(j2, o2) =~= join_actions(job).skip(2));
    assert(run(j1, o1) =~= join_actions(job).skip(1));
    assert(run(job, o0) =~= join_actions(job));
}

/// The state of a job that has read a manifest whose last two parts are to
/// be merged.
pub open spec fn joining(job: JobView, text: Seq<char>) -> JobView {
    after_manifest(JobView { phase: Phase::ReadingManifest, ..job }, text).0
}

/// Where the last two parts are merged and nothing fails, a fresh job cuts
/// the recording, reads the manifest, writes the list of the two parts with
/// the last one first, and goes on as [`lemma_run_join`] says. The parts that
/// it hands out in the end are those of the manifest without the last, in
/// its order.
pub proof fn lemma_run_with_join(job: JobView, text: Seq<char>)
    requires
        job.phase == Phase::Ready,
        manifest_of(text) is Ok,
        should_join(manifest_of(text)->Ok_0.tracks, job.hard_cap_seconds as int),
    ensures
        ({
            let paths = resolved_paths(job.parent_dir, manifest_of(text)->Ok_0.tracks);
            let second_last = cleaned_path(paths[paths.len() - 2]);
            let last = cleaned_path(paths[paths.len() - 1]);
            &&& run(
                job,
                seq![OutcomeView::Done, OutcomeView::Done, OutcomeView::Text(text)] + all_done(8),
            ) == first_actions(job) + seq![
                ActionView::WriteFile {
                    path: job.layout.join_list,
                    content: join_list(last, second_last),
                },
            ] + join_actions(joining(job, text))
            &&& joining(job, text) == JobView {
                phase: Phase::WritingJoinList,
                parts: paths.drop_last(),
                second_last,
                last,
                ..job
            }
        }),
{
    let paths = resolved_paths(job.parent_dir, manifest_of(text)->Ok_0.tracks);
    let second_last = cleaned_path(paths[paths.len() - 2]);
    let last = cleaned_path(paths[paths.len() - 1]);
    let outcomes = seq![OutcomeView::Done, OutcomeView::Done, OutcomeView::Text(text)]
        + all_done(8);
    let o1 = outcomes.drop_first();
    let o2 = o1.drop_first();
    let o3 = o2.drop_first();
    assert(o3 =~= all_done(8));
    assert(outcomes[0] == OutcomeView::Done && o1[0] == OutcomeView::Done);
    assert(o2[0] == OutcomeView::Text(text));
    let j1 = JobView { phase: Phase::Splitting, ..job };
    let j2 = JobView { phase: Phase::ReadingManifest, ..job };
    let j3 = joining(job, text);
    assert(transition(job, OutcomeView::Done).0 == j1);
    assert(transition(j1, OutcomeView::Done).0 == j2);
    assert(transition(j2, OutcomeView::Text(text)).0 == j3);
    lemma_run_step(job, outcomes);
    lemma_run_step(j1, o1);
    lemma_run_step(j2, o2);
    lemma_run_join(j3);
    let write = seq![
        ActionView::WriteFile {
            path: job.layout.join_list,
            content: join_list(last, second_last),
        },
    ];
    assert(run(j2, o2) =~= write + join_actions(j3));
    assert(run(j1, o1) =~= first_actions(job).skip(1) + write + join_actions(j3));
    assert(run(job, outcomes) =~= first_actions(job) + write + join_actions(j3));
}

/// A job hands out its parts for the first time only when the recording has
/// been removed, and a job that has failed never hands out parts.
pub proof fn lemma_finish_follows_removal(job: JobView, outcome: OutcomeView)
    requires
        transition(job, outcome).1 is Finish,
    ensures
        job.phase == Phase::Finished || (job.phase == Phase::RemovingSource && !(outcome
            is Failed)),
        transition(job, outcome).0.phase == Phase::Finished,
{
}

/// A failure reported in any state but a final one ends the job, and a job
/// that has ended stays as it is.
pub proof fn lemma_failure_ends_the_job(job: JobView, outcome: OutcomeView)
    ensures
        outcome is Failed && job.phase != Phase::Ready && job.phase != Phase::Finished
            ==> transition(job, outcome).0.phase is Failed && transition(job, outcome).1 is Fail,
        job.phase == Phase::Finished || job.phase is Failed ==> transition(job, outcome).0 == job,
{
}

} // verus!
