//! The failures that the library reports.

use vstd::prelude::*;

verus! {

/// What is wrong with a segment manifest.
#[derive(Debug, Clone, Copy, PartialEq, Eq, Structural)]
pub enum ParseFault {
    /// A per-segment duration line carries no well-formed number.
    MalformedDuration,
    /// The target-duration line carries no well-formed number.
    MalformedTotal,
    /// A path line stands where no duration line went before it.
    PathWithoutDuration,
}

/// A field of a video record that formatting cannot do without.
#[derive(Debug, Clone, Copy, PartialEq, Eq, Structural)]
pub enum VideoField {
    Title,
    CreatedAt,
}

/// Why an operation on a recording failed.
#[derive(Debug, Clone, Copy, PartialEq, Eq, Structural)]
pub enum BackupError {
    /// The segment manifest is malformed.
    Parse(ParseFault),
    /// A filesystem operation failed.
    Io,
    /// The transcoding tool could not be run or reported a failure.
    Tool,
    /// A required field of the video record is absent.
    MissingField(VideoField),
    /// The duration caps are unusable.
    Config,
    /// The identifier of a recording is no numeral.
    InvalidVideoId,
}

} // verus!
