//! File paths, held as strings. What a path means is left to the standard
//! library and to `path_clean`; this module gives their answers names that
//! contracts can speak of.

use vstd::prelude::*;

verus! {

/// What `std::path::Path::join` makes of the path `base` and the path `path`
/// on the platform the library is built for.
pub uninterp spec fn joined_path(base: Seq<char>, path: Seq<char>) -> Seq<char>;

/// What `path_clean::clean` makes of `path`: the same path with `.`, inner
/// `..` and repeated separators removed, worked out on the text alone.
pub uninterp spec fn cleaned_path(path: Seq<char>) -> Seq<char>;

/// What `std::path::Path::file_stem` finds in `path`: the file name without
/// its last extension, or `None` where the path names no file.
pub uninterp spec fn file_stem_of(path: Seq<char>) -> Option<Seq<char>>;

/// Calls `std::path::Path::join` on `base` with `path`. The contract claims
/// only that the answer is a function of the two paths.
#[verifier::external_body]
pub(crate) fn join_path(base: &str, path: &str) -> (joined: String)
    ensures
        joined@ == joined_path(base@, path@),
{
    std::path::Path::new(base).join(path).to_string_lossy().into_owned()
}

/// Calls `path_clean::clean` on `path`. The contract claims only that the
/// answer is a function of the path.
#[verifier::external_body]
pub(crate) fn clean_path(path: &str) -> (cleaned: String)
    ensures
        cleaned@ == cleaned_path(path@),
{
    path_clean::clean(path).to_string_lossy().into_owned()
}

/// Calls `std::path::Path::file_stem` on `path`. The contract claims only that
/// the answer is a function of the path.
#[verifier::external_body]
pub(crate) fn file_stem(path: &str) -> (stem: Option<String>)
    ensures
        match file_stem_of(path@) {
            Some(name) => stem matches Some(found) && found@ == name,
            None => stem is None,
        },
{
    match std::path::Path::new(path).file_stem() {
        Some(name) => Some(name.to_string_lossy().into_owned()),
        None => None,
    }
}

} // verus!
