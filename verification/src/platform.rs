//! Trusted boundary to the platform: well-known user directories, the final
//! component of a path, existence checks, directory walks, the recoverable
//! trash facility and the wall clock.  Each function here wraps one outside
//! call; everything computed from their results is verified elsewhere.

use vstd::prelude::*;
use crate::scan::FsEntry;

verus! {

/// The final component of a path, as the platform path API reads it; `None`
/// for paths that end in `..` or have no final component.  The result
/// depends on the path text alone.
pub uninterp spec fn file_name_of(p: Seq<char>) -> Option<Seq<char>>;

/// Relies on `std::path::Path::file_name`: the final component of the path,
/// a function of the path text alone.
#[verifier::external_body]
pub fn path_file_name(p: &str) -> (r: Option<String>)
    ensures
        match r {
            Some(s) => file_name_of(p@) == Some(s@),
            None => file_name_of(p@) is None,
        },
{
    std::path::Path::new(p).file_name().map(|n| n.to_string_lossy().into_owned())
}

/// Relies on `std::path::Path::exists`: whether the path currently points at
/// an existing entity on disk.  Nothing is promised of the result, which
/// depends on the state of the disk.
#[verifier::external_body]
pub fn path_exists(p: &str) -> (r: bool) {
    std::path::Path::new(p).exists()
}

/// Relies on `dirs::data_local_dir`: the per-user local application-data
/// directory, if the platform defines one.  The result depends on the
/// environment.
#[verifier::external_body]
pub fn data_local_dir() -> (r: Option<String>) {
    dirs::data_local_dir().map(|p| p.to_string_lossy().into_owned())
}

/// Relies on `dirs::data_dir`: the per-user roaming application-data
/// directory, if the platform defines one.
#[verifier::external_body]
pub fn data_dir() -> (r: Option<String>) {
    dirs::data_dir().map(|p| p.to_string_lossy().into_owned())
}

/// Relies on `dirs::config_dir`: the per-user configuration directory, if
/// the platform defines one.
#[verifier::external_body]
pub fn config_dir() -> (r: Option<String>) {
    dirs::config_dir().map(|p| p.to_string_lossy().into_owned())
}

/// Relies on `dirs::document_dir`: the user's documents directory, if the
/// platform defines one.
#[verifier::external_body]
pub fn document_dir() -> (r: Option<String>) {
    dirs::document_dir().map(|p| p.to_string_lossy().into_owned())
}

/// Relies on `chrono::Local::now` and on `chrono::format::DelayedFormat`
/// rendered through `format!`: the current local time as
/// `YYYY-MM-DD_HH-MM-SS`.  Nothing is promised of the result, which depends
/// on the clock.
#[verifier::external_body]
pub fn local_timestamp() -> (r: String) {
    format!("{}", chrono::Local::now().format("%Y-%m-%d_%H-%M-%S"))
}

/// Relies on `walkdir::WalkDir`: the entries reachable below `root`, at any
/// depth, root included; entries that cannot be read are silently skipped.
/// Which entries come back depends on the state of the disk; of every entry,
/// its name is the final component of its path, or the whole path where the
/// path has no final component, as `walkdir::DirEntry::file_name` yields it.
#[verifier::external_body]
pub fn walk_tree(root: &str) -> (r: Vec<FsEntry>)
    ensures
        forall|i: int|
            0 <= i < r@.len() ==> (#[trigger] r@[i]).name@ == (match file_name_of(r@[i].path@) {
                Some(f) => f,
                None => r@[i].path@,
            }),
{
    walkdir::WalkDir::new(root)
        .into_iter()
        .filter_map(|e| e.ok())
        .map(|e| FsEntry {
            path: e.path().to_string_lossy().into_owned(),
            name: e.file_name().to_string_lossy().into_owned(),
            is_dir: e.file_type().is_dir(),
        })
        .collect()
}

/// Relies on `trash::delete`: moves the file or directory at `path` to the
/// platform's recoverable trash, or reports why it could not.  Nothing is
/// promised of the outcome, which depends on the state of the disk.
#[verifier::external_body]
pub fn trash_delete(path: &str) -> (r: Result<(), String>) {
    match trash::delete(path) {
        Ok(()) => Ok(()),
        Err(e) => Err(format!("{}", e)),
    }
}

} // verus!
