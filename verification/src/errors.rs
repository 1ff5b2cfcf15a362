//! Failure outcomes of the filesystem operations, and their rendering into
//! the descriptive strings that cross the boundary. Every operation fails
//! fast with one such value; only directory listing degrades per-entry
//! errors to inline lines instead.

use vstd::prelude::*;
use vstd::string::StringExecFns;

use crate::text::{contains_substring, lower_of, spec_contains, to_lower};

verus! {

/// What kind of target a not-found failure names.
#[derive(Clone, Copy, Debug)]
pub enum NotFoundKind {
    File,
    Directory,
    Source,
    Path,
}

/// Which underlying filesystem action failed.
#[derive(Clone, Copy, Debug)]
pub enum IoAction {
    ReadDirectory,
    ReadFile,
    CreateParentDirectory,
    CreateDestinationParentDirectory,
    WriteFile,
    CreateDirectory,
    DeleteFile,
    DeleteDirectory,
    BuildTree,
    Search,
    Metadata,
}

/// A failed operation. `Resolution` stands for an unavailable home
/// directory during `~`-expansion; `NotFound` for a missing target;
/// `IsADirectory` and `NotADirectory` for an operation applied to the
/// wrong entry kind; `Io` for an underlying action that failed, with the
/// cause as reported by the filesystem; `MoveFailed` for a rename that
/// failed, naming both paths.
#[derive(Debug)]
pub enum FsError {
    Resolution,
    NotFound { kind: NotFoundKind, path: String },
    IsADirectory { path: String },
    NotADirectory { path: String, suggest_delete_file: bool },
    Io { action: IoAction, path: String, detail: String },
    MoveFailed { source: String, destination: String, detail: String },
}

/// The words that introduce a missing target.
pub open spec fn not_found_prefix(kind: NotFoundKind) -> Seq<char> {
    match kind {
        NotFoundKind::File => "File '"@,
        NotFoundKind::Directory => "Directory '"@,
        NotFoundKind::Source => "Source path '"@,
        NotFoundKind::Path => "Path '"@,
    }
}

/// The words that introduce a failed action. `BuildTree` and `Search`
/// name no path, so their texts already end before the cause.
pub open spec fn io_action_prefix(action: IoAction) -> Seq<char> {
    match action {
        IoAction::ReadDirectory => "Failed to read directory '"@,
        IoAction::ReadFile => "Failed to read file '"@,
        IoAction::CreateParentDirectory => "Failed to create parent directory '"@,
        IoAction::CreateDestinationParentDirectory => "Failed to create destination parent directory '"@,
        IoAction::WriteFile => "Failed to write to file '"@,
        IoAction::CreateDirectory => "Failed to create directory '"@,
        IoAction::DeleteFile => "Failed to delete file '"@,
        IoAction::DeleteDirectory => "Failed to delete directory '"@,
        IoAction::BuildTree => "Failed to build directory tree: "@,
        IoAction::Search => "Failed to search directory: "@,
        IoAction::Metadata => "Failed to get metadata for '"@,
    }
}

/// Whether an action's message names the failing path before the cause.
pub open spec fn io_action_names_path(action: IoAction) -> bool {
    !(action is BuildTree || action is Search)
}

/// The descriptive string for a failure. A directory deletion whose
/// underlying cause mentions non-emptiness (case-insensitively) carries an
/// appended hint to remove the contents first.
pub open spec fn spec_message(e: FsError) -> Seq<char> {
    match e {
        FsError::Resolution => "Cannot determine home directory from $HOME"@,
        FsError::NotFound { kind, path } => not_found_prefix(kind) + path@ + "' does not exist"@,
        FsError::IsADirectory { path } => "'"@ + path@
            + "' is a directory, use delete-directory instead"@,
        FsError::NotADirectory { path, suggest_delete_file } => if suggest_delete_file {
            "'"@ + path@ + "' is not a directory, use delete-file instead"@
        } else {
            "'"@ + path@ + "' is not a directory"@
        },
        FsError::Io { action, path, detail } => {
            let base = if io_action_names_path(action) {
                io_action_prefix(action) + path@ + "': "@ + detail@
            } else {
                io_action_prefix(action) + detail@
            };
            if action is DeleteDirectory && spec_contains(lower_of(detail@), "not empty"@) {
                base + " Remove all contents first."@
            } else {
                base
            }
        },
        FsError::MoveFailed { source, destination, detail } => "Failed to move '"@ + source@
            + "' to '"@ + destination@ + "': "@ + detail@,
    }
}

/// A directory deletion that failed because the directory is not empty —
/// its cause text mentions non-emptiness, in any casing — renders with
/// the actionable hint appended after the descriptive message.
pub proof fn lemma_non_empty_delete_hint(path: String, detail: String)
    requires
        spec_contains(lower_of(detail@), "not empty"@),
    ensures
        spec_message(FsError::Io { action: IoAction::DeleteDirectory, path, detail })
            == "Failed to delete directory '"@ + path@ + "': "@ + detail@
            + " Remove all contents first."@,
{
}

/// Builds `prefix + path + "': " + detail`, the common shape of a failed
/// action that names its path.
fn path_detail_message(prefix: &str, path: &str, detail: &str) -> (r: String)
    ensures
        r@ == prefix@ + path@ + "': "@ + detail@,
{
    prefix.to_owned().concat(path).concat("': ").concat(detail)
}

impl FsError {
    /// Renders the failure as the single descriptive string that callers
    /// see.
    pub fn message(&self) -> (r: String)
        ensures
            r@ == spec_message(*self),
    {
        match self {
            FsError::Resolution => "Cannot determine home directory from $HOME".to_owned(),
            FsError::NotFound { kind, path } => {
                let prefix = match kind {
                    NotFoundKind::File => "File '",
                    NotFoundKind::Directory => "Directory '",
                    NotFoundKind::Source => "Source path '",
                    NotFoundKind::Path => "Path '",
                };
                prefix.to_owned().concat(path.as_str()).concat("' does not exist")
            },
            FsError::IsADirectory { path } => "'".to_owned().concat(path.as_str()).concat(
                "' is a directory, use delete-directory instead",
            ),
            FsError::NotADirectory { path, suggest_delete_file } => {
                if *suggest_delete_file {
                    "'".to_owned().concat(path.as_str()).concat(
                        "' is not a directory, use delete-file instead",
                    )
                } else {
                    "'".to_owned().concat(path.as_str()).concat("' is not a directory")
                }
            },
            FsError::Io { action, path, detail } => {
                let base = match action {
                    IoAction::ReadDirectory => path_detail_message(
                        "Failed to read directory '",
                        path.as_str(),
                        detail.as_str(),
                    ),
                    IoAction::ReadFile => path_detail_message(
                        "Failed to read file '",
                        path.as_str(),
                        detail.as_str(),
                    ),
                    IoAction::CreateParentDirectory => path_detail_message(
                        "Failed to create parent directory '",
                        path.as_str(),
                        detail.as_str(),
                    ),
                    IoAction::CreateDestinationParentDirectory => path_detail_message(
                        "Failed to create destination parent directory '",
                        path.as_str(),
                        detail.as_str(),
                    ),
                    IoAction::WriteFile => path_detail_message(
                        "Failed to write to file '",
                        path.as_str(),
                        detail.as_str(),
                    ),
                    IoAction::CreateDirectory => path_detail_message(
                        "Failed to create directory '",
                        path.as_str(),
                        detail.as_str(),
                    ),
                    IoAction::DeleteFile => path_detail_message(
                        "Failed to delete file '",
                        path.as_str(),
                        detail.as_str(),
                    ),
                    IoAction::DeleteDirectory => path_detail_message(
                        "Failed to delete directory '",
                        path.as_str(),
                        detail.as_str(),
                    ),
                    IoAction::BuildTree => "Failed to build directory tree: ".to_owned().concat(
                        detail.as_str(),
                    ),
                    IoAction::Search => "Failed to search directory: ".to_owned().concat(
                        detail.as_str(),
                    ),
                    IoAction::Metadata => path_detail_message(
                        "Failed to get metadata for '",
                        path.as_str(),
                        detail.as_str(),
                    ),
                };
                let hinted = if matches!(action, IoAction::DeleteDirectory) {
                    let lowered = to_lower(detail.as_str());
                    contains_substring(lowered.as_str(), "not empty")
                } else {
                    false
                };
                if hinted {
                    base.concat(" Remove all contents first.")
                } else {
                    base
                }
            },
            FsError::MoveFailed { source, destination, detail } => "Failed to move '".to_owned()
                .concat(source.as_str()).concat("' to '").concat(destination.as_str()).concat(
                "': ",
            ).concat(detail.as_str()),
        }
    }
}

} // verus!
