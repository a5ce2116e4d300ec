use vstd::prelude::*;

use crate::target::{is_ds_store_file, path_is_target};

verus! {

/// What a look at a path on disk found.
#[derive(Clone, Copy, Debug, PartialEq, Eq, Structural)]
pub enum PathState {
    Missing,
    RegularFile,
    NotAFile,
}

/// Why a removal did not happen.
#[derive(Clone, Debug, PartialEq, Eq)]
pub enum RemovalError {
    /// The path's final component is not the reserved name.
    SafetyCheckFailed,
    /// Nothing exists at the path.
    NotFound,
    /// The path exists but is not a regular file.
    NotAFile,
    /// Moving the file to the trash failed, for the cause given.
    TrashOperationFailed(String),
}

/// The checks that precede a removal, in order: the name, then existence,
/// then the kind of file.
pub open spec fn removal_check(path: Seq<char>, state: PathState) -> Result<(), RemovalError> {
    if !path_is_target(path) {
        Err(RemovalError::SafetyCheckFailed)
    } else if state == PathState::Missing {
        Err(RemovalError::NotFound)
    } else if state == PathState::NotAFile {
        Err(RemovalError::NotAFile)
    } else {
        Ok(())
    }
}

/// Result of a whole removal: the checks, then, where they pass, the move to
/// the trash, whose failure carries its cause.
pub open spec fn removal_result(
    path: Seq<char>,
    state: PathState,
    trashed: Result<(), String>,
) -> Result<(), RemovalError> {
    match removal_check(path, state) {
        Err(e) => Err(e),
        Ok(()) => match trashed {
            Ok(()) => Ok(()),
            Err(cause) => Err(RemovalError::TrashOperationFailed(cause)),
        },
    }
}

/// Runs the checks that must pass before `path` may be moved to the trash.
/// The name is checked first and on its own, whatever the caller checked
/// before.
pub fn check_removal(path: &str, state: PathState) -> (r: Result<(), RemovalError>)
    ensures
        r == removal_check(path@, state),
        r is Ok ==> path_is_target(path@),
{
    if !is_ds_store_file(path) {
        return Err(RemovalError::SafetyCheckFailed);
    }
    match state {
        PathState::Missing => Err(RemovalError::NotFound),
        PathState::NotAFile => Err(RemovalError::NotAFile),
        PathState::RegularFile => Ok(()),
    }
}

/// The outcome of a move to the trash, with its cause attached on failure.
pub fn trash_outcome(trashed: Result<(), String>) -> (r: Result<(), RemovalError>)
    ensures
        r == match trashed {
            Ok(()) => Ok::<(), RemovalError>(()),
            Err(cause) => Err(RemovalError::TrashOperationFailed(cause)),
        },
{
    match trashed {
        Ok(()) => Ok(()),
        Err(cause) => Err(RemovalError::TrashOperationFailed(cause)),
    }
}

} // verus!
