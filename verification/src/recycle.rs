use vstd::prelude::*;

use crate::errors::CoreError;

verus! {

#[verifier::external_type_specification]
#[verifier::external_body]
pub struct ExTrashError(trash::Error);

/// Relies on trash::delete: asks the platform trash facility to take the
/// path. Whether it does depends on the filesystem and the service, so
/// nothing is promised of the outcome; the platform reports a trash error
/// for a nonexistent target or an unavailable service.
#[verifier::external_body]
fn trash_delete(path: &str) -> (r: Result<(), trash::Error>) {
    trash::delete(path)
}

/// Relies on trash::Error's Display implementation for the description text.
#[verifier::external_body]
fn trash_error_text(e: &trash::Error) -> String {
    e.to_string()
}

/// Moves a path to the platform trash or recycle bin rather than erasing it
/// permanently. A nonexistent path, or an unavailable trash service, yields
/// a trash error as a value, never a crash.
pub fn move_to_recycle_bin(path: &str) -> (r: Result<(), CoreError>)
    ensures
        r matches Err(e) ==> e is TrashError,
{
    match trash_delete(path) {
        Ok(()) => Ok(()),
        Err(e) => Err(CoreError::TrashError { message: trash_error_text(&e) }),
    }
}

} // verus!
