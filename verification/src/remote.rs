use vstd::prelude::*;

use crate::errors::CoreError;

verus! {

/// An HTTP request succeeded exactly when its status code is in the 2xx range.
pub open spec fn status_is_success(status: int) -> bool {
    200 <= status < 300
}

/// Decides whether a remote fetch may hand its bytes to the caller: any
/// status outside the 2xx range is an error carrying that status, so that a
/// non-success answer is never mistaken for content.
pub fn classify_http_status(status: u16) -> (r: Result<(), CoreError>)
    ensures
        r is Ok <==> status_is_success(status as int),
        !status_is_success(status as int) ==> (r matches Err(e) && (e matches CoreError::HttpError {
            status: reported } && reported == status)),
{
    if 200 <= status && status < 300 {
        Ok(())
    } else {
        Err(CoreError::HttpError { status })
    }
}

} // verus!
