use vstd::prelude::*;
use crate::register::ApiError;
use crate::response::{Response, STATUS_BAD_REQUEST};

verus! {

/// A rejected request: either the one domain error, or a condition that
/// belongs to the hosting framework and is not translated here.
#[derive(Clone, Copy, Debug, PartialEq, Eq, Structural)]
pub enum Rejection {
    /// The request reached the registration handler and failed there.
    Api(ApiError),
    /// No route claimed the request.
    NotFound,
    /// The request body exceeded the size bound of its route.
    PayloadTooLarge,
}

/// Translate a rejection at the boundary: the missing-username condition
/// becomes a fixed client-error response; every other rejection is handed
/// back unchanged for the framework's default handling. Pure: no state is
/// touched.
pub fn handle_rejection(err: Rejection) -> (r: Result<Response, Rejection>)
    ensures
        err == Rejection::Api(ApiError::UsernameMissing) ==> (r matches Ok(resp) && resp.status
            == STATUS_BAD_REQUEST && resp.body@ == "ERROR: No username was given"@),
        err != Rejection::Api(ApiError::UsernameMissing) ==> r == Err::<Response, Rejection>(err),
{
    match err {
        Rejection::Api(ApiError::UsernameMissing) => Ok(
            Response::with_status("ERROR: No username was given", STATUS_BAD_REQUEST),
        ),
        _ => Err(err),
    }
}

} // verus!
