use vstd::prelude::*;

verus! {

/// The largest form body the registration route accepts, in bytes.
pub const BODY_LIMIT: u64 = 128;

/// The request methods the router distinguishes. Anything beyond the two
/// it reads is `Other`.
#[derive(Clone, Copy, Debug, PartialEq, Eq, Structural)]
pub enum HttpMethod {
    Get,
    Post,
    Other,
}

/// Where the router sends a request.
#[derive(Clone, Copy, Debug, PartialEq, Eq, Structural)]
pub enum RouteDecision {
    /// The registration endpoint handles the request.
    Register,
    /// The registration route matched but the declared body length is over
    /// the bound; the framework's default rejection handling answers.
    RejectTooLarge,
    /// The static file server answers, with its own not-found behaviour
    /// for a path that names no file.
    ServeStatic,
}

/// The route for a request: the registration endpoint claims a `POST` to
/// `/register` whose body is within the bound; every other request falls
/// through to the static file server.
pub open spec fn spec_route(
    method: HttpMethod,
    path: Seq<char>,
    content_length: u64,
) -> RouteDecision {
    if method == HttpMethod::Post && path == "/register"@ {
        if content_length <= BODY_LIMIT {
            RouteDecision::Register
        } else {
            RouteDecision::RejectTooLarge
        }
    } else {
        RouteDecision::ServeStatic
    }
}

/// Dispatch one request by its method, path and declared body length.
pub fn route(method: HttpMethod, path: &str, content_length: u64) -> (r: RouteDecision)
    ensures
        r == spec_route(method, path@, content_length),
{
    let requested: String = path.to_owned();
    let register_path: String = "/register".to_owned();
    if method == HttpMethod::Post && requested == register_path {
        if content_length <= BODY_LIMIT {
            RouteDecision::Register
        } else {
            RouteDecision::RejectTooLarge
        }
    } else {
        RouteDecision::ServeStatic
    }
}

} // verus!
