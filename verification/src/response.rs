use vstd::prelude::*;

verus! {

/// Status code of a reply that reports success.
pub const STATUS_OK: u16 = 200;

/// Status code of a reply that reports a client error.
pub const STATUS_BAD_REQUEST: u16 = 400;

/// A textual HTTP response: a status code and a body.
///
/// The server around the library turns one of these into a real HTTP
/// response; the library only decides what it holds.
pub struct Response {
    pub status: u16,
    pub body: String,
}

impl Response {
    /// Build a response carrying the given body text and status code.
    pub fn with_status(body: &str, status: u16) -> (r: Response)
        ensures
            r.status == status,
            r.body@ == body@,
    {
        Response { status, body: body.to_owned() }
    }

    /// The status code of this response.
    pub fn status(&self) -> (r: u16)
        ensures
            r == self.status,
    {
        self.status
    }

    /// The body text of this response.
    pub fn body(&self) -> (r: &str)
        ensures
            r@ == self.body@,
    {
        self.body.as_str()
    }
}

}
