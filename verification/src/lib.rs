//! Verified core of a small user-registration web service.
//!
//! The service keeps an in-memory registry of usernames. A registration
//! request carries a form body; if the body names a `username` that is
//! not yet registered, the name is added to the registry and the caller
//! gets a success reply. A duplicate name yields a client-error reply as
//! a successful outcome, while a body without the field is rejected and
//! translated into a fixed client-error response at the rejection
//! boundary. Every other request falls through to a static file server.
//!
//! This crate holds the decision logic of that service, verified: form
//! field lookup, the registry with its no-duplicates invariant, the
//! registration handler, the rejection translator and the route dispatch.
//! The HTTP server around the library hands plain values in and takes
//! plain values back; the registry lives behind its lock, and each
//! request borrows it exclusively for the whole check-then-insert step.

mod form;
mod register;
mod registry;
mod rejection;
mod response;
mod routing;

pub use form::FormData;
pub use register::{ApiError, RegisterReply, handle_registration, register_new_user};
pub use register::{register_decision, registry_after, registry_after_all, username_key};
pub use register::{lemma_distinct_registrations, lemma_same_name_pair};
pub use register::{spec_registration_body, spec_registration_status, spec_registry_after_request};
pub use registry::Registry;
pub use rejection::{Rejection, handle_rejection};
pub use response::{Response, STATUS_BAD_REQUEST, STATUS_OK};
pub use routing::{BODY_LIMIT, HttpMethod, RouteDecision, route, spec_route};
