//! A verified core for a single-endpoint balance service: requests carry an
//! account address (GET query string or POST JSON body), the service answers
//! with the account's lamport balance as JSON, or with a structured error.
//!
//! The library decides everything about a request except the remote lookup
//! itself: callers extract the address here, perform the lookup however they
//! like, and hand the outcome back to build the final response.

pub mod body;
pub mod handler;
pub mod query;
pub mod response;

pub use body::RequestBody;
pub use handler::{Step, balance_response, extract_address};
pub use response::{HttpResponse, SpecResponse};
