//! Typed client core for the Yuque documentation-platform REST API.
//!
//! The library builds every request a caller can issue (endpoint URL, query
//! parameters, JSON body) as plain data, and interprets every response status.
//! The HTTP exchange itself is left to the embedding application.

use vstd::prelude::*;

pub mod doc;
pub mod error;
pub mod group;
pub mod json;
pub mod repo;
pub mod request;
pub mod serializer;
pub mod text;
pub mod user;
pub mod utils;
pub mod yuque;

verus! {

/// A status code lies in the HTTP success range.
pub open spec fn is_success_status(status: u16) -> bool {
    200 <= status < 300
}

/// Whether `status` counts as success for the remote service.
pub fn status_is_success(status: u16) -> (r: bool)
    ensures
        r == is_success_status(status),
{
    200 <= status && status < 300
}

} // verus!
