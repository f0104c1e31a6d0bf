//! A verified client core for a time-tracking service's remote API.
//!
//! The library models the whole exchange as plain data: it builds the
//! requests (URL, `Authorization` header, JSON-encoded sign-in body),
//! decodes the JSON responses into records, and drives the run as a
//! state machine from credentials to the fetched profile and spaces.
//! All network and file I/O stays outside, in the surrounding program,
//! which hands bodies in as [`json::JsonValue`] trees and sends the
//! [`request::HttpRequest`] values the library produces.

use vstd::prelude::*;

pub mod credentials;
pub mod decode;
pub mod error;
pub mod json;
pub mod records;
pub mod request;
pub mod session;

verus! {

/// The service's base URL; every request path is appended to it.
pub open spec fn spec_base_url() -> Seq<char> {
    "https://api.timeular.com/api/v3"@
}

} // verus!
