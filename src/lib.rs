//! Client library for a cloud API that controls smart lights: capability
//! checks, control-command construction, the JSON command envelope and the
//! decoding of the API's responses.
use vstd::prelude::*;

pub mod client;
pub mod endpoints;
pub mod error;
pub mod json;
pub mod models;
pub mod schema;
pub mod text;

pub use client::GoveeClient;
pub use models::Color;

verus! {

/// Default base URL of the vendor API.
pub const DEFAULT_API_URL: &'static str = "https://developer-api.govee.com";

} // verus!
