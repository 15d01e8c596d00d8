//! Client-side support for a search engine's text-analysis operation.
//!
//! The library builds the request that the operation sends — the target
//! path and the JSON body — and turns the JSON payload that comes back
//! into a typed list of tokens. The HTTP exchange itself is left to the
//! caller, who hands the response payload back in for parsing.

pub mod analyze;
pub mod error;
pub mod json;
