//! A stateless OAuth authorization relay for a browser-based CMS client.
//!
//! The library covers the logic of the two-step authorization-code flow:
//! building the provider-bound authorize redirect, validating the callback,
//! framing the token-exchange request, parsing the provider's token response,
//! and rendering the origin-checked result page. The surrounding HTTP server
//! and the outbound transport live outside the library and hand it plain
//! values.

pub mod strutil;
pub mod encoding;
pub mod provider;
pub mod authorize;
pub mod token;
pub mod page;
pub mod callback;
pub mod laws;
