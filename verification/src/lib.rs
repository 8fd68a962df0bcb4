//! Client core for the Porkbun JSON/REST API: URL composition, request
//! building, and response interpretation, with the credential-injection and
//! error-taxonomy rules stated as contracts.
//!
//! The transport (one HTTP call per request) is the caller's concern: the
//! library turns an operation into an [`client::OutboundRequest`], and turns
//! the raw status and body that came back into a typed value or a
//! [`errors::PorkbunnError`].

pub mod errors;
pub mod jsondoc;
pub mod jsontext;
pub mod urlcomp;
pub mod client;
pub mod porkbunn_client;
