//! Verified client core for a brokerage REST API: scalar codecs for the
//! wire format (RFC 3339 timestamps with a `"0"` sentinel, decimals carried
//! as strings), typed request builders, and dispatch-time URL construction.
//!
//! All network I/O lives outside this crate; the functions here compute the
//! exact request to send and decode the scalar fields of what comes back.

pub mod calendar;
pub mod text;
pub mod timestamp;
pub mod rfc3339;
pub mod errors;
pub mod decimal;
pub mod codec;
pub mod url;
pub mod json;
pub mod client;
pub mod http;
pub mod account;
pub mod instrument;
pub mod pricing;

pub use client::Client;
pub use decimal::DecimalString;
pub use errors::{ApiError, DecodeError};
pub use http::{HttpMethod, PreparedRequest, QueryValue};
pub use timestamp::Timestamp;