//! Typed errors: scalar decode failures, and the dispatch-level taxonomy
//! that callers can branch on (transport, decode, missing path parameter,
//! service failure status).

use vstd::prelude::*;

verus! {

/// Failure to decode one scalar field of a response.
#[derive(Debug, Clone, PartialEq, Eq)]
pub enum DecodeError {
    /// A timestamp string that is neither the sentinel nor a date-time in
    /// range: fatal, aborts the whole response parse.
    MalformedTimestamp { input: String },
    /// A decimal string that is not numeric: recoverable, reported for the
    /// one field.
    MalformedDecimal { input: String },
}

impl DecodeError {
    /// Whether this failure aborts the whole response parse.
    pub fn is_fatal(&self) -> (r: bool)
        ensures
            r == (self is MalformedTimestamp),
    {
        matches!(self, DecodeError::MalformedTimestamp { .. })
    }

    /// A description of the failure, carrying the offending text.
    pub fn message(&self) -> (r: String)
        ensures
            match self {
                DecodeError::MalformedTimestamp { input } => r@ == "unparseable timestamp: "@
                    + input@,
                DecodeError::MalformedDecimal { input } => r@ == "non-numeric decimal: "@
                    + input@,
            },
    {
        match self {
            DecodeError::MalformedTimestamp { input } => String::from_str(
                "unparseable timestamp: ",
            ).concat(input.as_str()),
            DecodeError::MalformedDecimal { input } => String::from_str(
                "non-numeric decimal: ",
            ).concat(input.as_str()),
        }
    }
}

/// Failure of one dispatched request.
#[derive(Debug, Clone, PartialEq, Eq)]
pub enum ApiError {
    /// The request could not be carried to the service or back.
    Transport { message: String },
    /// The response body could not be decoded.
    Decode { message: String },
    /// The URL template references a path parameter that was never set.
    MissingPathParameter { name: String },
    /// The service answered with a failure status.
    ServiceError { status: u16, body: String },
}

impl ApiError {
    /// A description of the failure.
    pub fn message(&self) -> (r: String)
        ensures
            match self {
                ApiError::Transport { message } => r@ == "transport failure: "@ + message@,
                ApiError::Decode { message } => r@ == "decode failure: "@ + message@,
                ApiError::MissingPathParameter { name } => r@ == "missing path parameter: "@
                    + name@,
                ApiError::ServiceError { status, body } => r@ == "service failure, status "@
                    + crate::text::dec_str(*status as int) + ": "@ + body@,
            },
    {
        match self {
            ApiError::Transport { message } => String::from_str("transport failure: ").concat(
                message.as_str(),
            ),
            ApiError::Decode { message } => String::from_str("decode failure: ").concat(
                message.as_str(),
            ),
            ApiError::MissingPathParameter { name } => String::from_str(
                "missing path parameter: ",
            ).concat(name.as_str()),
            ApiError::ServiceError { status, body } => {
                let mut out = String::from_str("service failure, status ");
                crate::text::append_u32(&mut out, *status as u32);
                out.append(": ");
                out.append(body.as_str());
                proof {
                    reveal_strlit(": ");
                    assert(out@ =~= "service failure, status "@ + crate::text::dec_str(
                        *status as int,
                    ) + ": "@ + body@);
                }
                out
            },
        }
    }
}

} // verus!
