use vstd::prelude::*;

verus! {

/// The single error taxonomy returned to every caller of the client core.
///
/// Every call through the core ends in exactly one of: a typed success value,
/// or one of these variants. Nothing is retried or recovered locally.
///
/// The provider's error bodies drifted between a list-of-errors shape and a
/// flat `status`/`message` record; this crate commits to the flat record as
/// the canonical shape (see [`crate::client::APIError`]): an error body that
/// does not parse as JSON at all is reported as `SerdeError`, and a parsed
/// body contributes its optional `status` and `message` fields, each replaced
/// by the empty string when absent.
#[derive(Debug, Clone, PartialEq, Eq)]
pub enum PorkbunnError {
    /// A network-level failure (DNS, TLS, connection, timeout), surfaced by
    /// the transport without interpretation; carries its description.
    ReqwestError(String),
    /// The base URL, or the endpoint joined from it, failed to parse as an
    /// absolute URL.
    URLParseError,
    /// An HTTP verb outside the supported set GET/PUT/POST/DELETE was
    /// requested; detected before any network activity.
    UnsupportedMethod,
    /// A response body did not decode as the expected JSON shape.
    SerdeError,
    /// The provider explicitly rejected the request; carries the `status` and
    /// `message` strings of the decoded error body.
    APIResponseError { status: String, message: String },
}

/// What `describe` returns for each variant, as a sequence of characters.
pub open spec fn spec_describe(e: PorkbunnError) -> Seq<char> {
    match e {
        PorkbunnError::ReqwestError(m) => "HTTP request error: "@ + m@,
        PorkbunnError::URLParseError => "failed during URL parsing"@,
        PorkbunnError::UnsupportedMethod => "unsupported method"@,
        PorkbunnError::SerdeError => "failed to decode the response body"@,
        PorkbunnError::APIResponseError { status, message } => "API error with status `"@
            + status@ + "` and message `"@ + message@ + "`"@,
    }
}

impl PorkbunnError {
    /// A human-readable description of the error, for a caller to print.
    pub fn describe(&self) -> (r: String)
        ensures
            r@ == spec_describe(*self),
    {
        match self {
            PorkbunnError::ReqwestError(m) => {
                let mut s = "HTTP request error: ".to_owned();
                s.append(m.as_str());
                s
            },
            PorkbunnError::URLParseError => "failed during URL parsing".to_owned(),
            PorkbunnError::UnsupportedMethod => "unsupported method".to_owned(),
            PorkbunnError::SerdeError => "failed to decode the response body".to_owned(),
            PorkbunnError::APIResponseError { status, message } => {
                let mut s = "API error with status `".to_owned();
                s.append(status.as_str());
                s.append("` and message `");
                s.append(message.as_str());
                s.append("`");
                s
            },
        }
    }
}

} // verus!
