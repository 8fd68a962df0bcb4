//! The HTTP client core: request targets and the response interpreter.
//!
//! [`HTTPClient`] holds the base URL and the normalized API version and
//! composes endpoint URLs; [`interpret`] turns a raw HTTP status and body
//! into either the caller's typed value or a [`PorkbunnError`]. Success is
//! an HTTP status in `[200, 300)`; on success the body must decode as the
//! expected shape, on failure it must decode as the provider's flat
//! `status`/`message` error record ([`APIError`]), and a body that does
//! neither is a decode failure — never a silently dropped one. The
//! interpreter's contract pins the outcome for every status and body,
//! through the named parse [`crate::jsondoc::json_doc`] and the spec-level
//! decoders.

use vstd::prelude::*;
use crate::errors::PorkbunnError;
use crate::jsondoc::{
    get_opt_string, json_doc, opt_str_view, parse_json, spec_opt_string_field, JsonValue,
};
use crate::urlcomp::{compose, compose_spec};

verus! {

/// The decoded failure payload of the provider: a flat record with an
/// optional `status` and an optional `message` string. This is the one
/// canonical error-body shape this crate commits to; bodies of any other
/// shape are rejected as decode failures.
#[derive(Debug, Clone, PartialEq, Default)]
pub struct APIError {
    pub status: Option<String>,
    pub message: Option<String>,
}

/// The mathematical content of an [`APIError`].
#[verifier::ext_equal]
pub ghost struct ApiErrorView {
    pub status: Option<Seq<char>>,
    pub message: Option<Seq<char>>,
}

impl View for APIError {
    type V = ApiErrorView;

    open spec fn view(&self) -> ApiErrorView {
        ApiErrorView { status: opt_str_view(self.status), message: opt_str_view(self.message) }
    }
}

/// What decoding the provider's error body yields: both fields are
/// optional (absent and `null` read the same), but a present field of the
/// wrong type makes the whole body undecodable.
pub open spec fn spec_decode_api_error(v: JsonValue) -> Option<ApiErrorView> {
    match (spec_opt_string_field(v, "status"@), spec_opt_string_field(v, "message"@)) {
        (Some(st), Some(msg)) => Some(ApiErrorView { status: st, message: msg }),
        _ => None,
    }
}

/// Decodes the provider's error body.
pub fn decode_api_error(v: &JsonValue) -> (r: Option<APIError>)
    ensures
        (match r {
            Some(e) => spec_decode_api_error(*v) == Some(e@),
            None => spec_decode_api_error(*v) is None,
        }),
{
    let status = match get_opt_string(v, "status") {
        Some(s) => s,
        None => {
            return None;
        },
    };
    let message = match get_opt_string(v, "message") {
        Some(m) => m,
        None => {
            return None;
        },
    };
    Some(APIError { status, message })
}

/// An HTTP verb. The request builder supports GET, PUT, POST and DELETE
/// and rejects every other verb before any network activity.
#[derive(Debug, Clone, Copy, PartialEq, Eq, Structural)]
pub enum HttpMethod {
    Get,
    Put,
    Post,
    Delete,
    Head,
    Options,
    Connect,
    Patch,
    Trace,
}

/// The verbs the request builder accepts.
pub open spec fn method_supported(m: HttpMethod) -> bool {
    m == HttpMethod::Get || m == HttpMethod::Put || m == HttpMethod::Post || m
        == HttpMethod::Delete
}

/// One fully built outbound request: a supported verb, the composed
/// absolute endpoint URL, and the JSON body to send. The transport is
/// expected to send exactly this, once, with the content type of
/// [`OutboundRequest::content_type`].
#[derive(Debug, Clone, PartialEq)]
pub struct OutboundRequest {
    pub method: HttpMethod,
    pub url: String,
    pub body: String,
}

impl OutboundRequest {
    /// The content type every request carries.
    pub fn content_type(&self) -> (r: &'static str)
        ensures
            r@ == "application/json"@,
    {
        "application/json"
    }
}

/// What the transport hands back from one HTTP call: the status code and
/// the full response body.
#[derive(Debug, Clone)]
pub struct RawResponse {
    pub status: u16,
    pub body: String,
}

/// HTTP success as the interpreter defines it: status in `[200, 300)`.
pub open spec fn success_status(s: u16) -> bool {
    200 <= s < 300
}

/// Whether `s` is a success status.
pub fn is_success(s: u16) -> (b: bool)
    ensures
        b == success_status(s),
{
    200 <= s && s < 300
}

/// Wraps an HTTP client configuration: the base URL as given, and the API
/// version segment already normalized (no `/` inside, one `/` at the end).
#[derive(Debug, Clone)]
pub struct HTTPClient {
    pub base_url: String,
    pub version: String,
}

impl HTTPClient {
    /// Stores the base URL and the normalized version segment. The base is
    /// parsed only when an endpoint is composed, so a malformed base
    /// surfaces there as `URLParseError` rather than as a panic here.
    pub fn new(base_url: &str, version: &str) -> (c: HTTPClient)
        ensures
            c.base_url@ == base_url@,
            c.version@ == crate::urlcomp::norm_version(version@),
    {
        HTTPClient {
            base_url: base_url.to_owned(),
            version: crate::urlcomp::normalize_version(version),
        }
    }

    /// Composes the endpoint for `query_url` and checks the verb: the URL
    /// steps fail with `URLParseError`, and a verb outside
    /// GET/PUT/POST/DELETE fails with `UnsupportedMethod`, in that order.
    pub fn inner(&self, method: HttpMethod, query_url: &str) -> (r: Result<String, PorkbunnError>)
        ensures
            (compose_spec(self.base_url@, self.version@, query_url@) is None ==> r == Err::<
                String,
                PorkbunnError,
            >(PorkbunnError::URLParseError)),
            (match compose_spec(self.base_url@, self.version@, query_url@) {
                Some(u) => if method_supported(method) {
                    r matches Ok(e) && e@ == u
                } else {
                    r == Err::<String, PorkbunnError>(PorkbunnError::UnsupportedMethod)
                },
                None => r == Err::<String, PorkbunnError>(PorkbunnError::URLParseError),
            }),
    {
        let url = compose(self.base_url.as_str(), self.version.as_str(), query_url)?;
        match method {
            HttpMethod::Get => Ok(url),
            HttpMethod::Put => Ok(url),
            HttpMethod::Post => Ok(url),
            HttpMethod::Delete => Ok(url),
            _ => Err(PorkbunnError::UnsupportedMethod),
        }
    }
}

/// A response payload that can be decoded from the provider's JSON. The
/// spec half says what the decode yields on every document; the exec half
/// is proved against it.
pub trait ApiResponse: Sized + View {
    /// What decoding `v` yields: the payload's mathematical content, or
    /// `None` when `v` does not have the expected shape.
    spec fn spec_decode(v: JsonValue) -> Option<Self::V>;

    /// Decodes the payload from a parsed document.
    fn from_json(v: &JsonValue) -> (r: Option<Self>)
        ensures
            (match r {
                Some(t) => Self::spec_decode(*v) == Some(t@),
                None => Self::spec_decode(*v) is None,
            }),
    ;
}

/// The success half of the interpreter: a decoded payload is the result,
/// a payload that failed to decode is a decode failure.
pub fn interpret_success<T>(decoded: Option<T>) -> (r: Result<T, PorkbunnError>)
    ensures
        (match decoded {
            Some(t) => r == Ok::<T, PorkbunnError>(t),
            None => r == Err::<T, PorkbunnError>(PorkbunnError::SerdeError),
        }),
{
    match decoded {
        Some(t) => Ok(t),
        None => Err(PorkbunnError::SerdeError),
    }
}

/// The empty sequence for an absent field.
pub open spec fn or_empty(o: Option<Seq<char>>) -> Seq<char> {
    match o {
        Some(s) => s,
        None => Seq::empty(),
    }
}

/// The failure half of the interpreter: a decoded error body becomes an
/// `APIResponseError` carrying its `status` and `message` (each replaced
/// by the empty string when absent); an undecodable error body is a decode
/// failure.
pub fn interpret_failure(decoded: Option<APIError>) -> (r: PorkbunnError)
    ensures
        (match decoded {
            Some(e) => r matches PorkbunnError::APIResponseError { status, message } && status@
                == or_empty(e@.status) && message@ == or_empty(e@.message),
            None => r == PorkbunnError::SerdeError,
        }),
{
    match decoded {
        Some(e) => {
            let status = match e.status {
                Some(s) => s,
                None => String::new(),
            };
            let message = match e.message {
                Some(m) => m,
                None => String::new(),
            };
            PorkbunnError::APIResponseError { status, message }
        },
        None => PorkbunnError::SerdeError,
    }
}

/// Interprets one raw HTTP response as the typed payload `T`.
///
/// The outcome is pinned for every status and body: a body that is not
/// JSON is a `SerdeError`; on a success status the result is exactly the
/// decoded payload, or `SerdeError` when the body does not decode as `T`;
/// on a failure status the result is always an error — the provider's
/// `APIResponseError` carrying the decoded `status` and `message` when
/// the error body decodes, `SerdeError` otherwise.
pub fn interpret<T: ApiResponse>(resp: &RawResponse) -> (r: Result<T, PorkbunnError>)
    ensures
        (match json_doc(resp.body@) {
            None => r == Err::<T, PorkbunnError>(PorkbunnError::SerdeError),
            Some(doc) => if success_status(resp.status) {
                match T::spec_decode(doc) {
                    Some(tv) => r matches Ok(t) && t@ == tv,
                    None => r == Err::<T, PorkbunnError>(PorkbunnError::SerdeError),
                }
            } else {
                match spec_decode_api_error(doc) {
                    Some(ev) => r matches Err(PorkbunnError::APIResponseError { status, message })
                        && status@ == or_empty(ev.status) && message@ == or_empty(ev.message),
                    None => r == Err::<T, PorkbunnError>(PorkbunnError::SerdeError),
                }
            },
        }),
        (!success_status(resp.status) ==> r is Err),
{
    let parsed = parse_json(resp.body.as_str());
    if is_success(resp.status) {
        match parsed {
            Some(doc) => interpret_success(T::from_json(&doc)),
            None => Err(PorkbunnError::SerdeError),
        }
    } else {
        match parsed {
            Some(doc) => Err(interpret_failure(decode_api_error(&doc))),
            None => Err(PorkbunnError::SerdeError),
        }
    }
}

} // verus!
