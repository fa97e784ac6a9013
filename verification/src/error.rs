//! Error types for Ferricord operations.
use vstd::prelude::*;
use vstd::std_specs::convert::FromSpecImpl;
use crate::text::{dec_str, push_decimal};
use serde_json::Error as JsonError;
use std::io::Error as IoError;
use url::ParseError as UrlParseError;

verus! {

/// A JSON (de)serialization error, carried through unchanged.
#[verifier::external_type_specification]
#[verifier::external_body]
pub struct ExJsonError(JsonError);

/// An I/O error, carried through unchanged.
#[verifier::external_type_specification]
#[verifier::external_body]
pub struct ExIoError(IoError);

/// A URL parse error, carried through unchanged.
#[verifier::external_type_specification]
#[verifier::external_body]
pub struct ExUrlParseError(UrlParseError);

/// The main error type for Ferricord operations.
#[derive(Debug)]
pub enum Error {
    /// HTTP request failed
    Http(String),
    /// WebSocket connection error
    WebSocket(String),
    /// JSON serialization/deserialization error
    Json(JsonError),
    /// Gateway connection error
    Gateway(String),
    /// Authentication error (invalid token, etc.)
    Auth(String),
    /// Rate limit exceeded
    RateLimited {
        /// Time to wait before retrying in milliseconds
        retry_after_ms: u64,
        /// Whether this is a global rate limit
        global: bool,
    },
    /// Discord API error response
    Discord {
        /// Discord error code
        code: i32,
        /// Error message
        message: String,
    },
    /// Invalid data received from Discord
    InvalidData(String),
    /// Cache miss - requested data not found in cache
    CacheMiss(String),
    /// Internal error
    Internal(String),
    /// IO error
    Io(IoError),
    /// URL parse error
    UrlParse(UrlParseError),
}

/// `JsonError`'s `Display` text, through `to_string`. Nothing is stated of it.
#[verifier::external_body]
fn json_error_text(e: &JsonError) -> String {
    e.to_string()
}

/// `IoError`'s `Display` text, through `to_string`. Nothing is stated of it.
#[verifier::external_body]
pub(crate) fn io_error_text(e: &IoError) -> String {
    e.to_string()
}

/// `UrlParseError`'s `Display` text, through `to_string`. Nothing is stated of it.
#[verifier::external_body]
fn url_error_text(e: &UrlParseError) -> String {
    e.to_string()
}

/// The text of an error that carries a message: `prefix` and the message.
pub open spec fn prefixed(prefix: Seq<char>, msg: Seq<char>) -> Seq<char> {
    prefix + msg
}

/// Builds `prefix` followed by `msg`.
fn with_prefix(prefix: &str, msg: &String) -> (r: String)
    ensures
        r@ == prefixed(prefix@, msg@),
{
    let mut s = String::from_str(prefix);
    s.append(msg.as_str());
    s
}

/// The decimal text of a signed 32-bit number.
pub open spec fn signed_dec_str(v: i32) -> Seq<char> {
    if v < 0 {
        "-"@ + dec_str((-v) as nat)
    } else {
        dec_str(v as nat)
    }
}

impl Error {
    /// Create a new HTTP error
    pub fn http(msg: &str) -> (r: Self)
        ensures
            r matches Error::Http(m) && m@ == msg@,
    {
        Error::Http(String::from_str(msg))
    }

    /// Create a new WebSocket error
    pub fn websocket(msg: &str) -> (r: Self)
        ensures
            r matches Error::WebSocket(m) && m@ == msg@,
    {
        Error::WebSocket(String::from_str(msg))
    }

    /// Create a new Gateway error
    pub fn gateway(msg: &str) -> (r: Self)
        ensures
            r matches Error::Gateway(m) && m@ == msg@,
    {
        Error::Gateway(String::from_str(msg))
    }

    /// Create a new authentication error
    pub fn auth(msg: &str) -> (r: Self)
        ensures
            r matches Error::Auth(m) && m@ == msg@,
    {
        Error::Auth(String::from_str(msg))
    }

    /// Create a new Discord API error
    pub fn discord(code: i32, message: &str) -> (r: Self)
        ensures
            r matches Error::Discord { code: c, message: m } && c == code && m@ == message@,
    {
        Error::Discord { code, message: String::from_str(message) }
    }

    /// Create a new invalid data error
    pub fn invalid_data(msg: &str) -> (r: Self)
        ensures
            r matches Error::InvalidData(m) && m@ == msg@,
    {
        Error::InvalidData(String::from_str(msg))
    }

    /// Create a new cache miss error
    pub fn cache_miss(msg: &str) -> (r: Self)
        ensures
            r matches Error::CacheMiss(m) && m@ == msg@,
    {
        Error::CacheMiss(String::from_str(msg))
    }

    /// Create a new internal error
    pub fn internal(msg: &str) -> (r: Self)
        ensures
            r matches Error::Internal(m) && m@ == msg@,
    {
        Error::Internal(String::from_str(msg))
    }

    /// Whether this is a rate limit error.
    pub open spec fn rate_limited(&self) -> bool {
        self is RateLimited
    }

    /// Whether the failed operation may succeed if tried again: rate limits and
    /// transport (WebSocket, gateway, HTTP) failures.
    pub open spec fn retryable(&self) -> bool {
        self is RateLimited || self is WebSocket || self is Gateway || self is Http
    }

    /// Check if this error is a rate limit error
    pub fn is_rate_limited(&self) -> (r: bool)
        ensures
            r == self.rate_limited(),
    {
        match self {
            Error::RateLimited { .. } => true,
            _ => false,
        }
    }

    /// Check if this error is retryable
    pub fn is_retryable(&self) -> (r: bool)
        ensures
            r == self.retryable(),
    {
        match self {
            Error::RateLimited { .. } | Error::WebSocket(_) | Error::Gateway(_) | Error::Http(_) => true,
            _ => false,
        }
    }

    /// The text of this error, as its `Display` writes it. For the variants that
    /// wrap a JSON, I/O or URL error the wrapped error's own text follows the prefix.
    pub fn message(&self) -> (r: String)
        ensures
            match self {
                Error::Http(m) => r@ == prefixed("HTTP error: "@, m@),
                Error::WebSocket(m) => r@ == prefixed("WebSocket error: "@, m@),
                Error::Gateway(m) => r@ == prefixed("Gateway error: "@, m@),
                Error::Auth(m) => r@ == prefixed("Authentication error: "@, m@),
                Error::RateLimited { retry_after_ms, .. } => r@ == "Rate limited: retry after "@
                    + dec_str(*retry_after_ms as nat) + "ms"@,
                Error::Discord { code, message } => r@ == "Discord API error "@ + signed_dec_str(
                    *code,
                ) + ": "@ + message@,
                Error::InvalidData(m) => r@ == prefixed("Invalid data: "@, m@),
                Error::CacheMiss(m) => r@ == prefixed("Cache miss: "@, m@),
                Error::Internal(m) => r@ == prefixed("Internal error: "@, m@),
                Error::Json(_) => has_text_prefix(r@, "JSON error: "@),
                Error::Io(_) => has_text_prefix(r@, "IO error: "@),
                Error::UrlParse(_) => has_text_prefix(r@, "URL parse error: "@),
            },
    {
        match self {
            Error::Http(m) => with_prefix("HTTP error: ", m),
            Error::WebSocket(m) => with_prefix("WebSocket error: ", m),
            Error::Gateway(m) => with_prefix("Gateway error: ", m),
            Error::Auth(m) => with_prefix("Authentication error: ", m),
            Error::RateLimited { retry_after_ms, .. } => {
                let mut s = String::from_str("Rate limited: retry after ");
                push_decimal(&mut s, *retry_after_ms);
                s.append("ms");
                s
            },
            Error::Discord { code, message } => {
                let mut s = String::from_str("Discord API error ");
                let c: i32 = *code;
                if c < 0 {
                    s.append("-");
                    let magnitude: u64 = (0i64 - (c as i64)) as u64;
                    push_decimal(&mut s, magnitude);
                } else {
                    push_decimal(&mut s, c as u64);
                }
                s.append(": ");
                s.append(message.as_str());
                s
            },
            Error::InvalidData(m) => with_prefix("Invalid data: ", m),
            Error::CacheMiss(m) => with_prefix("Cache miss: ", m),
            Error::Internal(m) => with_prefix("Internal error: ", m),
            Error::Json(e) => {
                let t = json_error_text(e);
                let r = with_prefix("JSON error: ", &t);
                assert(r@.subrange(0, "JSON error: "@.len() as int) =~= "JSON error: "@);
                r
            },
            Error::Io(e) => {
                let t = io_error_text(e);
                let r = with_prefix("IO error: ", &t);
                assert(r@.subrange(0, "IO error: "@.len() as int) =~= "IO error: "@);
                r
            },
            Error::UrlParse(e) => {
                let t = url_error_text(e);
                let r = with_prefix("URL parse error: ", &t);
                assert(r@.subrange(0, "URL parse error: "@.len() as int) =~= "URL parse error: "@);
                r
            },
        }
    }
}

/// Whether `s` begins with `prefix`.
pub open spec fn has_text_prefix(s: Seq<char>, prefix: Seq<char>) -> bool {
    prefix.len() <= s.len() && s.subrange(0, prefix.len() as int) == prefix
}

impl From<JsonError> for Error {
    fn from(e: JsonError) -> (r: Self)
        ensures
            r == Error::Json(e),
    {
        Error::Json(e)
    }
}

impl FromSpecImpl<JsonError> for Error {
    open spec fn obeys_from_spec() -> bool {
        true
    }

    open spec fn from_spec(e: JsonError) -> Error {
        Error::Json(e)
    }
}

impl From<IoError> for Error {
    fn from(e: IoError) -> (r: Self)
        ensures
            r == Error::Io(e),
    {
        Error::Io(e)
    }
}

impl FromSpecImpl<IoError> for Error {
    open spec fn obeys_from_spec() -> bool {
        true
    }

    open spec fn from_spec(e: IoError) -> Error {
        Error::Io(e)
    }
}

impl From<UrlParseError> for Error {
    fn from(e: UrlParseError) -> (r: Self)
        ensures
            r == Error::UrlParse(e),
    {
        Error::UrlParse(e)
    }
}

impl FromSpecImpl<UrlParseError> for Error {
    open spec fn obeys_from_spec() -> bool {
        true
    }

    open spec fn from_spec(e: UrlParseError) -> Error {
        Error::UrlParse(e)
    }
}

} // verus!
