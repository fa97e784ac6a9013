//! REST client logic: what a request asks for and what a response means.
//!
//! The caller sends the requests; the functions here build the routes of the
//! client's operations, read the rate-limit headers and decide, from a
//! response's status and error body, whether to parse it, retry or fail.
use vstd::prelude::*;
use vstd::string::StringSliceAdditionalSpecFns;
use crate::error::Error;
use crate::id::{ChannelId, GuildId, MessageId};
use crate::routes::{channels, guilds, Route};
use crate::text::{dec_str, hex_char, parse_u32, parse_u32_spec, push_decimal, str_eq};

verus! {

/// Most retries after 429 responses before a request fails.
pub const MAX_RETRIES: u32 = 5;

/// Whether a byte is an ASCII letter or digit.
pub open spec fn is_ascii_alphanumeric(b: u8) -> bool {
    (0x30 <= b <= 0x39) || (0x41 <= b <= 0x5a) || (0x61 <= b <= 0x7a)
}

/// The percent-encoding of one byte with the non-alphanumeric set: letters and
/// digits stay, every other byte becomes `%` and two uppercase hex digits.
pub open spec fn percent_byte(b: u8) -> Seq<char> {
    if is_ascii_alphanumeric(b) {
        seq![b as char]
    } else {
        seq!['%', hex_char((b / 16) as nat), hex_char((b % 16) as nat)]
    }
}

/// The percent-encoding of a byte string, byte by byte.
pub open spec fn percent_encoded(bytes: Seq<u8>) -> Seq<char>
    decreases bytes.len(),
{
    if bytes.len() == 0 {
        Seq::empty()
    } else {
        percent_byte(bytes[0]) + percent_encoded(bytes.drop_first())
    }
}

/// `percent_encoding::utf8_percent_encode(s, NON_ALPHANUMERIC).to_string()`. The
/// crate's source encodes every byte of the UTF-8 text that is not an ASCII
/// letter or digit (non-ASCII bytes and everything in `NON_ALPHANUMERIC`) as `%`
/// and two uppercase hex digits, and keeps the rest: `percent_encoded` states that.
#[verifier::external_body]
fn percent_encode_text(s: &str) -> (r: String)
    ensures
        r@ == percent_encoded(s.spec_bytes()),
{
    percent_encoding::utf8_percent_encode(s, percent_encoding::NON_ALPHANUMERIC).to_string()
}

/// The route that adds (`own_removal` false) or removes (`own_removal` true) the
/// client's own reaction `emoji`, percent-encoded, on a message.
pub fn reaction_route(channel_id: ChannelId, message_id: MessageId, emoji: &str, own_removal: bool)
    -> (r: Route)
    ensures
        r.method == (if own_removal {
            crate::routes::Method::Delete
        } else {
            crate::routes::Method::Put
        }),
        r.path@ == "/channels/"@ + dec_str(channel_id.0 as nat) + "/messages/"@ + dec_str(
            message_id.0 as nat,
        ) + "/reactions/"@ + percent_encoded(emoji.spec_bytes()) + "/@me"@,
        r.bucket@ == "channels:"@ + dec_str(channel_id.0 as nat) + ":messages:reactions"@,
{
    let encoded = percent_encode_text(emoji);
    if own_removal {
        channels::delete_own_reaction(channel_id, message_id, encoded.as_str())
    } else {
        channels::create_reaction(channel_id, message_id, encoded.as_str())
    }
}

/// Append `?limit=` and `min(limit, cap)` to a route's path when a limit is given.
fn with_limit(route: Route, limit: Option<u32>, cap: u32) -> (r: Route)
    ensures
        r.method == route.method,
        r.bucket == route.bucket,
        r.path@ == match limit {
            Some(l) => route.path@ + "?limit="@ + dec_str((if l < cap {
                l
            } else {
                cap
            }) as nat),
            None => route.path@,
        },
{
    match limit {
        Some(l) => {
            let mut route = route;
            let capped: u32 = if l < cap {
                l
            } else {
                cap
            };
            let mut path = route.path.clone();
            path.append("?limit=");
            push_decimal(&mut path, capped as u64);
            route.path = path;
            route
        },
        None => route,
    }
}

/// The route that fetches messages of a channel, at most 100 (the API's cap).
pub fn messages_route(channel_id: ChannelId, limit: Option<u32>) -> (r: Route)
    ensures
        r.method == crate::routes::Method::Get,
        r.bucket@ == "channels:"@ + dec_str(channel_id.0 as nat) + ":messages"@,
        r.path@ == match limit {
            Some(l) => "/channels/"@ + dec_str(channel_id.0 as nat) + "/messages"@ + "?limit="@
                + dec_str((if l < 100 {
                l
            } else {
                100
            }) as nat),
            None => "/channels/"@ + dec_str(channel_id.0 as nat) + "/messages"@,
        },
{
    with_limit(channels::get_messages(channel_id), limit, 100)
}

/// The route that lists members of a guild, at most 1000 (the API's cap).
pub fn members_route(guild_id: GuildId, limit: Option<u32>) -> (r: Route)
    ensures
        r.method == crate::routes::Method::Get,
        r.bucket@ == "guilds:"@ + dec_str(guild_id.0 as nat) + ":members"@,
        r.path@ == match limit {
            Some(l) => "/guilds/"@ + dec_str(guild_id.0 as nat) + "/members"@ + "?limit="@
                + dec_str((if l < 1000 {
                l
            } else {
                1000
            }) as nat),
            None => "/guilds/"@ + dec_str(guild_id.0 as nat) + "/members"@,
        },
{
    with_limit(guilds::list_members(guild_id), limit, 1000)
}

/// How a response status is handled.
#[derive(Clone, Copy, Debug, PartialEq, Eq, Structural)]
pub enum StatusClass {
    /// 200, 201 or 204: the body is the result.
    Success,
    /// 429: rate limited; wait and retry.
    TooManyRequests,
    /// 401: the token is invalid.
    Unauthorized,
    /// 403.
    Forbidden,
    /// 404.
    NotFound,
    /// Any other status: an API error.
    Other,
}

/// How the status `status` is handled.
pub open spec fn status_class(status: u16) -> StatusClass {
    if status == 200 || status == 201 || status == 204 {
        StatusClass::Success
    } else if status == 429 {
        StatusClass::TooManyRequests
    } else if status == 401 {
        StatusClass::Unauthorized
    } else if status == 403 {
        StatusClass::Forbidden
    } else if status == 404 {
        StatusClass::NotFound
    } else {
        StatusClass::Other
    }
}

/// How a response status is handled.
pub fn classify_status(status: u16) -> (r: StatusClass)
    ensures
        r == status_class(status),
{
    if status == 200 || status == 201 || status == 204 {
        StatusClass::Success
    } else if status == 429 {
        StatusClass::TooManyRequests
    } else if status == 401 {
        StatusClass::Unauthorized
    } else if status == 403 {
        StatusClass::Forbidden
    } else if status == 404 {
        StatusClass::NotFound
    } else {
        StatusClass::Other
    }
}

/// The text to parse as the result of a successful response: the body, or JSON
/// `null` when the body is empty.
pub fn success_text(body: String) -> (r: String)
    ensures
        r@ == (if body@.len() == 0 {
            "null"@
        } else {
            body@
        }),
{
    if body.as_str().unicode_len() == 0 {
        String::from_str("null")
    } else {
        body
    }
}

/// After a 429 that says to retry after `retry_after_ms` milliseconds (globally
/// or not): the new retry count, or the rate-limit error once `MAX_RETRIES` 429s
/// have been seen.
pub fn after_too_many_requests(retries: u32, retry_after_ms: u64, global: bool) -> (r: Result<
    u32,
    Error,
>)
    requires
        retries < MAX_RETRIES,
    ensures
        retries + 1 >= MAX_RETRIES ==> r == Err::<u32, Error>(
            Error::RateLimited { retry_after_ms, global },
        ),
        retries + 1 < MAX_RETRIES ==> r == Ok::<u32, Error>((retries + 1) as u32),
{
    let retries = retries + 1;
    if retries >= MAX_RETRIES {
        Err(Error::RateLimited { retry_after_ms, global })
    } else {
        Ok(retries)
    }
}

/// The fields of an API error body that the client reads.
#[derive(Clone, Debug)]
pub struct ErrorBody {
    /// The JSON error code, if it is an integer.
    pub code: Option<i64>,
    /// The error message, if it is a string.
    pub message: Option<String>,
}

/// The message of an error response: the body's, else `fallback`.
pub open spec fn message_or(body: ErrorBody, fallback: Seq<char>) -> Seq<char> {
    match body.message {
        Some(m) => m@,
        None => fallback,
    }
}

/// The error that a failed response (any status that is neither a success nor
/// 429) means: 401 is an authentication error; 403 and 404 are API errors with
/// that code; any other status is an API error with the body's code (else the
/// status), truncated to 32 bits.
pub fn status_error(status: u16, body: &ErrorBody) -> (r: Error)
    requires
        status_class(status) != StatusClass::Success,
        status_class(status) != StatusClass::TooManyRequests,
    ensures
        match status_class(status) {
            StatusClass::Unauthorized => r matches Error::Auth(m) && m@ == "Invalid token"@,
            StatusClass::Forbidden => r matches Error::Discord { code, message } && code == 403
                && message@ == message_or(*body, "Forbidden"@),
            StatusClass::NotFound => r matches Error::Discord { code, message } && code == 404
                && message@ == message_or(*body, "Not found"@),
            _ => r matches Error::Discord { code, message } && code == (match body.code {
                Some(c) => c,
                None => status as i64,
            }) as i32 && message@ == message_or(*body, "Unknown error"@),
        },
{
    let message: &str = match &body.message {
        Some(m) => m.as_str(),
        None => if status == 403 {
            "Forbidden"
        } else if status == 404 {
            "Not found"
        } else {
            "Unknown error"
        },
    };
    if status == 401 {
        Error::auth("Invalid token")
    } else if status == 403 {
        Error::discord(403, message)
    } else if status == 404 {
        Error::discord(404, message)
    } else {
        let code: i64 = match body.code {
            Some(c) => c,
            None => status as i64,
        };
        Error::discord(code as i32, message)
    }
}

/// The rate-limit headers of a response, read.
#[derive(Clone, Debug)]
pub struct RateLimitHeaders {
    /// `x-ratelimit-remaining`, if present and a number.
    pub remaining: Option<u32>,
    /// `x-ratelimit-limit`, if present and a number.
    pub limit: Option<u32>,
    /// `x-ratelimit-bucket`, if present.
    pub bucket: Option<String>,
    /// Whether `x-ratelimit-global` is `true`.
    pub global: bool,
}

/// A header value read as a 32-bit number.
pub open spec fn header_number(v: Option<Seq<char>>) -> Option<u32> {
    match v {
        Some(t) => parse_u32_spec(t),
        None => None,
    }
}

/// Read a header value as a 32-bit number.
fn read_number(v: Option<&str>) -> (r: Option<u32>)
    ensures
        r == header_number(match v {
            Some(t) => Some(t@),
            None => None,
        }),
{
    match v {
        Some(t) => match parse_u32(t) {
            Ok(n) => Some(n),
            Err(_) => None,
        },
        None => None,
    }
}

/// Read the rate-limit headers from their text values (each `None` when the
/// header is missing or not text). The reset delay is read by the caller.
pub fn read_rate_limit_headers(
    remaining: Option<&str>,
    limit: Option<&str>,
    bucket: Option<&str>,
    global: Option<&str>,
) -> (r: RateLimitHeaders)
    ensures
        r.remaining == header_number(match remaining {
            Some(t) => Some(t@),
            None => None,
        }),
        r.limit == header_number(match limit {
            Some(t) => Some(t@),
            None => None,
        }),
        match bucket {
            Some(b) => r.bucket is Some && r.bucket->0@ == b@,
            None => r.bucket is None,
        },
        r.global == (match global {
            Some(g) => g@ == "true"@,
            None => false,
        }),
{
    RateLimitHeaders {
        remaining: read_number(remaining),
        limit: read_number(limit),
        bucket: match bucket {
            Some(b) => Some(String::from_str(b)),
            None => None,
        },
        global: match global {
            Some(g) => str_eq(g, "true"),
            None => false,
        },
    }
}

/// The `Authorization` header value for a bot token: `Bot ` and the token.
pub fn authorization(token: &str) -> (r: String)
    ensures
        r@ == "Bot "@ + token@,
{
    let mut s = String::from_str("Bot ");
    s.append(token);
    s
}

/// Gateway information.
#[derive(Clone, Debug)]
pub struct GatewayInfo {
    /// The WSS URL that can be used for connecting to the gateway.
    pub url: String,
}

/// Session start limit information.
#[derive(Clone, Debug)]
pub struct SessionStartLimit {
    /// Total number of session starts the current user is allowed.
    pub total: u32,
    /// Remaining number of session starts the current user is allowed.
    pub remaining: u32,
    /// Number of milliseconds after which the limit resets.
    pub reset_after: u64,
    /// Number of identify requests allowed per 5 seconds.
    pub max_concurrency: u32,
}

/// Gateway bot information.
#[derive(Clone, Debug)]
pub struct GatewayBotInfo {
    /// The WSS URL that can be used for connecting to the gateway.
    pub url: String,
    /// Recommended number of shards to use when connecting.
    pub shards: u32,
    /// Information on the current session start limit.
    pub session_start_limit: SessionStartLimit,
}

/// The statuses a request succeeds with are exactly 200 OK, 201 Created and
/// 204 No Content; 429, 401, 403 and 404 each have their own handling; every
/// other status is an API error.
pub proof fn law_status_classes(status: u16)
    ensures
        (status_class(status) == StatusClass::Success) <==> (status == 200 || status == 201 || status
            == 204),
        (status_class(status) == StatusClass::TooManyRequests) <==> status == 429,
        (status_class(status) == StatusClass::Unauthorized) <==> status == 401,
        (status_class(status) == StatusClass::Forbidden) <==> status == 403,
        (status_class(status) == StatusClass::NotFound) <==> status == 404,
        (status_class(status) == StatusClass::Other) <==> !(status == 200 || status == 201 || status
            == 204 || status == 429 || status == 401 || status == 403 || status == 404),
{
}

} // verus!
