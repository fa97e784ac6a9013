use ferricord::error::Error;
use ferricord::http::{
    ErrorBody, StatusClass, after_too_many_requests, authorization, classify_status, members_route,
    messages_route, reaction_route, read_rate_limit_headers, status_error, success_text,
};
use ferricord::id::{ChannelId, GuildId, MessageId, UserId};
use ferricord::ratelimit::{RateLimitInfo, RateLimiter};
use ferricord::routes::{Method, channels, guilds, users};

#[test]
fn route_paths_and_buckets() {
    let r = channels::create_message(ChannelId::new(123));
    assert_eq!(r.method, Method::Post);
    assert_eq!(r.path, "/channels/123/messages");
    assert_eq!(r.bucket, "channels:123:messages");
    assert_eq!(r.url(), "https://discord.com/api/v10/channels/123/messages");
    let m = guilds::get_member(GuildId::new(5), UserId::new(6));
    assert_eq!(m.path, "/guilds/5/members/6");
    assert_eq!(users::get_current().path, "/users/@me");
}

#[test]
fn reaction_emoji_is_percent_encoded() {
    let r = reaction_route(ChannelId::new(1), MessageId::new(2), "👍", false);
    assert_eq!(r.method, Method::Put);
    assert_eq!(r.path, "/channels/1/messages/2/reactions/%F0%9F%91%8D/@me");
    let d = reaction_route(ChannelId::new(1), MessageId::new(2), "a_b", true);
    assert_eq!(d.method, Method::Delete);
    assert_eq!(d.path, "/channels/1/messages/2/reactions/a%5Fb/@me");
}

#[test]
fn limits_are_capped() {
    assert_eq!(messages_route(ChannelId::new(9), Some(500)).path, "/channels/9/messages?limit=100");
    assert_eq!(messages_route(ChannelId::new(9), Some(20)).path, "/channels/9/messages?limit=20");
    assert_eq!(messages_route(ChannelId::new(9), None).path, "/channels/9/messages");
    assert_eq!(members_route(GuildId::new(4), Some(5000)).path, "/guilds/4/members?limit=1000");
}

#[test]
fn statuses() {
    assert_eq!(classify_status(200), StatusClass::Success);
    assert_eq!(classify_status(204), StatusClass::Success);
    assert_eq!(classify_status(429), StatusClass::TooManyRequests);
    assert_eq!(classify_status(401), StatusClass::Unauthorized);
    assert_eq!(classify_status(500), StatusClass::Other);
    assert_eq!(success_text(String::new()), "null");
    assert_eq!(success_text("{}".to_string()), "{}");
    assert_eq!(authorization("abc"), "Bot abc");
}

#[test]
fn status_errors() {
    let none = ErrorBody { code: None, message: None };
    match status_error(401, &none) {
        Error::Auth(m) => assert_eq!(m, "Invalid token"),
        other => panic!("unexpected {:?}", other),
    }
    match status_error(404, &none) {
        Error::Discord { code, message } => {
            assert_eq!(code, 404);
            assert_eq!(message, "Not found");
        },
        other => panic!("unexpected {:?}", other),
    }
    let body = ErrorBody { code: Some(50035), message: Some("Invalid Form Body".to_string()) };
    match status_error(400, &body) {
        Error::Discord { code, message } => {
            assert_eq!(code, 50035);
            assert_eq!(message, "Invalid Form Body");
        },
        other => panic!("unexpected {:?}", other),
    }
    match status_error(503, &none) {
        Error::Discord { code, message } => {
            assert_eq!(code, 503);
            assert_eq!(message, "Unknown error");
        },
        other => panic!("unexpected {:?}", other),
    }
}

#[test]
fn retries_end_after_five() {
    assert_eq!(after_too_many_requests(0, 1500, false).unwrap(), 1);
    assert_eq!(after_too_many_requests(3, 1500, false).unwrap(), 4);
    match after_too_many_requests(4, 1500, true) {
        Err(Error::RateLimited { retry_after_ms, global }) => {
            assert_eq!(retry_after_ms, 1500);
            assert!(global);
        },
        other => panic!("unexpected {:?}", other),
    }
}

#[test]
fn headers_are_read() {
    let h = read_rate_limit_headers(Some("4"), Some("5"), Some("abcd"), Some("true"));
    assert_eq!(h.remaining, Some(4));
    assert_eq!(h.limit, Some(5));
    assert_eq!(h.bucket.as_deref(), Some("abcd"));
    assert!(h.global);
    let bad = read_rate_limit_headers(Some("x"), None, None, Some("false"));
    assert_eq!(bad.remaining, None);
    assert_eq!(bad.limit, None);
    assert!(!bad.global);
}

#[test]
fn rate_limit_info_waits() {
    let info = RateLimitInfo { remaining: 0, limit: 5, reset_at: 1000, bucket: None };
    assert!(info.should_wait(400));
    assert_eq!(info.wait_duration(400), 600);
    assert!(!info.should_wait(1000));
    assert_eq!(info.wait_duration(1500), 0);
    let fresh = RateLimitInfo::new(7);
    assert_eq!(fresh.remaining, 1);
    assert_eq!(fresh.reset_at, 7);
}

#[test]
fn limiter_follows_headers_and_429s() {
    let mut limiter = RateLimiter::new(0);
    assert_eq!(limiter.check_global(0), None);
    let (guard, wait) = limiter.acquire("channels:1:messages", 0);
    assert_eq!(guard.route(), "channels:1:messages");
    assert_eq!(wait, None);
    limiter.update_from_headers("channels:1:messages", Some(0), Some(5), Some(2000), Some("hash".to_string()), false, 100);
    let (guard, wait) = limiter.acquire("channels:1:messages", 500);
    assert_eq!(guard.bucket_key(), "hash");
    assert_eq!(wait, Some(1600));
    let (_, wait) = limiter.acquire("channels:1:messages", 2100);
    assert_eq!(wait, None);
    limiter.handle_rate_limit("channels:2:messages", 3000, false, 1000);
    let (_, wait) = limiter.acquire("channels:2:messages", 1500);
    assert_eq!(wait, Some(2500));
    limiter.handle_rate_limit("anything", 1000, true, 5000);
    assert_eq!(limiter.check_global(5500), Some(500));
    assert_eq!(limiter.check_global(6000), None);
}
