//! User routes.
use vstd::prelude::*;
use crate::id::{UserId};
use crate::text::{dec_str, push_decimal};
use super::{Method, Route};

verus! {

/// Get current user.
pub fn get_current() -> (r: Route)
    ensures
        r.method == Method::Get,
        r.path@ == "/users/@me"@,
        r.bucket@ == "users:@me"@,
{
        let mut path = String::from_str("/users/@me");
        let mut bucket = String::from_str("users:@me");
    Route::new(Method::Get, path, bucket)
}

/// Get a user.
pub fn get(user_id: UserId) -> (r: Route)
    ensures
        r.method == Method::Get,
        r.path@ == "/users/"@ + dec_str(user_id.0 as nat),
        r.bucket@ == "users"@,
{
        let mut path = String::from_str("/users/");
        push_decimal(&mut path, user_id.0);
        let mut bucket = String::from_str("users");
    Route::new(Method::Get, path, bucket)
}

/// Modify current user.
pub fn modify_current() -> (r: Route)
    ensures
        r.method == Method::Patch,
        r.path@ == "/users/@me"@,
        r.bucket@ == "users:@me"@,
{
        let mut path = String::from_str("/users/@me");
        let mut bucket = String::from_str("users:@me");
    Route::new(Method::Patch, path, bucket)
}

/// Get current user guilds.
pub fn get_current_guilds() -> (r: Route)
    ensures
        r.method == Method::Get,
        r.path@ == "/users/@me/guilds"@,
        r.bucket@ == "users:@me:guilds"@,
{
        let mut path = String::from_str("/users/@me/guilds");
        let mut bucket = String::from_str("users:@me:guilds");
    Route::new(Method::Get, path, bucket)
}

/// Create DM channel.
pub fn create_dm() -> (r: Route)
    ensures
        r.method == Method::Post,
        r.path@ == "/users/@me/channels"@,
        r.bucket@ == "users:@me:channels"@,
{
        let mut path = String::from_str("/users/@me/channels");
        let mut bucket = String::from_str("users:@me:channels");
    Route::new(Method::Post, path, bucket)
}

} // verus!
