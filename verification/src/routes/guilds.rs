//! Guild routes.
use vstd::prelude::*;
use crate::id::{GuildId, UserId};
use crate::text::{dec_str, push_decimal};
use super::{Method, Route};

verus! {

/// Get a guild.
pub fn get(guild_id: GuildId) -> (r: Route)
    ensures
        r.method == Method::Get,
        r.path@ == "/guilds/"@ + dec_str(guild_id.0 as nat),
        r.bucket@ == "guilds:"@ + dec_str(guild_id.0 as nat),
{
        let mut path = String::from_str("/guilds/");
        push_decimal(&mut path, guild_id.0);
        let mut bucket = String::from_str("guilds:");
        push_decimal(&mut bucket, guild_id.0);
    Route::new(Method::Get, path, bucket)
}

/// Modify a guild.
pub fn modify(guild_id: GuildId) -> (r: Route)
    ensures
        r.method == Method::Patch,
        r.path@ == "/guilds/"@ + dec_str(guild_id.0 as nat),
        r.bucket@ == "guilds:"@ + dec_str(guild_id.0 as nat),
{
        let mut path = String::from_str("/guilds/");
        push_decimal(&mut path, guild_id.0);
        let mut bucket = String::from_str("guilds:");
        push_decimal(&mut bucket, guild_id.0);
    Route::new(Method::Patch, path, bucket)
}

/// Get guild channels.
pub fn get_channels(guild_id: GuildId) -> (r: Route)
    ensures
        r.method == Method::Get,
        r.path@ == "/guilds/"@ + dec_str(guild_id.0 as nat) + "/channels"@,
        r.bucket@ == "guilds:"@ + dec_str(guild_id.0 as nat) + ":channels"@,
{
        let mut path = String::from_str("/guilds/");
        push_decimal(&mut path, guild_id.0);
        path.append("/channels");
        let mut bucket = String::from_str("guilds:");
        push_decimal(&mut bucket, guild_id.0);
        bucket.append(":channels");
    Route::new(Method::Get, path, bucket)
}

/// Create a guild channel.
pub fn create_channel(guild_id: GuildId) -> (r: Route)
    ensures
        r.method == Method::Post,
        r.path@ == "/guilds/"@ + dec_str(guild_id.0 as nat) + "/channels"@,
        r.bucket@ == "guilds:"@ + dec_str(guild_id.0 as nat) + ":channels"@,
{
        let mut path = String::from_str("/guilds/");
        push_decimal(&mut path, guild_id.0);
        path.append("/channels");
        let mut bucket = String::from_str("guilds:");
        push_decimal(&mut bucket, guild_id.0);
        bucket.append(":channels");
    Route::new(Method::Post, path, bucket)
}

/// Get guild member.
pub fn get_member(guild_id: GuildId, user_id: UserId) -> (r: Route)
    ensures
        r.method == Method::Get,
        r.path@ == "/guilds/"@ + dec_str(guild_id.0 as nat) + "/members/"@ + dec_str(user_id.0 as nat),
        r.bucket@ == "guilds:"@ + dec_str(guild_id.0 as nat) + ":members"@,
{
        let mut path = String::from_str("/guilds/");
        push_decimal(&mut path, guild_id.0);
        path.append("/members/");
        push_decimal(&mut path, user_id.0);
        let mut bucket = String::from_str("guilds:");
        push_decimal(&mut bucket, guild_id.0);
        bucket.append(":members");
    Route::new(Method::Get, path, bucket)
}

/// List guild members.
pub fn list_members(guild_id: GuildId) -> (r: Route)
    ensures
        r.method == Method::Get,
        r.path@ == "/guilds/"@ + dec_str(guild_id.0 as nat) + "/members"@,
        r.bucket@ == "guilds:"@ + dec_str(guild_id.0 as nat) + ":members"@,
{
        let mut path = String::from_str("/guilds/");
        push_decimal(&mut path, guild_id.0);
        path.append("/members");
        let mut bucket = String::from_str("guilds:");
        push_decimal(&mut bucket, guild_id.0);
        bucket.append(":members");
    Route::new(Method::Get, path, bucket)
}

/// Modify guild member.
pub fn modify_member(guild_id: GuildId, user_id: UserId) -> (r: Route)
    ensures
        r.method == Method::Patch,
        r.path@ == "/guilds/"@ + dec_str(guild_id.0 as nat) + "/members/"@ + dec_str(user_id.0 as nat),
        r.bucket@ == "guilds:"@ + dec_str(guild_id.0 as nat) + ":members"@,
{
        let mut path = String::from_str("/guilds/");
        push_decimal(&mut path, guild_id.0);
        path.append("/members/");
        push_decimal(&mut path, user_id.0);
        let mut bucket = String::from_str("guilds:");
        push_decimal(&mut bucket, guild_id.0);
        bucket.append(":members");
    Route::new(Method::Patch, path, bucket)
}

/// Kick a member.
pub fn remove_member(guild_id: GuildId, user_id: UserId) -> (r: Route)
    ensures
        r.method == Method::Delete,
        r.path@ == "/guilds/"@ + dec_str(guild_id.0 as nat) + "/members/"@ + dec_str(user_id.0 as nat),
        r.bucket@ == "guilds:"@ + dec_str(guild_id.0 as nat) + ":members"@,
{
        let mut path = String::from_str("/guilds/");
        push_decimal(&mut path, guild_id.0);
        path.append("/members/");
        push_decimal(&mut path, user_id.0);
        let mut bucket = String::from_str("guilds:");
        push_decimal(&mut bucket, guild_id.0);
        bucket.append(":members");
    Route::new(Method::Delete, path, bucket)
}

/// Get guild bans.
pub fn get_bans(guild_id: GuildId) -> (r: Route)
    ensures
        r.method == Method::Get,
        r.path@ == "/guilds/"@ + dec_str(guild_id.0 as nat) + "/bans"@,
        r.bucket@ == "guilds:"@ + dec_str(guild_id.0 as nat) + ":bans"@,
{
        let mut path = String::from_str("/guilds/");
        push_decimal(&mut path, guild_id.0);
        path.append("/bans");
        let mut bucket = String::from_str("guilds:");
        push_decimal(&mut bucket, guild_id.0);
        bucket.append(":bans");
    Route::new(Method::Get, path, bucket)
}

/// Get a guild ban.
pub fn get_ban(guild_id: GuildId, user_id: UserId) -> (r: Route)
    ensures
        r.method == Method::Get,
        r.path@ == "/guilds/"@ + dec_str(guild_id.0 as nat) + "/bans/"@ + dec_str(user_id.0 as nat),
        r.bucket@ == "guilds:"@ + dec_str(guild_id.0 as nat) + ":bans"@,
{
        let mut path = String::from_str("/guilds/");
        push_decimal(&mut path, guild_id.0);
        path.append("/bans/");
        push_decimal(&mut path, user_id.0);
        let mut bucket = String::from_str("guilds:");
        push_decimal(&mut bucket, guild_id.0);
        bucket.append(":bans");
    Route::new(Method::Get, path, bucket)
}

/// Create a guild ban.
pub fn create_ban(guild_id: GuildId, user_id: UserId) -> (r: Route)
    ensures
        r.method == Method::Put,
        r.path@ == "/guilds/"@ + dec_str(guild_id.0 as nat) + "/bans/"@ + dec_str(user_id.0 as nat),
        r.bucket@ == "guilds:"@ + dec_str(guild_id.0 as nat) + ":bans"@,
{
        let mut path = String::from_str("/guilds/");
        push_decimal(&mut path, guild_id.0);
        path.append("/bans/");
        push_decimal(&mut path, user_id.0);
        let mut bucket = String::from_str("guilds:");
        push_decimal(&mut bucket, guild_id.0);
        bucket.append(":bans");
    Route::new(Method::Put, path, bucket)
}

/// Remove a guild ban.
pub fn remove_ban(guild_id: GuildId, user_id: UserId) -> (r: Route)
    ensures
        r.method == Method::Delete,
        r.path@ == "/guilds/"@ + dec_str(guild_id.0 as nat) + "/bans/"@ + dec_str(user_id.0 as nat),
        r.bucket@ == "guilds:"@ + dec_str(guild_id.0 as nat) + ":bans"@,
{
        let mut path = String::from_str("/guilds/");
        push_decimal(&mut path, guild_id.0);
        path.append("/bans/");
        push_decimal(&mut path, user_id.0);
        let mut bucket = String::from_str("guilds:");
        push_decimal(&mut bucket, guild_id.0);
        bucket.append(":bans");
    Route::new(Method::Delete, path, bucket)
}

/// Get guild roles.
pub fn get_roles(guild_id: GuildId) -> (r: Route)
    ensures
        r.method == Method::Get,
        r.path@ == "/guilds/"@ + dec_str(guild_id.0 as nat) + "/roles"@,
        r.bucket@ == "guilds:"@ + dec_str(guild_id.0 as nat) + ":roles"@,
{
        let mut path = String::from_str("/guilds/");
        push_decimal(&mut path, guild_id.0);
        path.append("/roles");
        let mut bucket = String::from_str("guilds:");
        push_decimal(&mut bucket, guild_id.0);
        bucket.append(":roles");
    Route::new(Method::Get, path, bucket)
}

/// Create a guild role.
pub fn create_role(guild_id: GuildId) -> (r: Route)
    ensures
        r.method == Method::Post,
        r.path@ == "/guilds/"@ + dec_str(guild_id.0 as nat) + "/roles"@,
        r.bucket@ == "guilds:"@ + dec_str(guild_id.0 as nat) + ":roles"@,
{
        let mut path = String::from_str("/guilds/");
        push_decimal(&mut path, guild_id.0);
        path.append("/roles");
        let mut bucket = String::from_str("guilds:");
        push_decimal(&mut bucket, guild_id.0);
        bucket.append(":roles");
    Route::new(Method::Post, path, bucket)
}

/// Leave a guild.
pub fn leave(guild_id: GuildId) -> (r: Route)
    ensures
        r.method == Method::Delete,
        r.path@ == "/users/@me/guilds/"@ + dec_str(guild_id.0 as nat),
        r.bucket@ == "users:@me:guilds"@,
{
        let mut path = String::from_str("/users/@me/guilds/");
        push_decimal(&mut path, guild_id.0);
        let mut bucket = String::from_str("users:@me:guilds");
    Route::new(Method::Delete, path, bucket)
}

} // verus!
