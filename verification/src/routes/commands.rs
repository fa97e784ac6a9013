//! Application command routes.
use vstd::prelude::*;
use crate::id::{GuildId, UserId};
use crate::text::{dec_str, push_decimal};
use super::{Method, Route};

verus! {

/// Get global application commands.
pub fn get_global(application_id: UserId) -> (r: Route)
    ensures
        r.method == Method::Get,
        r.path@ == "/applications/"@ + dec_str(application_id.0 as nat) + "/commands"@,
        r.bucket@ == "applications:"@ + dec_str(application_id.0 as nat) + ":commands"@,
{
        let mut path = String::from_str("/applications/");
        push_decimal(&mut path, application_id.0);
        path.append("/commands");
        let mut bucket = String::from_str("applications:");
        push_decimal(&mut bucket, application_id.0);
        bucket.append(":commands");
    Route::new(Method::Get, path, bucket)
}

/// Create global application command.
pub fn create_global(application_id: UserId) -> (r: Route)
    ensures
        r.method == Method::Post,
        r.path@ == "/applications/"@ + dec_str(application_id.0 as nat) + "/commands"@,
        r.bucket@ == "applications:"@ + dec_str(application_id.0 as nat) + ":commands"@,
{
        let mut path = String::from_str("/applications/");
        push_decimal(&mut path, application_id.0);
        path.append("/commands");
        let mut bucket = String::from_str("applications:");
        push_decimal(&mut bucket, application_id.0);
        bucket.append(":commands");
    Route::new(Method::Post, path, bucket)
}

/// Bulk overwrite global application commands.
pub fn bulk_overwrite_global(application_id: UserId) -> (r: Route)
    ensures
        r.method == Method::Put,
        r.path@ == "/applications/"@ + dec_str(application_id.0 as nat) + "/commands"@,
        r.bucket@ == "applications:"@ + dec_str(application_id.0 as nat) + ":commands"@,
{
        let mut path = String::from_str("/applications/");
        push_decimal(&mut path, application_id.0);
        path.append("/commands");
        let mut bucket = String::from_str("applications:");
        push_decimal(&mut bucket, application_id.0);
        bucket.append(":commands");
    Route::new(Method::Put, path, bucket)
}

/// Get guild application commands.
pub fn get_guild(application_id: UserId, guild_id: GuildId) -> (r: Route)
    ensures
        r.method == Method::Get,
        r.path@ == "/applications/"@ + dec_str(application_id.0 as nat) + "/guilds/"@ + dec_str(guild_id.0 as nat) + "/commands"@,
        r.bucket@ == "applications:"@ + dec_str(application_id.0 as nat) + ":guilds:"@ + dec_str(guild_id.0 as nat) + ":commands"@,
{
        let mut path = String::from_str("/applications/");
        push_decimal(&mut path, application_id.0);
        path.append("/guilds/");
        push_decimal(&mut path, guild_id.0);
        path.append("/commands");
        let mut bucket = String::from_str("applications:");
        push_decimal(&mut bucket, application_id.0);
        bucket.append(":guilds:");
        push_decimal(&mut bucket, guild_id.0);
        bucket.append(":commands");
    Route::new(Method::Get, path, bucket)
}

/// Create guild application command.
pub fn create_guild(application_id: UserId, guild_id: GuildId) -> (r: Route)
    ensures
        r.method == Method::Post,
        r.path@ == "/applications/"@ + dec_str(application_id.0 as nat) + "/guilds/"@ + dec_str(guild_id.0 as nat) + "/commands"@,
        r.bucket@ == "applications:"@ + dec_str(application_id.0 as nat) + ":guilds:"@ + dec_str(guild_id.0 as nat) + ":commands"@,
{
        let mut path = String::from_str("/applications/");
        push_decimal(&mut path, application_id.0);
        path.append("/guilds/");
        push_decimal(&mut path, guild_id.0);
        path.append("/commands");
        let mut bucket = String::from_str("applications:");
        push_decimal(&mut bucket, application_id.0);
        bucket.append(":guilds:");
        push_decimal(&mut bucket, guild_id.0);
        bucket.append(":commands");
    Route::new(Method::Post, path, bucket)
}

/// Bulk overwrite guild application commands.
pub fn bulk_overwrite_guild(application_id: UserId, guild_id: GuildId) -> (r: Route)
    ensures
        r.method == Method::Put,
        r.path@ == "/applications/"@ + dec_str(application_id.0 as nat) + "/guilds/"@ + dec_str(guild_id.0 as nat) + "/commands"@,
        r.bucket@ == "applications:"@ + dec_str(application_id.0 as nat) + ":guilds:"@ + dec_str(guild_id.0 as nat) + ":commands"@,
{
        let mut path = String::from_str("/applications/");
        push_decimal(&mut path, application_id.0);
        path.append("/guilds/");
        push_decimal(&mut path, guild_id.0);
        path.append("/commands");
        let mut bucket = String::from_str("applications:");
        push_decimal(&mut bucket, application_id.0);
        bucket.append(":guilds:");
        push_decimal(&mut bucket, guild_id.0);
        bucket.append(":commands");
    Route::new(Method::Put, path, bucket)
}

} // verus!
