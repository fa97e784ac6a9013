//! Channel routes.
use vstd::prelude::*;
use crate::id::{ChannelId, MessageId};
use crate::text::{dec_str, push_decimal};
use super::{Method, Route};

verus! {

/// Get a channel by ID.
pub fn get(channel_id: ChannelId) -> (r: Route)
    ensures
        r.method == Method::Get,
        r.path@ == "/channels/"@ + dec_str(channel_id.0 as nat),
        r.bucket@ == "channels:"@ + dec_str(channel_id.0 as nat),
{
        let mut path = String::from_str("/channels/");
        push_decimal(&mut path, channel_id.0);
        let mut bucket = String::from_str("channels:");
        push_decimal(&mut bucket, channel_id.0);
    Route::new(Method::Get, path, bucket)
}

/// Modify a channel.
pub fn modify(channel_id: ChannelId) -> (r: Route)
    ensures
        r.method == Method::Patch,
        r.path@ == "/channels/"@ + dec_str(channel_id.0 as nat),
        r.bucket@ == "channels:"@ + dec_str(channel_id.0 as nat),
{
        let mut path = String::from_str("/channels/");
        push_decimal(&mut path, channel_id.0);
        let mut bucket = String::from_str("channels:");
        push_decimal(&mut bucket, channel_id.0);
    Route::new(Method::Patch, path, bucket)
}

/// Delete a channel.
pub fn delete(channel_id: ChannelId) -> (r: Route)
    ensures
        r.method == Method::Delete,
        r.path@ == "/channels/"@ + dec_str(channel_id.0 as nat),
        r.bucket@ == "channels:"@ + dec_str(channel_id.0 as nat),
{
        let mut path = String::from_str("/channels/");
        push_decimal(&mut path, channel_id.0);
        let mut bucket = String::from_str("channels:");
        push_decimal(&mut bucket, channel_id.0);
    Route::new(Method::Delete, path, bucket)
}

/// Get messages in a channel.
pub fn get_messages(channel_id: ChannelId) -> (r: Route)
    ensures
        r.method == Method::Get,
        r.path@ == "/channels/"@ + dec_str(channel_id.0 as nat) + "/messages"@,
        r.bucket@ == "channels:"@ + dec_str(channel_id.0 as nat) + ":messages"@,
{
        let mut path = String::from_str("/channels/");
        push_decimal(&mut path, channel_id.0);
        path.append("/messages");
        let mut bucket = String::from_str("channels:");
        push_decimal(&mut bucket, channel_id.0);
        bucket.append(":messages");
    Route::new(Method::Get, path, bucket)
}

/// Get a specific message.
pub fn get_message(channel_id: ChannelId, message_id: MessageId) -> (r: Route)
    ensures
        r.method == Method::Get,
        r.path@ == "/channels/"@ + dec_str(channel_id.0 as nat) + "/messages/"@ + dec_str(message_id.0 as nat),
        r.bucket@ == "channels:"@ + dec_str(channel_id.0 as nat) + ":messages"@,
{
        let mut path = String::from_str("/channels/");
        push_decimal(&mut path, channel_id.0);
        path.append("/messages/");
        push_decimal(&mut path, message_id.0);
        let mut bucket = String::from_str("channels:");
        push_decimal(&mut bucket, channel_id.0);
        bucket.append(":messages");
    Route::new(Method::Get, path, bucket)
}

/// Create a message in a channel.
pub fn create_message(channel_id: ChannelId) -> (r: Route)
    ensures
        r.method == Method::Post,
        r.path@ == "/channels/"@ + dec_str(channel_id.0 as nat) + "/messages"@,
        r.bucket@ == "channels:"@ + dec_str(channel_id.0 as nat) + ":messages"@,
{
        let mut path = String::from_str("/channels/");
        push_decimal(&mut path, channel_id.0);
        path.append("/messages");
        let mut bucket = String::from_str("channels:");
        push_decimal(&mut bucket, channel_id.0);
        bucket.append(":messages");
    Route::new(Method::Post, path, bucket)
}

/// Edit a message.
pub fn edit_message(channel_id: ChannelId, message_id: MessageId) -> (r: Route)
    ensures
        r.method == Method::Patch,
        r.path@ == "/channels/"@ + dec_str(channel_id.0 as nat) + "/messages/"@ + dec_str(message_id.0 as nat),
        r.bucket@ == "channels:"@ + dec_str(channel_id.0 as nat) + ":messages"@,
{
        let mut path = String::from_str("/channels/");
        push_decimal(&mut path, channel_id.0);
        path.append("/messages/");
        push_decimal(&mut path, message_id.0);
        let mut bucket = String::from_str("channels:");
        push_decimal(&mut bucket, channel_id.0);
        bucket.append(":messages");
    Route::new(Method::Patch, path, bucket)
}

/// Delete a message.
pub fn delete_message(channel_id: ChannelId, message_id: MessageId) -> (r: Route)
    ensures
        r.method == Method::Delete,
        r.path@ == "/channels/"@ + dec_str(channel_id.0 as nat) + "/messages/"@ + dec_str(message_id.0 as nat),
        r.bucket@ == "channels:"@ + dec_str(channel_id.0 as nat) + ":messages:delete"@,
{
        let mut path = String::from_str("/channels/");
        push_decimal(&mut path, channel_id.0);
        path.append("/messages/");
        push_decimal(&mut path, message_id.0);
        let mut bucket = String::from_str("channels:");
        push_decimal(&mut bucket, channel_id.0);
        bucket.append(":messages:delete");
    Route::new(Method::Delete, path, bucket)
}

/// Bulk delete messages.
pub fn bulk_delete_messages(channel_id: ChannelId) -> (r: Route)
    ensures
        r.method == Method::Post,
        r.path@ == "/channels/"@ + dec_str(channel_id.0 as nat) + "/messages/bulk-delete"@,
        r.bucket@ == "channels:"@ + dec_str(channel_id.0 as nat) + ":messages:bulk-delete"@,
{
        let mut path = String::from_str("/channels/");
        push_decimal(&mut path, channel_id.0);
        path.append("/messages/bulk-delete");
        let mut bucket = String::from_str("channels:");
        push_decimal(&mut bucket, channel_id.0);
        bucket.append(":messages:bulk-delete");
    Route::new(Method::Post, path, bucket)
}

/// Create a reaction.
pub fn create_reaction(channel_id: ChannelId, message_id: MessageId, emoji: &str) -> (r: Route)
    ensures
        r.method == Method::Put,
        r.path@ == "/channels/"@ + dec_str(channel_id.0 as nat) + "/messages/"@ + dec_str(message_id.0 as nat) + "/reactions/"@ + emoji@ + "/@me"@,
        r.bucket@ == "channels:"@ + dec_str(channel_id.0 as nat) + ":messages:reactions"@,
{
        let mut path = String::from_str("/channels/");
        push_decimal(&mut path, channel_id.0);
        path.append("/messages/");
        push_decimal(&mut path, message_id.0);
        path.append("/reactions/");
        path.append(emoji);
        path.append("/@me");
        let mut bucket = String::from_str("channels:");
        push_decimal(&mut bucket, channel_id.0);
        bucket.append(":messages:reactions");
    Route::new(Method::Put, path, bucket)
}

/// Delete own reaction.
pub fn delete_own_reaction(channel_id: ChannelId, message_id: MessageId, emoji: &str) -> (r: Route)
    ensures
        r.method == Method::Delete,
        r.path@ == "/channels/"@ + dec_str(channel_id.0 as nat) + "/messages/"@ + dec_str(message_id.0 as nat) + "/reactions/"@ + emoji@ + "/@me"@,
        r.bucket@ == "channels:"@ + dec_str(channel_id.0 as nat) + ":messages:reactions"@,
{
        let mut path = String::from_str("/channels/");
        push_decimal(&mut path, channel_id.0);
        path.append("/messages/");
        push_decimal(&mut path, message_id.0);
        path.append("/reactions/");
        path.append(emoji);
        path.append("/@me");
        let mut bucket = String::from_str("channels:");
        push_decimal(&mut bucket, channel_id.0);
        bucket.append(":messages:reactions");
    Route::new(Method::Delete, path, bucket)
}

/// Trigger typing indicator.
pub fn trigger_typing(channel_id: ChannelId) -> (r: Route)
    ensures
        r.method == Method::Post,
        r.path@ == "/channels/"@ + dec_str(channel_id.0 as nat) + "/typing"@,
        r.bucket@ == "channels:"@ + dec_str(channel_id.0 as nat) + ":typing"@,
{
        let mut path = String::from_str("/channels/");
        push_decimal(&mut path, channel_id.0);
        path.append("/typing");
        let mut bucket = String::from_str("channels:");
        push_decimal(&mut bucket, channel_id.0);
        bucket.append(":typing");
    Route::new(Method::Post, path, bucket)
}

/// Get pinned messages.
pub fn get_pinned_messages(channel_id: ChannelId) -> (r: Route)
    ensures
        r.method == Method::Get,
        r.path@ == "/channels/"@ + dec_str(channel_id.0 as nat) + "/pins"@,
        r.bucket@ == "channels:"@ + dec_str(channel_id.0 as nat) + ":pins"@,
{
        let mut path = String::from_str("/channels/");
        push_decimal(&mut path, channel_id.0);
        path.append("/pins");
        let mut bucket = String::from_str("channels:");
        push_decimal(&mut bucket, channel_id.0);
        bucket.append(":pins");
    Route::new(Method::Get, path, bucket)
}

/// Pin a message.
pub fn pin_message(channel_id: ChannelId, message_id: MessageId) -> (r: Route)
    ensures
        r.method == Method::Put,
        r.path@ == "/channels/"@ + dec_str(channel_id.0 as nat) + "/pins/"@ + dec_str(message_id.0 as nat),
        r.bucket@ == "channels:"@ + dec_str(channel_id.0 as nat) + ":pins"@,
{
        let mut path = String::from_str("/channels/");
        push_decimal(&mut path, channel_id.0);
        path.append("/pins/");
        push_decimal(&mut path, message_id.0);
        let mut bucket = String::from_str("channels:");
        push_decimal(&mut bucket, channel_id.0);
        bucket.append(":pins");
    Route::new(Method::Put, path, bucket)
}

/// Unpin a message.
pub fn unpin_message(channel_id: ChannelId, message_id: MessageId) -> (r: Route)
    ensures
        r.method == Method::Delete,
        r.path@ == "/channels/"@ + dec_str(channel_id.0 as nat) + "/pins/"@ + dec_str(message_id.0 as nat),
        r.bucket@ == "channels:"@ + dec_str(channel_id.0 as nat) + ":pins"@,
{
        let mut path = String::from_str("/channels/");
        push_decimal(&mut path, channel_id.0);
        path.append("/pins/");
        push_decimal(&mut path, message_id.0);
        let mut bucket = String::from_str("channels:");
        push_decimal(&mut bucket, channel_id.0);
        bucket.append(":pins");
    Route::new(Method::Delete, path, bucket)
}

} // verus!
