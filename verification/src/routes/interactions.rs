//! Interaction routes.
use vstd::prelude::*;
use crate::id::{UserId};
use crate::text::{dec_str, push_decimal};
use super::{Method, Route};

verus! {

/// Create interaction response.
pub fn create_response(interaction_id: &str, token: &str) -> (r: Route)
    ensures
        r.method == Method::Post,
        r.path@ == "/interactions/"@ + interaction_id@ + "/"@ + token@ + "/callback"@,
        r.bucket@ == "interactions:"@ + interaction_id@ + ":"@ + token@,
{
        let mut path = String::from_str("/interactions/");
        path.append(interaction_id);
        path.append("/");
        path.append(token);
        path.append("/callback");
        let mut bucket = String::from_str("interactions:");
        bucket.append(interaction_id);
        bucket.append(":");
        bucket.append(token);
    Route::new(Method::Post, path, bucket)
}

/// Get original interaction response.
pub fn get_original_response(application_id: UserId, token: &str) -> (r: Route)
    ensures
        r.method == Method::Get,
        r.path@ == "/webhooks/"@ + dec_str(application_id.0 as nat) + "/"@ + token@ + "/messages/@original"@,
        r.bucket@ == "webhooks:"@ + dec_str(application_id.0 as nat) + ":"@ + token@,
{
        let mut path = String::from_str("/webhooks/");
        push_decimal(&mut path, application_id.0);
        path.append("/");
        path.append(token);
        path.append("/messages/@original");
        let mut bucket = String::from_str("webhooks:");
        push_decimal(&mut bucket, application_id.0);
        bucket.append(":");
        bucket.append(token);
    Route::new(Method::Get, path, bucket)
}

/// Edit original interaction response.
pub fn edit_original_response(application_id: UserId, token: &str) -> (r: Route)
    ensures
        r.method == Method::Patch,
        r.path@ == "/webhooks/"@ + dec_str(application_id.0 as nat) + "/"@ + token@ + "/messages/@original"@,
        r.bucket@ == "webhooks:"@ + dec_str(application_id.0 as nat) + ":"@ + token@,
{
        let mut path = String::from_str("/webhooks/");
        push_decimal(&mut path, application_id.0);
        path.append("/");
        path.append(token);
        path.append("/messages/@original");
        let mut bucket = String::from_str("webhooks:");
        push_decimal(&mut bucket, application_id.0);
        bucket.append(":");
        bucket.append(token);
    Route::new(Method::Patch, path, bucket)
}

/// Delete original interaction response.
pub fn delete_original_response(application_id: UserId, token: &str) -> (r: Route)
    ensures
        r.method == Method::Delete,
        r.path@ == "/webhooks/"@ + dec_str(application_id.0 as nat) + "/"@ + token@ + "/messages/@original"@,
        r.bucket@ == "webhooks:"@ + dec_str(application_id.0 as nat) + ":"@ + token@,
{
        let mut path = String::from_str("/webhooks/");
        push_decimal(&mut path, application_id.0);
        path.append("/");
        path.append(token);
        path.append("/messages/@original");
        let mut bucket = String::from_str("webhooks:");
        push_decimal(&mut bucket, application_id.0);
        bucket.append(":");
        bucket.append(token);
    Route::new(Method::Delete, path, bucket)
}

} // verus!
