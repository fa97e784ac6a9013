//! Webhook routes.
use vstd::prelude::*;
use crate::id::{WebhookId};
use crate::text::{dec_str, push_decimal};
use super::{Method, Route};

verus! {

/// Execute a webhook.
pub fn execute(webhook_id: WebhookId, token: &str) -> (r: Route)
    ensures
        r.method == Method::Post,
        r.path@ == "/webhooks/"@ + dec_str(webhook_id.0 as nat) + "/"@ + token@,
        r.bucket@ == "webhooks:"@ + dec_str(webhook_id.0 as nat) + ":"@ + token@,
{
        let mut path = String::from_str("/webhooks/");
        push_decimal(&mut path, webhook_id.0);
        path.append("/");
        path.append(token);
        let mut bucket = String::from_str("webhooks:");
        push_decimal(&mut bucket, webhook_id.0);
        bucket.append(":");
        bucket.append(token);
    Route::new(Method::Post, path, bucket)
}

/// Execute a webhook and wait for message.
pub fn execute_wait(webhook_id: WebhookId, token: &str) -> (r: Route)
    ensures
        r.method == Method::Post,
        r.path@ == "/webhooks/"@ + dec_str(webhook_id.0 as nat) + "/"@ + token@ + "?wait=true"@,
        r.bucket@ == "webhooks:"@ + dec_str(webhook_id.0 as nat) + ":"@ + token@,
{
        let mut path = String::from_str("/webhooks/");
        push_decimal(&mut path, webhook_id.0);
        path.append("/");
        path.append(token);
        path.append("?wait=true");
        let mut bucket = String::from_str("webhooks:");
        push_decimal(&mut bucket, webhook_id.0);
        bucket.append(":");
        bucket.append(token);
    Route::new(Method::Post, path, bucket)
}

} // verus!
