//! Gateway routes.
use vstd::prelude::*;
use super::{Method, Route};

verus! {

/// Get gateway URL.
pub fn get() -> (r: Route)
    ensures
        r.method == Method::Get,
        r.path@ == "/gateway"@,
        r.bucket@ == "gateway"@,
{
        let mut path = String::from_str("/gateway");
        let mut bucket = String::from_str("gateway");
    Route::new(Method::Get, path, bucket)
}

/// Get gateway URL with bot info.
pub fn get_bot() -> (r: Route)
    ensures
        r.method == Method::Get,
        r.path@ == "/gateway/bot"@,
        r.bucket@ == "gateway_bot"@,
{
        let mut path = String::from_str("/gateway/bot");
        let mut bucket = String::from_str("gateway_bot");
    Route::new(Method::Get, path, bucket)
}

} // verus!
