//! Discord API route definitions: the method, path and rate-limit bucket of
//! each REST endpoint.
use vstd::prelude::*;

pub mod channels;
pub mod commands;
pub mod gateway;
pub mod guilds;
pub mod interactions;
pub mod users;
pub mod webhooks;

verus! {

/// Base URL for the Discord API.
pub const API_BASE: &'static str = "https://discord.com/api/v10";

/// HTTP methods.
#[derive(Clone, Copy, Debug, PartialEq, Eq, Structural)]
pub enum Method {
    /// GET.
    Get,
    /// POST.
    Post,
    /// PUT.
    Put,
    /// PATCH.
    Patch,
    /// DELETE.
    Delete,
}

/// Route builder for Discord API endpoints.
#[derive(Clone, Debug)]
pub struct Route {
    /// The HTTP method for this route.
    pub method: Method,
    /// The path for this route.
    pub path: String,
    /// The rate limit bucket key for this route.
    pub bucket: String,
}

impl Route {
    /// Create a new route.
    pub(crate) fn new(method: Method, path: String, bucket: String) -> (r: Self)
        ensures
            r.method == method,
            r.path == path,
            r.bucket == bucket,
    {
        Route { method, path, bucket }
    }

    /// Get the full URL for this route.
    pub fn url(&self) -> (r: String)
        ensures
            r@ == API_BASE@ + self.path@,
    {
        let mut s = String::from_str(API_BASE);
        s.append(self.path.as_str());
        s
    }
}

} // verus!
