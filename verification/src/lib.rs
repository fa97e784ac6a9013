//! Ferricord: a Discord API client library. The models, cache, REST routes,
//! rate limiting and gateway protocol logic live here with their contracts.
pub mod text;
pub mod id;
pub mod permissions;
pub mod gateway;
pub mod user;
pub mod channel;
pub mod guild;
pub mod voice;
pub mod message;
pub mod interaction;
pub mod routes;
pub mod policy;
pub mod error;
pub mod assoc;
pub mod ratelimit;
pub mod connection;
pub mod shard;
pub mod http;
pub mod tables;
pub mod store;
pub mod events;
