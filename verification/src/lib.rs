//! Verified core of a small blog server: session bookkeeping, cookie
//! handling, slug generation, and the request/reply rules of the post and
//! tag endpoints.

pub mod text;
pub mod cookie;
pub mod slug;
pub mod session;
pub mod reply;
pub mod auth;
pub mod posts;
pub mod tags;
pub mod tag_ids;
pub mod association;
pub mod router;
pub mod views;
pub mod config;
