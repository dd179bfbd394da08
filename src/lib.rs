//! A small publishing backend's verified core: content records, the
//! syndication feed rendered from them, and the populate-once cache that
//! serves that feed.

pub mod cache;
pub mod config;
pub mod feed;
pub mod post;
pub mod time_util;
pub mod user;
