//! A verified publishing pipeline that mirrors a user's bookmarks onto a
//! social network: one post per new bookmark, enriched with page metadata
//! and hashtag facets whose byte offsets are proved exact.

pub mod encoding;
pub mod errors;
pub mod feed;
pub mod identity;
pub mod metadata;
pub mod pipeline;
pub mod post;
pub mod strutil;
pub mod text;
