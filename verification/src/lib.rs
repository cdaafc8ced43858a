//! A webtoon data-acquisition and caching engine.
//!
//! The crate parses the comics platform's HTML into typed records, walks the
//! paginated episode lists incrementally, decides when cached metadata is
//! stale, plans the dedup-aware image cache, and shapes the user's
//! subscription table. Everything here is stated in contracts and verified;
//! the embedding layer contributes only the network and file transport that
//! the contracts leave to it.
pub mod episodes;
pub mod freshness;
pub mod html;
pub mod image_cache;
pub mod labels;
pub mod metadata;
pub mod posts;
pub mod search;
pub mod store;
pub mod text;
pub mod types;
