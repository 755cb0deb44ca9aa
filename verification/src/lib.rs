//! Feed-synchronization and media-cache engine for a federated
//! social-network client.
//!
//! The engine reconciles two concurrently-arriving data sources — a paginated
//! backfill and a live push-event stream — into order-stable, duplicate-free
//! feeds of entity ids, resolves cross-references between entities through one
//! canonical entity cache, and plans deduplicated fetches for remote media so
//! that the same URL is never requested twice concurrently.

pub mod cache;
pub mod config;
pub mod entities;
pub mod feed;
pub mod idmap;
pub mod media;
pub mod merger;
pub mod pages;
pub mod urls;
pub mod widgets;

pub use cache::EntityCache;
pub use feed::Feed;
pub use feed::PAGE_SIZE;
pub use media::MediaCache;
pub use media::MediaHandle;
pub use merger::LiveEvent;
pub use merger::Session;
