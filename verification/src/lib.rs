//! Fetches an RSS feed, drops the items that match a set of regular
//! expressions and hands back the remaining feed.

pub mod cache_status;
pub mod extension;
pub mod fake_http_client;
pub mod feed;
pub mod filter;
pub mod handler;
pub mod headers;
pub mod http_client;
pub mod lambda;
pub mod query;
pub mod request_headers;
pub mod telemetry;
pub mod test_request_builder;
pub mod text;
pub mod worker_client;

pub use filter::{FilterRegexes, RssError, RssFilter};
