//! A container-monitoring agent library: it models running containers'
//! raw resource counters, derives normalized metric records from them,
//! batches the records, and prepares signed requests that deliver each
//! batch to a remote log-ingestion endpoint.

pub mod client;
pub mod collect;
pub mod config;
pub mod emit;
pub mod numfmt;
pub mod publish;
pub mod sample;
pub mod stats;

pub use crate::client::{Client, ClientConfig};
pub use crate::collect::Collector;
pub use crate::config::Config;
pub use crate::publish::{Publisher, PublisherConfig, PublisherHandle};
pub use crate::stats::Stats;
