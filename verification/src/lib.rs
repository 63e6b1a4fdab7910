//! Ingestion and reconciliation core of a feed aggregator.

pub mod dates;
pub mod document;
pub mod fanout;
pub mod models;
pub mod normalize;
pub mod parse;
pub mod pipeline;
pub mod reconcile;
pub mod scheduler;
pub mod sniff;
pub mod storage;
pub mod subscribe;
