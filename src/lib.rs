//! Market-data ingestion: the currency set, the provider request paths, the
//! market record and its upsert table, the page store and the polling worker.

pub mod text;
pub mod error;
pub mod provider;
pub mod market;
pub mod store;
pub mod worker;
pub mod configuration;
