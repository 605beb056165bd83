//! Ingestion of one account's transaction activity: the normalized record,
//! its derivation from a fetched transaction, and the rules of the pipeline
//! around it.

pub mod base58;
pub mod client;
pub mod config;
pub mod error;
pub mod fetched;
pub mod keys;
pub mod metrics;
pub mod metrics_server;
pub mod models;
pub mod parser;
pub mod repository;
pub mod stream;
pub mod text;
pub mod timestamp;
