//! The rules behind a small HTTP service that reports its own traffic over OTLP:
//! how the exporter is configured, which instruments exist, how each one is
//! aggregated, and what one request records.

pub mod aggregation;
pub mod config;
pub mod exporter;
pub mod instrument;
pub mod metadata;
pub mod meter;
pub mod request;
pub mod resource;
pub mod temporality;
pub mod text;
