//! Ingestion gateway core for machine-learning telemetry: line framing,
//! row building, batching decisions and the error taxonomy.

pub mod text;
pub mod error;
pub mod stream;
pub mod config;
pub mod batcher;
pub mod enrichment;
pub mod log;
pub mod data;
pub mod files;
pub mod metrics;
pub mod file_type;
pub mod presign;
pub mod auth;
pub mod status;
