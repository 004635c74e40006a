//! Connection settings, table names and the batching policy.
use vstd::prelude::*;

verus! {

/// Connection details for the column store, the object store and the
/// tenant database.
#[derive(Debug, Clone)]
pub struct Config {
    pub clickhouse_url: String,
    pub clickhouse_user: String,
    pub clickhouse_password: String,
    pub storage_access_key_id: String,
    pub storage_secret_access_key: String,
    pub storage_bucket: String,
    pub storage_endpoint: String,
    pub database_url: String,
}

pub const METRICS_TABLE_NAME: &'static str = "mlop_metrics";

pub const LOGS_TABLE_NAME: &'static str = "mlop_logs";

pub const DATA_TABLE_NAME: &'static str = "mlop_data";

pub const FILES_TABLE_NAME: &'static str = "mlop_files";

/// Rows a batcher buffers before it flushes.
pub const DEFAULT_BATCH_SIZE: usize = 500_000;

/// Milliseconds of inactivity after which a non-empty buffer is flushed.
pub const DEFAULT_FLUSH_INTERVAL_MS: u64 = 5_000;

/// Capacity of the channel in front of each batcher.
pub const CHANNEL_CAPACITY: usize = 1_000;

/// When a batcher flushes: on reaching `batch_size` rows, or once
/// `flush_interval_ms` has passed since the last flush.
#[derive(Debug, Clone, Copy, PartialEq, Eq, Structural)]
pub struct FlushConfig {
    pub batch_size: usize,
    pub flush_interval_ms: u64,
}

impl FlushConfig {
    /// The policy every row type uses.
    pub fn standard() -> (r: FlushConfig)
        ensures
            r.batch_size == DEFAULT_BATCH_SIZE,
            r.flush_interval_ms == DEFAULT_FLUSH_INTERVAL_MS,
    {
        FlushConfig { batch_size: DEFAULT_BATCH_SIZE, flush_interval_ms: DEFAULT_FLUSH_INTERVAL_MS }
    }
}

} // verus!
