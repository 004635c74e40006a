//! Run status messages.
use vstd::prelude::*;

verus! {

/// The status a run reports.
#[derive(Debug, Clone, Copy, PartialEq, Eq, Structural)]
pub enum StatusCode {
    Init,
}

/// What a run reports when it starts.
#[derive(Debug)]
pub struct InitData {
    pub run_id: String,
    pub run_name: String,
    pub project_id: String,
    pub metadata: serde_json::Value,
}

/// A status report of a run.
#[derive(Debug)]
pub struct StatusRequest {
    pub status: StatusCode,
    pub data: InitData,
}

/// The answer to a status report.
#[derive(Debug, Clone)]
pub struct StatusResponse {
    pub message: String,
}

} // verus!
