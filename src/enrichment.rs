//! Request context attached to every row: the tenant, the run and the
//! project, read once per request from the authenticated principal and the
//! request headers.
use vstd::prelude::*;
use crate::error::{AppError, ErrorCode, missing_header_error, missing_header_message};
use crate::text::{parse_u64, parsed_u64};

verus! {

pub const RUN_ID_HEADER: &'static str = "X-Run-Id";

pub const PROJECT_NAME_HEADER: &'static str = "X-Project-Name";

/// The run id a header value stands for: its unsigned decimal value, or 0
/// when it is not one.
pub open spec fn run_id_of(header: Seq<char>) -> u64 {
    match parsed_u64(header) {
        Some(v) => v,
        None => 0,
    }
}

/// The outcome of reading the run and project headers, as the error kind
/// and message or the run id and project name.
pub open spec fn headers_outcome(run_header: Option<Seq<char>>, project_header: Option<Seq<char>>) -> Result<(u64, Seq<char>), (ErrorCode, Seq<char>)> {
    match run_header {
        None => Err((ErrorCode::InvalidHeaderFormat, missing_header_message(RUN_ID_HEADER@))),
        Some(run) => match project_header {
            None => Err((ErrorCode::InvalidHeaderFormat, missing_header_message(PROJECT_NAME_HEADER@))),
            Some(project) => Ok((run_id_of(run), project)),
        },
    }
}

/// The characters of an optional header value.
pub open spec fn opt_view(h: Option<&str>) -> Option<Seq<char>> {
    match h {
        Some(s) => Some(s@),
        None => None,
    }
}

/// Reads the run id and project name from the header values, which are
/// `None` when a header is absent or not visible ASCII.
fn read_headers(run_id_header: Option<&str>, project_header: Option<&str>) -> (r: Result<(u64, String), AppError>)
    ensures
        match headers_outcome(opt_view(run_id_header), opt_view(project_header)) {
            Ok((run, project)) => r is Ok && r->Ok_0.0 == run && r->Ok_0.1@ == project,
            Err((code, message)) => r is Err && r->Err_0.code == code && r->Err_0.message@ == message,
        },
{
    let run = match run_id_header {
        Some(h) => h,
        None => {
            return Err(missing_header_error(RUN_ID_HEADER));
        },
    };
    let project = match project_header {
        Some(h) => h,
        None => {
            return Err(missing_header_error(PROJECT_NAME_HEADER));
        },
    };
    let run_id = match parse_u64(run) {
        Some(v) => v,
        None => 0,
    };
    Ok((run_id, String::from_str(project)))
}

/// Tenant, run and project of the request, for metric rows.
#[derive(Debug, Clone)]
pub struct MetricEnrichment {
    pub tenant_id: String,
    pub run_id: u64,
    pub project_name: String,
}

impl MetricEnrichment {
    /// The context of a request by `tenant_id`, given the values of its
    /// `X-Run-Id` and `X-Project-Name` headers (`None` when a header is
    /// absent or unreadable). Both headers are required; a run id that is not
    /// an unsigned decimal number reads as 0.
    pub fn from_headers(tenant_id: String, run_id_header: Option<&str>, project_header: Option<&str>) -> (r: Result<MetricEnrichment, AppError>)
        ensures
            match headers_outcome(opt_view(run_id_header), opt_view(project_header)) {
                Ok((run, project)) => r is Ok && r->Ok_0.tenant_id@ == tenant_id@ && r->Ok_0.run_id == run && r->Ok_0.project_name@ == project,
                Err((code, message)) => r is Err && r->Err_0.code == code && r->Err_0.message@ == message,
            },
    {
        let (run_id, project_name) = read_headers(run_id_header, project_header)?;
        Ok(MetricEnrichment { tenant_id, run_id, project_name })
    }
}

/// Tenant, run and project of the request, for log rows.
#[derive(Debug, Clone)]
pub struct LogEnrichment {
    pub tenant_id: String,
    pub run_id: u64,
    pub project_name: String,
}

impl LogEnrichment {
    /// The context of a request by `tenant_id`, given the values of its
    /// `X-Run-Id` and `X-Project-Name` headers (`None` when a header is
    /// absent or unreadable). Both headers are required; a run id that is not
    /// an unsigned decimal number reads as 0.
    pub fn from_headers(tenant_id: String, run_id_header: Option<&str>, project_header: Option<&str>) -> (r: Result<LogEnrichment, AppError>)
        ensures
            match headers_outcome(opt_view(run_id_header), opt_view(project_header)) {
                Ok((run, project)) => r is Ok && r->Ok_0.tenant_id@ == tenant_id@ && r->Ok_0.run_id == run && r->Ok_0.project_name@ == project,
                Err((code, message)) => r is Err && r->Err_0.code == code && r->Err_0.message@ == message,
            },
    {
        let (run_id, project_name) = read_headers(run_id_header, project_header)?;
        Ok(LogEnrichment { tenant_id, run_id, project_name })
    }
}

/// Tenant, run and project of the request, for data rows.
#[derive(Debug, Clone)]
pub struct DataEnrichment {
    pub tenant_id: String,
    pub run_id: u64,
    pub project_name: String,
}

impl DataEnrichment {
    /// The context of a request by `tenant_id`, given the values of its
    /// `X-Run-Id` and `X-Project-Name` headers (`None` when a header is
    /// absent or unreadable). Both headers are required; a run id that is not
    /// an unsigned decimal number reads as 0.
    pub fn from_headers(tenant_id: String, run_id_header: Option<&str>, project_header: Option<&str>) -> (r: Result<DataEnrichment, AppError>)
        ensures
            match headers_outcome(opt_view(run_id_header), opt_view(project_header)) {
                Ok((run, project)) => r is Ok && r->Ok_0.tenant_id@ == tenant_id@ && r->Ok_0.run_id == run && r->Ok_0.project_name@ == project,
                Err((code, message)) => r is Err && r->Err_0.code == code && r->Err_0.message@ == message,
            },
    {
        let (run_id, project_name) = read_headers(run_id_header, project_header)?;
        Ok(DataEnrichment { tenant_id, run_id, project_name })
    }
}

/// Tenant, run and project of the request, for file rows.
#[derive(Debug, Clone)]
pub struct FilesEnrichment {
    pub tenant_id: String,
    pub run_id: u64,
    pub project_name: String,
}

impl FilesEnrichment {
    /// The context of a request by `tenant_id`, given the values of its
    /// `X-Run-Id` and `X-Project-Name` headers (`None` when a header is
    /// absent or unreadable). Both headers are required; a run id that is not
    /// an unsigned decimal number reads as 0.
    pub fn from_headers(tenant_id: String, run_id_header: Option<&str>, project_header: Option<&str>) -> (r: Result<FilesEnrichment, AppError>)
        ensures
            match headers_outcome(opt_view(run_id_header), opt_view(project_header)) {
                Ok((run, project)) => r is Ok && r->Ok_0.tenant_id@ == tenant_id@ && r->Ok_0.run_id == run && r->Ok_0.project_name@ == project,
                Err((code, message)) => r is Err && r->Err_0.code == code && r->Err_0.message@ == message,
            },
    {
        let (run_id, project_name) = read_headers(run_id_header, project_header)?;
        Ok(FilesEnrichment { tenant_id, run_id, project_name })
    }
}

} // verus!
