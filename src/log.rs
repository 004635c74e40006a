//! Log lines: one row per input line.
use vstd::prelude::*;
use crate::config::LOGS_TABLE_NAME;
use crate::enrichment::{LogEnrichment, headers_outcome, run_id_of};
use crate::error::{AppError, ErrorCode};
use crate::stream::SingleRowInput;
use crate::text::{blank, is_blank};

verus! {

/// One log line as a client sends it.
#[derive(Debug, Clone)]
pub struct LogInput {
    pub time: u64,
    pub message: String,
    pub line_number: u64,
    pub log_type: String,
}

/// A log line is accepted when its type is not blank.
pub open spec fn log_input_valid(i: LogInput) -> bool {
    !is_blank(i.log_type@)
}

/// A log line with its request context, as stored.
#[derive(Debug, Clone)]
pub struct LogRow {
    pub time: u64,
    pub message: String,
    pub line_number: u64,
    pub log_type: String,
    pub tenant_id: String,
    pub run_id: u64,
    pub project_name: String,
}

/// `r` holds the fields of `i` and the context `e`.
pub open spec fn log_row_built(r: LogRow, i: LogInput, e: LogEnrichment) -> bool {
    &&& r.time == i.time
    &&& r.message@ == i.message@
    &&& r.line_number == i.line_number
    &&& r.log_type@ == i.log_type@
    &&& r.tenant_id@ == e.tenant_id@
    &&& r.run_id == e.run_id
    &&& r.project_name@ == e.project_name@
}

impl LogInput {
    /// Rejects a log line whose type is blank.
    pub fn validate(&self) -> (r: Result<(), AppError>)
        ensures
            r is Ok <==> log_input_valid(*self),
            r is Err ==> r->Err_0.code == ErrorCode::InvalidLogFormat && r->Err_0.message@
                == "'logType' field cannot be empty"@,
    {
        if blank(self.log_type.as_str()) {
            return Err(
                AppError::new(
                    ErrorCode::InvalidLogFormat,
                    String::from_str("'logType' field cannot be empty"),
                ),
            );
        }
        Ok(())
    }

    /// The rows of a log line: exactly one when it is valid.
    pub fn into_rows(self, enrichment: LogEnrichment) -> (r: Result<Vec<LogRow>, AppError>)
        ensures
            r is Ok <==> log_input_valid(self),
            r is Ok ==> r->Ok_0@.len() == 1 && log_row_built(r->Ok_0@[0], self, enrichment),
            r is Err ==> r->Err_0.code == ErrorCode::InvalidLogFormat,
    {
        let row = LogRow::from(self, enrichment)?;
        Ok(vec![row])
    }
}

impl SingleRowInput for LogInput {}

impl LogRow {
    /// Validates `input` and attaches the request context to it.
    pub fn from(input: LogInput, enrichment: LogEnrichment) -> (r: Result<LogRow, AppError>)
        ensures
            r is Ok <==> log_input_valid(input),
            r is Ok ==> log_row_built(r->Ok_0, input, enrichment),
            r is Err ==> r->Err_0.code == ErrorCode::InvalidLogFormat && r->Err_0.message@
                == "'logType' field cannot be empty"@,
    {
        input.validate()?;
        Ok(
            LogRow {
                time: input.time,
                message: input.message,
                line_number: input.line_number,
                log_type: input.log_type,
                tenant_id: enrichment.tenant_id,
                run_id: enrichment.run_id,
                project_name: enrichment.project_name,
            },
        )
    }

    /// The table log rows are written to.
    pub fn table_name() -> (r: &'static str)
        ensures
            r@ == LOGS_TABLE_NAME@,
    {
        LOGS_TABLE_NAME
    }
}

/// A row built from an input in the context read from headers carries
/// exactly the tenant, run id and project that the headers gave.
pub proof fn lemma_log_row_carries_enrichment(
    tenant: Seq<char>,
    run_header: Seq<char>,
    project_header: Seq<char>,
    e: LogEnrichment,
    i: LogInput,
    row: LogRow,
)
    requires
        e.tenant_id@ == tenant,
        headers_outcome(Some(run_header), Some(project_header)) == Ok::<
            (u64, Seq<char>),
            (ErrorCode, Seq<char>),
        >((e.run_id, e.project_name@)),
        log_row_built(row, i, e),
    ensures
        row.tenant_id@ == tenant,
        row.run_id == run_id_of(run_header),
        row.project_name@ == project_header,
{
}

} // verus!
