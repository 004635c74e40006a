//! Generic data points: one row per input line.
use vstd::prelude::*;
use crate::config::DATA_TABLE_NAME;
use crate::enrichment::{DataEnrichment, headers_outcome, run_id_of};
use crate::error::{AppError, ErrorCode};
use crate::stream::SingleRowInput;
use crate::text::{blank, is_blank, log_group_from_log_name, log_group_of};

verus! {

/// One data point as a client sends it.
#[derive(Debug, Clone)]
pub struct DataInput {
    pub time: u64,
    pub data: String,
    pub step: u64,
    pub data_type: String,
    pub log_name: String,
}

/// A data point is accepted when neither its type nor its log name is blank.
pub open spec fn data_input_valid(i: DataInput) -> bool {
    !is_blank(i.data_type@) && !is_blank(i.log_name@)
}

/// The message of the error a data point is rejected with.
pub open spec fn data_input_error(i: DataInput) -> Seq<char> {
    if is_blank(i.data_type@) {
        "'dataType' field cannot be empty"@
    } else {
        "'logName' field cannot be empty"@
    }
}

/// A data point with its log group and request context, as stored.
#[derive(Debug, Clone)]
pub struct DataRow {
    pub time: u64,
    pub data: String,
    pub step: u64,
    pub data_type: String,
    pub log_group: String,
    pub log_name: String,
    pub tenant_id: String,
    pub run_id: u64,
    pub project_name: String,
}

/// `r` holds the fields of `i`, the log group of its log name and the
/// context `e`.
pub open spec fn data_row_built(r: DataRow, i: DataInput, e: DataEnrichment) -> bool {
    &&& r.time == i.time
    &&& r.data@ == i.data@
    &&& r.step == i.step
    &&& r.data_type@ == i.data_type@
    &&& r.log_group@ == log_group_of(i.log_name@)
    &&& r.log_name@ == i.log_name@
    &&& r.tenant_id@ == e.tenant_id@
    &&& r.run_id == e.run_id
    &&& r.project_name@ == e.project_name@
}

impl DataInput {
    /// Rejects a data point whose type or log name is blank, checking the
    /// type first.
    pub fn validate(&self) -> (r: Result<(), AppError>)
        ensures
            r is Ok <==> data_input_valid(*self),
            r is Err ==> r->Err_0.code == ErrorCode::InvalidLogFormat && r->Err_0.message@
                == data_input_error(*self),
    {
        if blank(self.data_type.as_str()) {
            return Err(
                AppError::new(
                    ErrorCode::InvalidLogFormat,
                    String::from_str("'dataType' field cannot be empty"),
                ),
            );
        }
        if blank(self.log_name.as_str()) {
            return Err(
                AppError::new(
                    ErrorCode::InvalidLogFormat,
                    String::from_str("'logName' field cannot be empty"),
                ),
            );
        }
        Ok(())
    }

    /// The rows of a data point: exactly one when it is valid.
    pub fn into_rows(self, enrichment: DataEnrichment) -> (r: Result<Vec<DataRow>, AppError>)
        ensures
            r is Ok <==> data_input_valid(self),
            r is Ok ==> r->Ok_0@.len() == 1 && data_row_built(r->Ok_0@[0], self, enrichment),
            r is Err ==> r->Err_0.code == ErrorCode::InvalidLogFormat,
    {
        let row = DataRow::from(self, enrichment)?;
        Ok(vec![row])
    }
}

impl SingleRowInput for DataInput {}

impl DataRow {
    /// Validates `input`, derives its log group and attaches the request
    /// context.
    pub fn from(input: DataInput, enrichment: DataEnrichment) -> (r: Result<DataRow, AppError>)
        ensures
            r is Ok <==> data_input_valid(input),
            r is Ok ==> data_row_built(r->Ok_0, input, enrichment),
            r is Err ==> r->Err_0.code == ErrorCode::InvalidLogFormat && r->Err_0.message@
                == data_input_error(input),
    {
        input.validate()?;
        let log_group = log_group_from_log_name(input.log_name.as_str());
        Ok(
            DataRow {
                time: input.time,
                data: input.data,
                step: input.step,
                data_type: input.data_type,
                log_group,
                log_name: input.log_name,
                tenant_id: enrichment.tenant_id,
                run_id: enrichment.run_id,
                project_name: enrichment.project_name,
            },
        )
    }

    /// The table data rows are written to.
    pub fn table_name() -> (r: &'static str)
        ensures
            r@ == DATA_TABLE_NAME@,
    {
        DATA_TABLE_NAME
    }
}

/// A row built from an input in the context read from headers carries
/// exactly the tenant, run id and project that the headers gave.
pub proof fn lemma_data_row_carries_enrichment(
    tenant: Seq<char>,
    run_header: Seq<char>,
    project_header: Seq<char>,
    e: DataEnrichment,
    i: DataInput,
    row: DataRow,
)
    requires
        e.tenant_id@ == tenant,
        headers_outcome(Some(run_header), Some(project_header)) == Ok::<
            (u64, Seq<char>),
            (ErrorCode, Seq<char>),
        >((e.run_id, e.project_name@)),
        data_row_built(row, i, e),
    ensures
        row.tenant_id@ == tenant,
        row.run_id == run_id_of(run_header),
        row.project_name@ == project_header,
{
}

} // verus!
