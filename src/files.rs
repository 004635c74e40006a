//! File metadata: one row per file announced for upload.
use vstd::prelude::*;
use crate::config::FILES_TABLE_NAME;
use crate::enrichment::{FilesEnrichment, headers_outcome, run_id_of};
use crate::error::{AppError, ErrorCode};
use crate::stream::SingleRowInput;
use crate::text::{log_group_from_log_name, log_group_of};

verus! {

/// A file's metadata, with its type as an extension.
#[derive(Debug, Clone)]
pub struct FileInput {
    pub log_name: String,
    pub file_name: String,
    pub file_type: String,
    pub time: u64,
    pub step: u64,
    pub file_size: u64,
}

/// A file's metadata with its log group and request context, as stored.
#[derive(Debug, Clone)]
pub struct FilesRow {
    pub tenant_id: String,
    pub project_name: String,
    pub run_id: u64,
    pub time: u64,
    pub step: u64,
    pub log_group: String,
    pub log_name: String,
    pub file_name: String,
    pub file_type: String,
    pub file_size: u64,
}

/// `r` holds the fields of `i`, the log group of its log name and the
/// context `e`.
pub open spec fn files_row_built(r: FilesRow, i: FileInput, e: FilesEnrichment) -> bool {
    &&& r.tenant_id@ == e.tenant_id@
    &&& r.project_name@ == e.project_name@
    &&& r.run_id == e.run_id
    &&& r.time == i.time
    &&& r.step == i.step
    &&& r.log_group@ == log_group_of(i.log_name@)
    &&& r.log_name@ == i.log_name@
    &&& r.file_name@ == i.file_name@
    &&& r.file_type@ == i.file_type@
    &&& r.file_size == i.file_size
}

impl FileInput {
    /// File metadata needs no checks beyond its shape.
    pub fn validate(&self) -> (r: Result<(), AppError>)
        ensures
            r is Ok,
    {
        Ok(())
    }

    /// The rows of a file's metadata: always exactly one.
    pub fn into_rows(self, enrichment: FilesEnrichment) -> (r: Result<Vec<FilesRow>, AppError>)
        ensures
            r is Ok,
            r->Ok_0@.len() == 1 && files_row_built(r->Ok_0@[0], self, enrichment),
    {
        let row = FilesRow::from(self, enrichment)?;
        Ok(vec![row])
    }
}

impl SingleRowInput for FileInput {}

impl FilesRow {
    /// Derives the log group of `input` and attaches the request context.
    pub fn from(input: FileInput, enrichment: FilesEnrichment) -> (r: Result<FilesRow, AppError>)
        ensures
            r is Ok,
            files_row_built(r->Ok_0, input, enrichment),
    {
        input.validate()?;
        let log_group = log_group_from_log_name(input.log_name.as_str());
        Ok(
            FilesRow {
                tenant_id: enrichment.tenant_id,
                project_name: enrichment.project_name,
                run_id: enrichment.run_id,
                time: input.time,
                step: input.step,
                log_group,
                log_name: input.log_name,
                file_name: input.file_name,
                file_type: input.file_type,
                file_size: input.file_size,
            },
        )
    }

    /// The table file rows are written to.
    pub fn table_name() -> (r: &'static str)
        ensures
            r@ == FILES_TABLE_NAME@,
    {
        FILES_TABLE_NAME
    }
}

/// A row built from an input in the context read from headers carries
/// exactly the tenant, run id and project that the headers gave.
pub proof fn lemma_files_row_carries_enrichment(
    tenant: Seq<char>,
    run_header: Seq<char>,
    project_header: Seq<char>,
    e: FilesEnrichment,
    i: FileInput,
    row: FilesRow,
)
    requires
        e.tenant_id@ == tenant,
        headers_outcome(Some(run_header), Some(project_header)) == Ok::<
            (u64, Seq<char>),
            (ErrorCode, Seq<char>),
        >((e.run_id, e.project_name@)),
        files_row_built(row, i, e),
    ensures
        row.tenant_id@ == tenant,
        row.run_id == run_id_of(run_header),
        row.project_name@ == project_header,
{
}

} // verus!
