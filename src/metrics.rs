//! Metrics: one input line carries several named values and becomes one row
//! per value. A value is held as the bit pattern of its IEEE-754 double.
use vstd::prelude::*;
use crate::config::METRICS_TABLE_NAME;
use crate::enrichment::{MetricEnrichment, headers_outcome, run_id_of};
use crate::error::{AppError, ErrorCode};
use crate::text::{blank, is_blank, log_group_from_log_name, log_group_of};

verus! {

/// A double is finite when its exponent bits are not all set.
pub open spec fn finite_bits(bits: u64) -> bool {
    (bits >> 52u64) & 0x7ffu64 != 0x7ffu64
}

/// How a non-finite double prints: `NaN`, `inf` or `-inf`.
pub open spec fn non_finite_text(bits: u64) -> Seq<char> {
    if bits & 0xf_ffff_ffff_ffffu64 != 0 {
        "NaN"@
    } else if bits >> 63u64 == 1 {
        "-inf"@
    } else {
        "inf"@
    }
}

/// One named value of a metrics line.
#[derive(Debug, Clone)]
pub struct MetricValue {
    pub name: String,
    pub bits: u64,
}

/// One metrics line as a client sends it.
#[derive(Debug, Clone)]
pub struct MetricInput {
    pub time: u64,
    pub step: u64,
    pub data: Vec<MetricValue>,
}

/// A value is accepted when its name is not blank and it is finite.
pub open spec fn metric_value_valid(m: MetricValue) -> bool {
    !is_blank(m.name@) && finite_bits(m.bits)
}

/// A metrics line is accepted when it has values and all of them are.
pub open spec fn metric_input_valid(i: MetricInput) -> bool {
    i.data@.len() > 0 && forall|j: int|
        0 <= j < i.data@.len() ==> metric_value_valid(#[trigger] i.data@[j])
}

/// The message for a rejected value.
pub open spec fn metric_value_error(m: MetricValue) -> Seq<char> {
    if is_blank(m.name@) {
        "metric name cannot be empty"@
    } else {
        "metric '"@ + m.name@ + "' has invalid value: "@ + non_finite_text(m.bits)
    }
}

/// One metric value with its log group and request context, as stored.
#[derive(Debug, Clone)]
pub struct MetricRow {
    pub time: u64,
    pub step: u64,
    pub log_group: String,
    pub log_name: String,
    pub value_bits: u64,
    pub tenant_id: String,
    pub run_id: u64,
    pub project_name: String,
}

/// `r` is the row of value `m` of a line with `time` and `step`, in context
/// `e`.
pub open spec fn metric_row_built(
    r: MetricRow,
    time: u64,
    step: u64,
    m: MetricValue,
    e: MetricEnrichment,
) -> bool {
    &&& r.time == time
    &&& r.step == step
    &&& r.log_group@ == log_group_of(m.name@)
    &&& r.log_name@ == m.name@
    &&& r.value_bits == m.bits
    &&& r.tenant_id@ == e.tenant_id@
    &&& r.run_id == e.run_id
    &&& r.project_name@ == e.project_name@
}

fn is_finite(bits: u64) -> (r: bool)
    ensures
        r == finite_bits(bits),
{
    (bits >> 52u64) & 0x7ffu64 != 0x7ffu64
}

fn non_finite_str(bits: u64) -> (r: &'static str)
    ensures
        r@ == non_finite_text(bits),
{
    if bits & 0xf_ffff_ffff_ffffu64 != 0 {
        "NaN"
    } else if bits >> 63u64 == 1 {
        "-inf"
    } else {
        "inf"
    }
}

impl MetricInput {
    /// Rejects a line with no values, and otherwise reports the first value
    /// whose name is blank or which is not finite.
    pub fn validate(&self) -> (r: Result<(), AppError>)
        ensures
            r is Ok <==> metric_input_valid(*self),
            r is Err ==> r->Err_0.code == ErrorCode::InvalidMetricFormat,
            self.data@.len() == 0 ==> r is Err && r->Err_0.message@
                == "'data' field cannot be empty"@,
            r is Err && self.data@.len() > 0 ==> exists|j: int|
                0 <= j < self.data@.len() && !metric_value_valid(#[trigger] self.data@[j])
                    && (forall|k: int| 0 <= k < j ==> metric_value_valid(self.data@[k]))
                    && r->Err_0.message@ == metric_value_error(self.data@[j]),
    {
        if self.data.len() == 0 {
            return Err(
                AppError::new(
                    ErrorCode::InvalidMetricFormat,
                    String::from_str("'data' field cannot be empty"),
                ),
            );
        }
        let mut i: usize = 0;
        while i < self.data.len()
            invariant
                i <= self.data@.len(),
                forall|k: int| 0 <= k < i ==> metric_value_valid(#[trigger] self.data@[k]),
            decreases self.data@.len() - i,
        {
            let m = &self.data[i];
            if blank(m.name.as_str()) {
                return Err(
                    AppError::new(
                        ErrorCode::InvalidMetricFormat,
                        String::from_str("metric name cannot be empty"),
                    ),
                );
            }
            if !is_finite(m.bits) {
                let mut message = String::from_str("metric '");
                message.append(m.name.as_str());
                message.append("' has invalid value: ");
                message.append(non_finite_str(m.bits));
                return Err(AppError::new(ErrorCode::InvalidMetricFormat, message));
            }
            i += 1;
        }
        Ok(())
    }

    /// The rows of a metrics line: one per value, in the order of the values,
    /// when the line is valid.
    pub fn into_rows(self, enrichment: MetricEnrichment) -> (r: Result<Vec<MetricRow>, AppError>)
        ensures
            r is Ok <==> metric_input_valid(self),
            r is Err ==> r->Err_0.code == ErrorCode::InvalidMetricFormat,
            r is Ok ==> r->Ok_0@.len() == self.data@.len() && forall|j: int|
                0 <= j < self.data@.len() ==> metric_row_built(
                    #[trigger] r->Ok_0@[j],
                    self.time,
                    self.step,
                    self.data@[j],
                    enrichment,
                ),
    {
        self.validate()?;
        let mut rows: Vec<MetricRow> = Vec::new();
        let mut i: usize = 0;
        while i < self.data.len()
            invariant
                i <= self.data@.len(),
                rows@.len() == i,
                forall|k: int|
                    0 <= k < i ==> metric_row_built(
                        #[trigger] rows@[k],
                        self.time,
                        self.step,
                        self.data@[k],
                        enrichment,
                    ),
            decreases self.data@.len() - i,
        {
            let m = &self.data[i];
            let row = MetricRow {
                time: self.time,
                step: self.step,
                log_group: log_group_from_log_name(m.name.as_str()),
                log_name: m.name.clone(),
                value_bits: m.bits,
                tenant_id: enrichment.tenant_id.clone(),
                run_id: enrichment.run_id,
                project_name: enrichment.project_name.clone(),
            };
            rows.push(row);
            i += 1;
        }
        Ok(rows)
    }
}

impl MetricRow {
    /// The row of the first value of a valid line.
    pub fn from(input: MetricInput, enrichment: MetricEnrichment) -> (r: Result<MetricRow, AppError>)
        ensures
            r is Ok <==> metric_input_valid(input),
            r is Err ==> r->Err_0.code == ErrorCode::InvalidMetricFormat,
            r is Ok ==> metric_row_built(r->Ok_0, input.time, input.step, input.data@[0], enrichment),
    {
        input.validate()?;
        let m = &input.data[0];
        Ok(
            MetricRow {
                time: input.time,
                step: input.step,
                log_group: log_group_from_log_name(m.name.as_str()),
                log_name: m.name.clone(),
                value_bits: m.bits,
                tenant_id: enrichment.tenant_id,
                run_id: enrichment.run_id,
                project_name: enrichment.project_name,
            },
        )
    }

    /// The table metric rows are written to.
    pub fn table_name() -> (r: &'static str)
        ensures
            r@ == METRICS_TABLE_NAME@,
    {
        METRICS_TABLE_NAME
    }
}

/// Rows built from a line in the context read from headers carry exactly the
/// tenant, run id and project that the headers gave.
pub proof fn lemma_metric_rows_carry_enrichment(
    tenant: Seq<char>,
    run_header: Seq<char>,
    project_header: Seq<char>,
    e: MetricEnrichment,
    i: MetricInput,
    rows: Seq<MetricRow>,
)
    requires
        e.tenant_id@ == tenant,
        headers_outcome(Some(run_header), Some(project_header)) == Ok::<
            (u64, Seq<char>),
            (ErrorCode, Seq<char>),
        >((e.run_id, e.project_name@)),
        rows.len() == i.data@.len(),
        forall|j: int|
            0 <= j < rows.len() ==> metric_row_built(#[trigger] rows[j], i.time, i.step, i.data@[j], e),
    ensures
        forall|j: int|
            0 <= j < rows.len() ==> (#[trigger] rows[j]).tenant_id@ == tenant && rows[j].run_id
                == run_id_of(run_header) && rows[j].project_name@ == project_header,
{
}

} // verus!
