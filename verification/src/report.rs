//! A whole run: from what the platform reports to the text of the report.

use vstd::prelude::*;
use crate::catalog::{catalog_of, feature_catalog, CpuidReading};
use crate::cpu_info::{cpu_info_from, identity_of, read_cpu, read_cpuid, CpuReading, QueryError};
use crate::display::{format_output, report_text};

verus! {

/// What a run yields: the report of the processor and its catalog, or, where
/// the platform lists no processor, the error and no text at all.
pub open spec fn run_outcome(cpu: Option<CpuReading>, cpuid: CpuidReading) -> Result<
    Seq<char>,
    QueryError,
> {
    match cpu {
        Some(reading) => Ok(report_text(identity_of(reading), catalog_of(cpuid))),
        None => Err(QueryError::NoProcessorFound),
    }
}

/// The text of `result`, where it has one.
pub open spec fn outcome_of(result: Result<String, QueryError>) -> Result<Seq<char>, QueryError> {
    match result {
        Ok(text) => Ok(text@),
        Err(error) => Err(error),
    }
}

/// Writes the report from what the platform reported.
pub fn compose_report(cpu: Option<CpuReading>, cpuid: &CpuidReading) -> (result: Result<
    String,
    QueryError,
>)
    ensures
        outcome_of(result) == run_outcome(cpu, *cpuid),
{
    match cpu_info_from(cpu) {
        Ok(info) => {
            let features = feature_catalog(cpuid);
            Ok(format_output(&info, features.as_slice()))
        },
        Err(error) => Err(error),
    }
}

/// Queries the platform and writes the report. The processor's leaves are
/// read only once the platform has listed a processor. What comes back is the
/// outcome of a run on some reading of the host, whose core counts are at
/// least one.
pub fn generate_report() -> (result: Result<String, QueryError>)
    ensures
        exists|cpu: Option<CpuReading>, cpuid: CpuidReading|
            {
                &&& outcome_of(result) == #[trigger] run_outcome(cpu, cpuid)
                &&& cpu matches Some(reading) ==> reading.physical_cores >= 1
                    && reading.logical_cores >= 1
            },
{
    let cpu = read_cpu();
    if cpu.is_none() {
        let ghost no_leaves = CpuidReading { basic: None, extended: None, processor: None };
        assert(run_outcome(cpu, no_leaves) == outcome_of(Err(QueryError::NoProcessorFound)));
        return Err(QueryError::NoProcessorFound);
    }
    let cpuid = read_cpuid();
    let ghost seen = cpu;
    let result = compose_report(cpu, &cpuid);
    assert(outcome_of(result) == run_outcome(seen, cpuid));
    result
}

} // verus!
