use cpu_report::catalog::{feature_catalog, BasicLeaf, CpuidReading, ExtendedLeaf, ProcessorLeaf};
use cpu_report::cpu_info::{cpu_info_from, CpuReading, QueryError};
use cpu_report::display::format_output;
use cpu_report::report::compose_report;

fn some_cpuid() -> CpuidReading {
    CpuidReading {
        basic: Some(BasicLeaf { sse: true, sse2: true, fpu: true, ..Default::default() }),
        extended: Some(ExtendedLeaf { avx2: true, ..Default::default() }),
        processor: Some(ProcessorLeaf { gib_pages: true, sse4a: false }),
    }
}

fn some_cpu() -> CpuReading {
    CpuReading {
        brand: "Example Processor 9000".to_string(),
        frequency: 2400,
        physical_cores: 8,
        logical_cores: 16,
    }
}

#[test]
fn zero_processors_end_the_run_without_a_report() {
    assert_eq!(compose_report(None, &some_cpuid()), Err(QueryError::NoProcessorFound));
    assert_eq!(compose_report(None, &CpuidReading::default()), Err(QueryError::NoProcessorFound));
}

#[test]
fn a_run_writes_the_report_of_its_readings() {
    let report = compose_report(Some(some_cpu()), &some_cpuid()).unwrap();
    let info = cpu_info_from(Some(some_cpu())).unwrap();
    let features = feature_catalog(&some_cpuid());
    assert_eq!(report, format_output(&info, &features));
    assert!(report.starts_with(
        "CPU INFORMATION\nCPU Name: Example Processor 9000\nCores: 8\nThreads: 16\nBase Speed: 2400 MHz\nBoost Speed: 2880 MHz (estimated)\n\nCPU FEATURES\nMMX         Supported: NO!\nSSE         Supported: YES!\n"
    ));
    assert!(report.ends_with(
        "PGE         Supported: YES!\n\nSUMMARY\nTotal functions: 53\nAvailable functions: 6\nUnavailable functions: 47\n"
    ));
}

#[test]
fn a_run_on_a_host_without_leaves() {
    let report = compose_report(Some(some_cpu()), &CpuidReading::default()).unwrap();
    assert!(report.ends_with(
        "\nCPU FEATURES\n\nSUMMARY\nTotal functions: 0\nAvailable functions: 0\nUnavailable functions: 0\n"
    ));
}
