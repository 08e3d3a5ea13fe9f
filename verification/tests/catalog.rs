use cpu_report::catalog::{feature_catalog, BasicLeaf, CpuidReading, ExtendedLeaf, ProcessorLeaf};
use cpu_report::cpu_features::CpuFeatures;

const BASIC_NAMES: [&str; 26] = [
    "MMX", "SSE", "SSE2", "SSE3", "SSSE3", "SSE4.1", "SSE4.2", "POPCNT", "PCLMULQDQ", "NX",
    "RDTSCP", "TSC", "SMX", "VMX", "AES", "AVX", "F16C", "FMA", "XSAVE", "OSXSAVE", "FPU", "DE",
    "PSN", "MSR", "CX8", "APIC",
];

const EXTENDED_NAMES: [&str; 24] = [
    "AVX2", "BMI1", "BMI2", "ADX", "SHA", "RDRAND", "RDSEED", "INVPCID", "PREFETCHWT1", "UMIP",
    "FSGSBASE", "SMEP", "SMAP", "PKU", "AVX512F", "AVX512DQ", "AVX512IFMA", "AVX512PF",
    "AVX512ER", "AVX512CD", "AVX512BW", "AVX512VL", "AVX512VBMI", "AVX512VNNI",
];

const PROCESSOR_NAMES: [&str; 3] = ["PAE", "PSE36", "PGE"];

fn names(features: &[CpuFeatures]) -> Vec<String> {
    features.iter().map(|feature| feature.name.clone()).collect()
}

fn supported(features: &[CpuFeatures]) -> Vec<String> {
    features
        .iter()
        .filter(|feature| feature.supported)
        .map(|feature| feature.name.clone())
        .collect()
}

fn whole(basic: BasicLeaf, extended: ExtendedLeaf, processor: ProcessorLeaf) -> CpuidReading {
    CpuidReading { basic: Some(basic), extended: Some(extended), processor: Some(processor) }
}

fn all_names() -> Vec<String> {
    BASIC_NAMES
        .iter()
        .chain(EXTENDED_NAMES.iter())
        .chain(PROCESSOR_NAMES.iter())
        .map(|name| name.to_string())
        .collect()
}

#[test]
fn catalog_of_a_host_with_every_leaf() {
    let reading = whole(BasicLeaf::default(), ExtendedLeaf::default(), ProcessorLeaf::default());
    let features = feature_catalog(&reading);
    assert_eq!(features.len(), 53);
    assert_eq!(names(&features), all_names());
    assert!(features.iter().all(|feature| !feature.supported));
}

#[test]
fn catalog_of_a_host_without_any_leaf() {
    let features = feature_catalog(&CpuidReading::default());
    assert!(features.is_empty());
}

#[test]
fn catalog_of_each_leaf_alone() {
    let basic =
        feature_catalog(&CpuidReading { basic: Some(BasicLeaf::default()), ..Default::default() });
    assert_eq!(names(&basic), BASIC_NAMES);
    let extended = feature_catalog(&CpuidReading {
        extended: Some(ExtendedLeaf::default()),
        ..Default::default()
    });
    assert_eq!(names(&extended), EXTENDED_NAMES);
    let processor = feature_catalog(&CpuidReading {
        processor: Some(ProcessorLeaf::default()),
        ..Default::default()
    });
    assert_eq!(names(&processor), PROCESSOR_NAMES);
}

#[test]
fn catalog_without_the_extended_leaf() {
    let reading = CpuidReading {
        basic: Some(BasicLeaf::default()),
        extended: None,
        processor: Some(ProcessorLeaf::default()),
    };
    let features = feature_catalog(&reading);
    assert_eq!(features.len(), 29);
    let expected: Vec<String> = BASIC_NAMES
        .iter()
        .chain(PROCESSOR_NAMES.iter())
        .map(|name| name.to_string())
        .collect();
    assert_eq!(names(&features), expected);
}

#[test]
fn names_are_unique() {
    let reading = whole(BasicLeaf::default(), ExtendedLeaf::default(), ProcessorLeaf::default());
    let mut seen = names(&feature_catalog(&reading));
    seen.sort();
    seen.dedup();
    assert_eq!(seen.len(), 53);
}

#[test]
fn order_does_not_depend_on_the_flags() {
    let clear = whole(BasicLeaf::default(), ExtendedLeaf::default(), ProcessorLeaf::default());
    let set = whole(
        BasicLeaf { sse: true, avx: true, apic: true, ..Default::default() },
        ExtendedLeaf { avx2: true, avx512vnni: true, ..Default::default() },
        ProcessorLeaf { gib_pages: true, sse4a: true },
    );
    assert_eq!(names(&feature_catalog(&clear)), names(&feature_catalog(&set)));
}

#[test]
fn catalog_is_the_same_for_the_same_reading() {
    let reading = whole(
        BasicLeaf { mmx: true, fpu: true, ..Default::default() },
        ExtendedLeaf { sha: true, ..Default::default() },
        ProcessorLeaf::default(),
    );
    assert_eq!(feature_catalog(&reading), feature_catalog(&reading));
}

#[test]
fn each_basic_flag_is_reported_under_its_name() {
    let cases: [(BasicLeaf, &[&str]); 25] = [
        (BasicLeaf { mmx: true, ..Default::default() }, &["MMX"]),
        (BasicLeaf { sse: true, ..Default::default() }, &["SSE"]),
        (BasicLeaf { sse2: true, ..Default::default() }, &["SSE2"]),
        (BasicLeaf { sse3: true, ..Default::default() }, &["SSE3"]),
        (BasicLeaf { ssse3: true, ..Default::default() }, &["SSSE3"]),
        (BasicLeaf { sse41: true, ..Default::default() }, &["SSE4.1"]),
        (BasicLeaf { sse42: true, ..Default::default() }, &["SSE4.2"]),
        (BasicLeaf { popcnt: true, ..Default::default() }, &["POPCNT"]),
        (BasicLeaf { pclmulqdq: true, ..Default::default() }, &["PCLMULQDQ"]),
        (BasicLeaf { cnxtid: true, ..Default::default() }, &["NX"]),
        (BasicLeaf { tsc: true, ..Default::default() }, &["RDTSCP", "TSC"]),
        (BasicLeaf { smx: true, ..Default::default() }, &["SMX"]),
        (BasicLeaf { vmx: true, ..Default::default() }, &["VMX"]),
        (BasicLeaf { aesni: true, ..Default::default() }, &["AES"]),
        (BasicLeaf { avx: true, ..Default::default() }, &["AVX"]),
        (BasicLeaf { f16c: true, ..Default::default() }, &["F16C"]),
        (BasicLeaf { fma: true, ..Default::default() }, &["FMA"]),
        (BasicLeaf { xsave: true, ..Default::default() }, &["XSAVE"]),
        (BasicLeaf { oxsave: true, ..Default::default() }, &["OSXSAVE"]),
        (BasicLeaf { fpu: true, ..Default::default() }, &["FPU"]),
        (BasicLeaf { de: true, ..Default::default() }, &["DE"]),
        (BasicLeaf { psn: true, ..Default::default() }, &["PSN"]),
        (BasicLeaf { msr: true, ..Default::default() }, &["MSR"]),
        (BasicLeaf { cmpxchg8b: true, ..Default::default() }, &["CX8"]),
        (BasicLeaf { apic: true, ..Default::default() }, &["APIC"]),
    ];
    for (leaf, expected) in cases {
        let reading = whole(leaf, ExtendedLeaf::default(), ProcessorLeaf::default());
        assert_eq!(supported(&feature_catalog(&reading)), expected);
    }
}

#[test]
fn each_extended_flag_is_reported_under_its_name() {
    let cases: [(ExtendedLeaf, &str); 24] = [
        (ExtendedLeaf { avx2: true, ..Default::default() }, "AVX2"),
        (ExtendedLeaf { bmi1: true, ..Default::default() }, "BMI1"),
        (ExtendedLeaf { bmi2: true, ..Default::default() }, "BMI2"),
        (ExtendedLeaf { adx: true, ..Default::default() }, "ADX"),
        (ExtendedLeaf { sha: true, ..Default::default() }, "SHA"),
        (ExtendedLeaf { rdta: true, ..Default::default() }, "RDRAND"),
        (ExtendedLeaf { rdseed: true, ..Default::default() }, "RDSEED"),
        (ExtendedLeaf { invpcid: true, ..Default::default() }, "INVPCID"),
        (ExtendedLeaf { prefetchwt1: true, ..Default::default() }, "PREFETCHWT1"),
        (ExtendedLeaf { umip: true, ..Default::default() }, "UMIP"),
        (ExtendedLeaf { fsgsbase: true, ..Default::default() }, "FSGSBASE"),
        (ExtendedLeaf { smep: true, ..Default::default() }, "SMEP"),
        (ExtendedLeaf { smap: true, ..Default::default() }, "SMAP"),
        (ExtendedLeaf { pku: true, ..Default::default() }, "PKU"),
        (ExtendedLeaf { avx512f: true, ..Default::default() }, "AVX512F"),
        (ExtendedLeaf { avx512dq: true, ..Default::default() }, "AVX512DQ"),
        (ExtendedLeaf { avx512_ifma: true, ..Default::default() }, "AVX512IFMA"),
        (ExtendedLeaf { avx512pf: true, ..Default::default() }, "AVX512PF"),
        (ExtendedLeaf { avx512er: true, ..Default::default() }, "AVX512ER"),
        (ExtendedLeaf { avx512cd: true, ..Default::default() }, "AVX512CD"),
        (ExtendedLeaf { avx512bw: true, ..Default::default() }, "AVX512BW"),
        (ExtendedLeaf { avx512vl: true, ..Default::default() }, "AVX512VL"),
        (ExtendedLeaf { avx512vbmi: true, ..Default::default() }, "AVX512VBMI"),
        (ExtendedLeaf { avx512vnni: true, ..Default::default() }, "AVX512VNNI"),
    ];
    for (leaf, expected) in cases {
        let reading = whole(BasicLeaf::default(), leaf, ProcessorLeaf::default());
        assert_eq!(supported(&feature_catalog(&reading)), vec![expected]);
    }
}

#[test]
fn each_processor_flag_is_reported_under_its_names() {
    let pages = whole(
        BasicLeaf::default(),
        ExtendedLeaf::default(),
        ProcessorLeaf { gib_pages: true, sse4a: false },
    );
    assert_eq!(supported(&feature_catalog(&pages)), vec!["PAE", "PGE"]);
    let sse4a = whole(
        BasicLeaf::default(),
        ExtendedLeaf::default(),
        ProcessorLeaf { gib_pages: false, sse4a: true },
    );
    assert_eq!(supported(&feature_catalog(&sse4a)), vec!["PSE36"]);
}

#[test]
fn a_missing_leaf_is_left_out_not_reported_as_unsupported() {
    let reading = CpuidReading {
        basic: Some(BasicLeaf { sse: true, ..Default::default() }),
        extended: None,
        processor: None,
    };
    let features = feature_catalog(&reading);
    assert_eq!(features.len(), 26);
    assert!(features.iter().all(|feature| feature.name != "AVX2" && feature.name != "PAE"));
    assert_eq!(supported(&features), vec!["SSE"]);
}
