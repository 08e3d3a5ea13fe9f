use cpu_report::cpu_features::CpuFeatures;
use cpu_report::cpu_info::CpuInfo;
use cpu_report::display::{count_available, format_output, max_name_width};

fn test_cpu() -> CpuInfo {
    CpuInfo {
        name: "Test CPU".to_string(),
        physical_cores: 4,
        logical_cores: 8,
        base_speed: 3000,
        boost_speed: 3600,
    }
}

fn two_features() -> Vec<CpuFeatures> {
    vec![CpuFeatures::new("SSE", true), CpuFeatures::new("AVX512F", false)]
}

/// The lines between the heading `heading` and the next empty line.
fn section(report: &str, heading: &str) -> Vec<String> {
    report
        .lines()
        .skip_while(|line| *line != heading)
        .skip(1)
        .take_while(|line| !line.is_empty())
        .map(|line| line.to_string())
        .collect()
}

#[test]
fn end_to_end_summary() {
    let report = format_output(&test_cpu(), &two_features());
    let summary = section(&report, "SUMMARY");
    assert_eq!(
        summary,
        vec!["Total functions: 2", "Available functions: 1", "Unavailable functions: 1"]
    );
}

#[test]
fn end_to_end_whole_report() {
    let report = format_output(&test_cpu(), &two_features());
    let expected = "CPU INFORMATION\n\
                    CPU Name: Test CPU\n\
                    Cores: 4\n\
                    Threads: 8\n\
                    Base Speed: 3000 MHz\n\
                    Boost Speed: 3600 MHz (estimated)\n\
                    \n\
                    CPU FEATURES\n\
                    SSE     Supported: YES!\n\
                    AVX512F Supported: NO!\n\
                    \n\
                    SUMMARY\n\
                    Total functions: 2\n\
                    Available functions: 1\n\
                    Unavailable functions: 1\n";
    assert_eq!(report, expected);
}

#[test]
fn identity_section_lines() {
    let report = format_output(&test_cpu(), &two_features());
    assert_eq!(
        section(&report, "CPU INFORMATION"),
        vec![
            "CPU Name: Test CPU",
            "Cores: 4",
            "Threads: 8",
            "Base Speed: 3000 MHz",
            "Boost Speed: 3600 MHz (estimated)",
        ]
    );
}

#[test]
fn report_of_an_empty_catalog() {
    let report = format_output(&test_cpu(), &[]);
    let expected = "CPU INFORMATION\n\
                    CPU Name: Test CPU\n\
                    Cores: 4\n\
                    Threads: 8\n\
                    Base Speed: 3000 MHz\n\
                    Boost Speed: 3600 MHz (estimated)\n\
                    \n\
                    CPU FEATURES\n\
                    \n\
                    SUMMARY\n\
                    Total functions: 0\n\
                    Available functions: 0\n\
                    Unavailable functions: 0\n";
    assert_eq!(report, expected);
}

#[test]
fn report_writes_the_boost_speed_it_is_given() {
    let mut cpu = test_cpu();
    cpu.boost_speed = 4100;
    let report = format_output(&cpu, &two_features());
    assert!(report.contains("Base Speed: 3000 MHz\nBoost Speed: 4100 MHz (estimated)\n"));
}

#[test]
fn report_of_large_numbers() {
    let cpu = CpuInfo {
        name: String::new(),
        physical_cores: usize::MAX,
        logical_cores: 0,
        base_speed: u64::MAX,
        boost_speed: 10,
    };
    let report = format_output(&cpu, &[]);
    assert!(report.starts_with(&format!(
        "CPU INFORMATION\nCPU Name: \nCores: {}\nThreads: 0\nBase Speed: 18446744073709551615 MHz\nBoost Speed: 10 MHz (estimated)\n",
        usize::MAX
    )));
}

#[test]
fn features_keep_their_order() {
    let features = vec![
        CpuFeatures::new("TSC", true),
        CpuFeatures::new("AES", false),
        CpuFeatures::new("MMX", true),
    ];
    let report = format_output(&test_cpu(), &features);
    assert_eq!(
        section(&report, "CPU FEATURES"),
        vec!["TSC Supported: YES!", "AES Supported: NO!", "MMX Supported: YES!"]
    );
}

#[test]
fn marker_stands_in_one_column() {
    let features = vec![
        CpuFeatures::new("DE", true),
        CpuFeatures::new("PREFETCHWT1", false),
        CpuFeatures::new("SSE4.1", true),
        CpuFeatures::new("AVX512VBMI", false),
    ];
    let width = max_name_width(&features);
    assert_eq!(width, 11);
    let report = format_output(&test_cpu(), &features);
    let lines = section(&report, "CPU FEATURES");
    assert_eq!(lines.len(), features.len());
    for (line, feature) in lines.iter().zip(features.iter()) {
        assert_eq!(line.find("Supported:"), Some(width + 1));
        assert!(line.starts_with(&feature.name));
        assert!(line[feature.name.len()..width + 1].chars().all(|c| c == ' '));
    }
}

#[test]
fn marker_column_with_names_beyond_ascii() {
    let features = vec![CpuFeatures::new("é", true), CpuFeatures::new("ab", false)];
    assert_eq!(max_name_width(&features), 2);
    let report = format_output(&test_cpu(), &features);
    let lines = section(&report, "CPU FEATURES");
    assert_eq!(lines, vec!["é  Supported: YES!", "ab Supported: NO!"]);
    for line in &lines {
        let column = line.chars().collect::<Vec<char>>();
        let marker: String = column[3..13].iter().collect();
        assert_eq!(marker, "Supported:");
    }
}

#[test]
fn width_is_measured_in_encoded_bytes() {
    let features = vec![CpuFeatures::new("ééé", true), CpuFeatures::new("abcd", false)];
    assert_eq!(max_name_width(&features), 6);
    let report = format_output(&test_cpu(), &features);
    assert_eq!(
        section(&report, "CPU FEATURES"),
        vec!["ééé    Supported: YES!", "abcd   Supported: NO!"]
    );
}

#[test]
fn width_of_no_features_is_zero() {
    assert_eq!(max_name_width(&[]), 0);
}

#[test]
fn width_is_that_of_the_longest_name() {
    assert_eq!(max_name_width(&two_features()), 7);
    assert_eq!(max_name_width(&[CpuFeatures::new("", true)]), 0);
    assert_eq!(
        max_name_width(&[
            CpuFeatures::new("AVX512IFMA", true),
            CpuFeatures::new("NX", true),
            CpuFeatures::new("AVX512VNNI", false),
        ]),
        10
    );
}

#[test]
fn counts_add_up() {
    let features = vec![
        CpuFeatures::new("A", true),
        CpuFeatures::new("B", false),
        CpuFeatures::new("C", true),
        CpuFeatures::new("D", true),
        CpuFeatures::new("E", false),
    ];
    let available = count_available(&features);
    assert_eq!(available, 3);
    let report = format_output(&test_cpu(), &features);
    assert_eq!(
        section(&report, "SUMMARY"),
        vec!["Total functions: 5", "Available functions: 3", "Unavailable functions: 2"]
    );
}

#[test]
fn counts_of_all_and_none() {
    let all = vec![CpuFeatures::new("A", true), CpuFeatures::new("B", true)];
    let none = vec![CpuFeatures::new("A", false), CpuFeatures::new("B", false)];
    assert_eq!(count_available(&all), 2);
    assert_eq!(count_available(&none), 0);
    assert_eq!(count_available(&[]), 0);
    assert!(format_output(&test_cpu(), &all)
        .ends_with("Total functions: 2\nAvailable functions: 2\nUnavailable functions: 0\n"));
    assert!(format_output(&test_cpu(), &none)
        .ends_with("Total functions: 2\nAvailable functions: 0\nUnavailable functions: 2\n"));
}

#[test]
fn rendering_twice_gives_the_same_text() {
    let cpu = test_cpu();
    let features = two_features();
    assert_eq!(format_output(&cpu, &features), format_output(&cpu, &features));
}
