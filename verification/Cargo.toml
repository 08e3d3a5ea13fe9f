[package]
name = "cpu_report"
version = "0.1.0"
edition = "2021"
publish = false

[dependencies]
anyhow = "1"
num_cpus = "1"
raw-cpuid = "11"
sysinfo = { version = "0.30", default-features = false }
