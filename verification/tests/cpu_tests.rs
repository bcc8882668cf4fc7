use gjallarhorn::cpu::{cpu_detail, CpuFacts};
use gjallarhorn::monitor::{SystemMonitor, SystemReading};

const TABLE: &str = "processor\t: 0\nvendor_id\t: GenuineIntel\ncpu family\t: 6\nmodel\t\t: 158\nmodel name\t: Intel(R) Core(TM) i7-8700K CPU @ 3.70GHz\nstepping\t: 10\ncache size\t: 12288 KB\ncpu cores\t: 6\nflags\t\t: fpu vme sse4_2 avx avx2 aes vmx\nbugs\t\t: spectre\n\nprocessor\t: 1\nvendor_id\t: Other\nmodel name\t: Second\ncpu cores\t: 99\n";

fn facts(table: &str) -> CpuFacts {
    CpuFacts {
        cpuinfo: table.to_string(),
        frequency_current: 3.7f32.to_bits(),
        frequency_max: 4.7f32.to_bits(),
        frequency_min: 0.8f32.to_bits(),
        cache_l1d: Some("32K\n".to_string()),
        cache_l1i: Some("32K\n".to_string()),
        cache_l2: None,
        architecture: "x86_64".to_string(),
    }
}

#[test]
fn record_is_read_from_the_first_processor_of_the_table() {
    let d = cpu_detail(&facts(TABLE), 12);
    assert_eq!(d.name, "Intel(R) Core(TM) i7-8700K CPU @ 3.70GHz");
    assert_eq!(d.vendor, "GenuineIntel");
    assert_eq!(d.architecture, "x86_64");
    assert_eq!(d.cores_physical, 6);
    assert_eq!(d.cores_logical, 12);
    assert_eq!(d.frequency_current, 3.7f32.to_bits());
    assert_eq!(d.frequency_max, 4.7f32.to_bits());
    assert_eq!(d.frequency_min, 0.8f32.to_bits());
    assert_eq!(d.cache_l1d, "32K");
    assert_eq!(d.cache_l1i, "32K");
    assert_eq!(d.cache_l2, "N/A");
    assert_eq!(d.cache_l3, "12288 KB");
    assert_eq!(d.virtualization, "VT-x (Intel)");
    assert_eq!(d.flags, "SSE4_2, AVX, AVX2, AES");
}

#[test]
fn empty_table_gives_the_fallbacks() {
    let d = cpu_detail(&facts(""), 4);
    assert_eq!(d.name, "Unknown Processor");
    assert_eq!(d.vendor, "Unknown");
    assert_eq!(d.cores_physical, 4);
    assert_eq!(d.cores_logical, 4);
    assert_eq!(d.cache_l3, "N/A");
    assert_eq!(d.virtualization, "Not detected");
    assert_eq!(d.flags, "Standard");
}

#[test]
fn amd_table() {
    let table = "vendor_id : AuthenticAMD\nmodel name : AMD Ryzen 7 : 5800X : extra\ncpu cores : many\ncache size : 512\nflags : svm sha_ni avx512f\n";
    let d = cpu_detail(&facts(table), 16);
    assert_eq!(d.vendor, "AuthenticAMD");
    assert_eq!(d.name, "AMD Ryzen 7");
    assert_eq!(d.cores_physical, 16);
    assert_eq!(d.cache_l3, "512 KB");
    assert_eq!(d.virtualization, "AMD-V (AMD)");
    assert_eq!(d.flags, "AVX, AVX512F, SHA_NI");
}

#[test]
fn lines_without_value_or_number() {
    let table = "vendor_id\nmodel name :\ncache size : KB\ncpu cores : 0\nflags\n";
    let d = cpu_detail(&facts(table), 2);
    assert_eq!(d.vendor, "Unknown");
    assert_eq!(d.name, "");
    assert_eq!(d.cache_l3, "N/A");
    assert_eq!(d.cores_physical, 0);
    assert_eq!(d.flags, "Standard");
}

#[test]
fn monitor_supplies_the_logical_core_count() {
    let monitor = SystemMonitor::new(
        1000,
        SystemReading {
            cpu_usage: vec![0, 0, 0],
            memory_used: 0,
            memory_total: 0,
            memory_percent: 0,
            gpus: None,
            interfaces: vec![],
            disks: vec![],
        },
    );
    let d = monitor.get_cpu_detailed_info(&facts(""));
    assert_eq!(d.cores_logical, 3);
    assert_eq!(d.cores_physical, 3);
}
