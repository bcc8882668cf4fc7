use gjallarhorn::system::{
    show_uptime, get_physical_disks, is_partition_name, physical_disk, static_info, BlockEntry, DiskLabel,
    GpuLabel, StaticFacts,
};

fn entry(name: &str, model: Option<&str>, size: Option<&str>) -> BlockEntry {
    BlockEntry {
        device_name: name.to_string(),
        model: model.map(|s| s.to_string()),
        size: size.map(|s| s.to_string()),
    }
}

#[test]
fn partitions_are_told_by_name() {
    assert_eq!(is_partition_name("nvme0n1"), Some(false));
    assert_eq!(is_partition_name("nvme0n1p1"), Some(true));
    assert_eq!(is_partition_name("nvme0n1p"), Some(false));
    assert_eq!(is_partition_name("nvme"), Some(false));
    assert_eq!(is_partition_name("sda"), Some(false));
    assert_eq!(is_partition_name("sda1"), Some(true));
    assert_eq!(is_partition_name("sd"), Some(false));
    assert_eq!(is_partition_name("vdb"), Some(false));
    assert_eq!(is_partition_name("vdb12"), Some(true));
    assert_eq!(is_partition_name("loop0"), None);
    assert_eq!(is_partition_name("zram0"), None);
    assert_eq!(is_partition_name("mmcblk0"), None);
    assert_eq!(is_partition_name(""), None);
}

#[test]
fn physical_disk_needs_a_size() {
    let d = physical_disk(&entry("sda", Some(" WDC \n"), Some("2048\n"))).expect("a disk");
    assert_eq!(d.name, "sda");
    assert_eq!(d.model, "WDC");
    assert_eq!(d.size_bytes, 2048 * 512);
    assert!(physical_disk(&entry("sda", Some("WDC"), Some("0\n"))).is_none());
    assert!(physical_disk(&entry("sda", Some("WDC"), None)).is_none());
    assert!(physical_disk(&entry("sda", Some("WDC"), Some("x"))).is_none());
    assert!(physical_disk(&entry("sda1", Some("WDC"), Some("2048"))).is_none());
    assert!(physical_disk(&entry("loop0", None, Some("2048"))).is_none());
    let nameless = physical_disk(&entry("vda", None, Some("8"))).expect("a disk");
    assert_eq!(nameless.model, "Unknown");
}

#[test]
fn physical_disks_are_sorted_by_name() {
    let disks = get_physical_disks(&vec![
        entry("sdb", Some("B"), Some("16")),
        entry("sda1", Some("A1"), Some("8")),
        entry("nvme0n1", Some("N"), Some("32")),
        entry("loop0", None, Some("8")),
        entry("sda", Some("A"), Some("8")),
        entry("sdc", Some("C"), Some("0")),
    ]);
    let names: Vec<&str> = disks.iter().map(|d| d.name.as_str()).collect();
    assert_eq!(names, vec!["nvme0n1", "sda", "sdb"]);
    assert_eq!(disks[0].size_bytes, 32 * 512);
    assert_eq!(disks[1].model, "A");
    assert_eq!(get_physical_disks(&vec![]).len(), 0);
}

fn facts() -> StaticFacts {
    StaticFacts {
        hostname: Some("box".to_string()),
        os_name: Some("Ubuntu".to_string()),
        os_version: Some("24.04".to_string()),
        kernel: Some("6.8.0".to_string()),
        cpu_brand: Some("Intel i7".to_string()),
        total_memory_gb: "31.3".to_string(),
        bios_version: Some(" F12 \n".to_string()),
        total_storage_gb: "931.5".to_string(),
        gpus: vec![
            Some(GpuLabel { name: Some("RTX 3080".to_string()), vram_gb: Some("10".to_string()) }),
            None,
            Some(GpuLabel { name: None, vram_gb: None }),
        ],
        cpu_frequency_ghz: Some("3.70".to_string()),
        cpu_arch: "x86_64".to_string(),
        board_vendor: Some("ASUS\n".to_string()),
        board_name: Some("PRIME Z390\n".to_string()),
        efi_present: true,
        disks: vec![
            DiskLabel { name: "nvme0n1".to_string(), model: "Samsung 970".to_string(), size_gb: "465.8".to_string() },
            DiskLabel { name: "sda".to_string(), model: "Unknown".to_string(), size_gb: "931.5".to_string() },
            DiskLabel { name: "sdb".to_string(), model: "".to_string(), size_gb: "1.0".to_string() },
        ],
    }
}

#[test]
fn descriptors_of_a_system_that_tells_everything() {
    let info = static_info(&facts(), 12);
    assert_eq!(info.hostname, "box");
    assert_eq!(info.os_name, "Ubuntu 24.04");
    assert_eq!(info.kernel, "6.8.0");
    assert_eq!(info.cpu_brand, "Intel i7");
    assert_eq!(info.cores, 12);
    assert_eq!(info.total_memory, "31.3 GB");
    assert_eq!(info.bios_version, "F12");
    assert_eq!(info.total_storage, "931.5 GB");
    assert_eq!(info.gpu_names, "RTX 3080 (10 GB), NVIDIA GPU 2");
    assert_eq!(info.cpu_frequency, "3.70 GHz");
    assert_eq!(info.cpu_arch, "x86_64");
    assert_eq!(info.motherboard, "ASUS PRIME Z390");
    assert_eq!(info.boot_mode, "UEFI");
    assert_eq!(
        info.individual_disks,
        "Samsung 970 (465.8 GB)\nsda (931.5 GB)\nsdb (1.0 GB)"
    );
}

#[test]
fn descriptors_of_a_system_that_tells_nothing() {
    let info = static_info(
        &StaticFacts {
            hostname: None,
            os_name: None,
            os_version: None,
            kernel: None,
            cpu_brand: None,
            total_memory_gb: "0.0".to_string(),
            bios_version: None,
            total_storage_gb: "0.0".to_string(),
            gpus: vec![],
            cpu_frequency_ghz: None,
            cpu_arch: "aarch64".to_string(),
            board_vendor: Some("ASUS".to_string()),
            board_name: None,
            efi_present: false,
            disks: vec![],
        },
        0,
    );
    assert_eq!(info.hostname, "Unknown");
    assert_eq!(info.os_name, "Unknown ");
    assert_eq!(info.kernel, "Unknown");
    assert_eq!(info.cpu_brand, "");
    assert_eq!(info.cores, 0);
    assert_eq!(info.total_memory, "0.0 GB");
    assert_eq!(info.bios_version, "Unknown");
    assert_eq!(info.gpu_names, "");
    assert_eq!(info.cpu_frequency, "N/A");
    assert_eq!(info.motherboard, "Unknown");
    assert_eq!(info.boot_mode, "Legacy BIOS");
    assert_eq!(info.individual_disks, "None detected");
}

#[test]
fn uptime_is_shown_in_days_hours_minutes() {
    assert_eq!(show_uptime(0), "0d 0h 0m");
    assert_eq!(show_uptime(59), "0d 0h 0m");
    assert_eq!(show_uptime(60), "0d 0h 1m");
    assert_eq!(show_uptime(86400 + 3600 * 5 + 60 * 42 + 17), "1d 5h 42m");
    assert_eq!(show_uptime(u64::MAX), "213503982334601d 7h 0m");
}
