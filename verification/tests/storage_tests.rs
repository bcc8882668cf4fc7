use gjallarhorn::storage::{
    capacity_bytes, describe_device, failure_findings, firmware_version,
    get_storage_detailed_info_headless, health_status, interface_type, read_or_unknown,
    read_smart_report, run_findings, skips_device, smart_findings, solid_state, storage_detail,
    BlockDeviceProbe, SmartFindings, SmartReport, SmartRun,
};

fn probe(name: &str, smart: SmartRun) -> BlockDeviceProbe {
    BlockDeviceProbe {
        device_name: name.to_string(),
        is_partition: false,
        size: Some("976773168\n".to_string()),
        model: Some("WDC WD5000\n".to_string()),
        rotational: Some("1\n".to_string()),
        serial: Some(" SER123 \n".to_string()),
        revision: Some("1.0\n".to_string()),
        firmware_revision: None,
        smart,
    }
}

fn finished(success: bool, stdout: &str, stderr: &str) -> SmartRun {
    SmartRun::Finished { success, stdout: stdout.to_string(), stderr: stderr.to_string() }
}

#[test]
fn loop_ram_and_optical_devices_are_skipped() {
    for name in ["loop0", "loop12", "ram0", "sr0", "srx"] {
        assert!(skips_device(name), "{}", name);
        assert!(storage_detail(&probe(name, SmartRun::NotStarted)).is_none());
    }
    for name in ["sda", "nvme0n1", "vda", "mmcblk0", "dm-0", "zram0", "lo", "s"] {
        assert!(!skips_device(name), "{}", name);
    }
}

#[test]
fn partitions_are_skipped() {
    let mut p = probe("sda1", SmartRun::NotStarted);
    p.is_partition = true;
    assert!(storage_detail(&p).is_none());
}

#[test]
fn interface_type_follows_the_name() {
    assert_eq!(interface_type("nvme0n1"), "NVMe");
    assert_eq!(interface_type("sda"), "SATA");
    assert_eq!(interface_type("vdb"), "VirtIO");
    assert_eq!(interface_type("mmcblk0"), "Unknown");
    assert_eq!(interface_type(""), "Unknown");
}

#[test]
fn capacity_is_sectors_times_512() {
    assert_eq!(capacity_bytes(&Some("976773168\n".to_string())), 976773168 * 512);
    assert_eq!(capacity_bytes(&Some("  8 ".to_string())), 4096);
    assert_eq!(capacity_bytes(&Some("0".to_string())), 0);
    assert_eq!(capacity_bytes(&Some("".to_string())), 0);
    assert_eq!(capacity_bytes(&Some("12 34".to_string())), 0);
    assert_eq!(capacity_bytes(&Some("-4".to_string())), 0);
    assert_eq!(capacity_bytes(&None), 0);
    assert_eq!(
        capacity_bytes(&Some("36028797018963968".to_string())),
        36028797018963968u64.wrapping_mul(512)
    );
    assert_eq!(
        capacity_bytes(&Some("36028797018963969".to_string())),
        36028797018963969u64.wrapping_mul(512)
    );
}

#[test]
fn solid_state_unless_rotational_flag_says_otherwise() {
    assert!(solid_state(&None));
    assert!(solid_state(&Some("0\n".to_string())));
    assert!(!solid_state(&Some("1\n".to_string())));
    assert!(!solid_state(&Some("7".to_string())));
    assert!(solid_state(&Some("yes".to_string())));
    assert!(solid_state(&Some("256".to_string())));
    assert!(solid_state(&Some("".to_string())));
}

#[test]
fn read_or_unknown_trims_or_falls_back() {
    assert_eq!(read_or_unknown(&Some("  WDC \n".to_string())), "WDC");
    assert_eq!(read_or_unknown(&Some("\n".to_string())), "");
    assert_eq!(read_or_unknown(&None), "Unknown");
}

#[test]
fn firmware_of_nvme_falls_back_to_firmware_revision() {
    let fw = Some(" 2B2Q \n".to_string());
    assert_eq!(firmware_version("nvme0n1", &None, &fw), "2B2Q");
    assert_eq!(firmware_version("nvme0n1", &Some("Unknown".to_string()), &fw), "2B2Q");
    assert_eq!(firmware_version("nvme0n1", &Some("1.0\n".to_string()), &fw), "1.0");
    assert_eq!(firmware_version("nvme0n1", &None, &None), "Unknown");
    assert_eq!(firmware_version("sda", &None, &fw), "Unknown");
    assert_eq!(firmware_version("sda", &Some("AB\n".to_string()), &fw), "AB");
}

#[test]
fn report_is_read_from_json() {
    let text = "{\"serial_number\":\"S1\",\"firmware_version\":\"F1\",\"smart_status\":{\"passed\":true},\"nvme_smart_health_information_log\":{\"critical_warning\":3}}";
    let report = read_smart_report(text).expect("a report");
    assert_eq!(report.serial_number, Some("S1".to_string()));
    assert_eq!(report.firmware_version, Some("F1".to_string()));
    assert_eq!(report.passed, Some(true));
    assert_eq!(report.critical_warning, Some(3));
    let bare = read_smart_report("{}").expect("a report");
    assert_eq!(bare.serial_number, None);
    assert_eq!(bare.firmware_version, None);
    assert_eq!(bare.passed, None);
    assert_eq!(bare.critical_warning, None);
    let odd = read_smart_report(
        "{\"serial_number\":5,\"smart_status\":{\"passed\":\"yes\"},\"nvme_smart_health_information_log\":{\"critical_warning\":-1}}",
    )
    .expect("a report");
    assert_eq!(odd.serial_number, None);
    assert_eq!(odd.passed, None);
    assert_eq!(odd.critical_warning, None);
    let list = read_smart_report("[1,2]").expect("a report");
    assert_eq!(list.passed, None);
    assert!(read_smart_report("smartctl 7.2").is_none());
    assert!(read_smart_report("").is_none());
}

fn report(passed: Option<bool>, warning: Option<u64>) -> SmartReport {
    SmartReport { serial_number: None, firmware_version: None, passed, critical_warning: warning }
}

#[test]
fn verdict_of_a_report() {
    assert_eq!(health_status(&report(Some(true), None)), "Passed");
    assert_eq!(health_status(&report(Some(false), None)), "Failed");
    assert_eq!(health_status(&report(Some(false), Some(0))), "Failed");
    assert_eq!(health_status(&report(Some(true), Some(4))), "Passed");
    assert_eq!(health_status(&report(None, Some(0))), "Passed");
    assert_eq!(health_status(&report(None, Some(1))), "Warning");
    assert_eq!(health_status(&report(None, None)), "Unknown");
}

#[test]
fn findings_of_a_report_carry_serial_and_firmware() {
    let f = smart_findings(SmartReport {
        serial_number: Some("S".to_string()),
        firmware_version: None,
        passed: Some(true),
        critical_warning: None,
    });
    assert_eq!(f.serial_number, Some("S".to_string()));
    assert_eq!(f.firmware_version, None);
    assert_eq!(f.health_status, "Passed");
}

#[test]
fn failed_run_tells_when_elevation_is_required() {
    let f = failure_findings("Smartctl open device: /dev/sda failed: Permission denied\n");
    assert_eq!(f.health_status, "Root required");
    assert_eq!(f.serial_number, None);
    assert_eq!(failure_findings("some other error").health_status, "Unknown");
    assert_eq!(failure_findings("permission denied").health_status, "Unknown");
}

#[test]
fn findings_of_each_kind_of_run() {
    assert_eq!(run_findings(&SmartRun::NotStarted).health_status, "Smartctl not found");
    assert_eq!(
        run_findings(&finished(true, "{\"smart_status\":{\"passed\":false}}", "")).health_status,
        "Failed"
    );
    assert_eq!(run_findings(&finished(true, "no json", "Permission denied")).health_status, "Unknown");
    assert_eq!(
        run_findings(&finished(false, "{\"smart_status\":{\"passed\":true}}", "Permission denied"))
            .health_status,
        "Root required"
    );
    assert_eq!(
        run_findings(&finished(false, "{\"smart_status\":{\"passed\":true}}", "")).health_status,
        "Unknown"
    );
}

#[test]
fn record_of_a_disk_without_health_tool() {
    let d = storage_detail(&probe("sda", SmartRun::NotStarted)).expect("a disk");
    assert_eq!(d.device_name, "sda");
    assert_eq!(d.model, "WDC WD5000");
    assert_eq!(d.capacity_bytes, 976773168 * 512);
    assert_eq!(d.interface_type, "SATA");
    assert!(!d.is_ssd);
    assert_eq!(d.serial_number, "SER123");
    assert_eq!(d.firmware_version, "1.0");
    assert_eq!(d.health_status, "Smartctl not found");
}

#[test]
fn report_overrides_serial_and_firmware() {
    let text = "{\"serial_number\":\"REAL\",\"firmware_version\":\"9.9\",\"nvme_smart_health_information_log\":{\"critical_warning\":0}}";
    let d = storage_detail(&probe("nvme0n1", finished(true, text, ""))).expect("a disk");
    assert_eq!(d.serial_number, "REAL");
    assert_eq!(d.firmware_version, "9.9");
    assert_eq!(d.health_status, "Passed");
    assert_eq!(d.interface_type, "NVMe");
}

#[test]
fn describe_device_with_given_findings() {
    let mut p = probe("vda", SmartRun::NotStarted);
    p.model = None;
    p.size = None;
    p.rotational = None;
    p.serial = None;
    p.revision = None;
    let d = describe_device(
        &p,
        SmartFindings {
            serial_number: None,
            firmware_version: Some("fw".to_string()),
            health_status: "Warning".to_string(),
        },
    );
    assert_eq!(d.model, "Unknown");
    assert_eq!(d.capacity_bytes, 0);
    assert_eq!(d.interface_type, "VirtIO");
    assert!(d.is_ssd);
    assert_eq!(d.serial_number, "Unknown");
    assert_eq!(d.firmware_version, "fw");
    assert_eq!(d.health_status, "Warning");
}

#[test]
fn headless_list_keeps_disks_in_probe_order() {
    let mut part = probe("sdb1", SmartRun::NotStarted);
    part.is_partition = true;
    let list = get_storage_detailed_info_headless(&vec![
        probe("sdb", SmartRun::NotStarted),
        probe("loop3", SmartRun::NotStarted),
        part,
        probe("nvme0n1", finished(false, "", "Permission denied")),
    ]);
    assert_eq!(list.len(), 2);
    assert_eq!(list[0].device_name, "sdb");
    assert_eq!(list[1].device_name, "nvme0n1");
    assert_eq!(list[1].health_status, "Root required");
    assert_eq!(get_storage_detailed_info_headless(&vec![]).len(), 0);
}
