//! Physical disks: from what was read in the device tree, and from a run of
//! the disk health tool, to one record per disk.
//!
//! Reading the device tree and running the tool is the caller's part. The
//! rules are here: which devices count, which fallback stands for a read
//! that failed, and how a health report turns into a verdict.

use crate::details::{storage_views, StorageDetailedInfo, StorageDetailedInfoView};
use crate::json::{
    flag_of, json_flag, json_nested_member, json_parse, json_parsed, json_text_member, json_tree,
    json_unsigned, member_of, nested_member_of, text_of, unsigned_of, JsonTree,
};
use crate::text::{
    contains, contains_text, copy_opt_text, equal_text, opt_text, parse_number, parsed_unsigned,
    starts_with, trim, trimmed,
};
use vstd::prelude::*;
use vstd::string::*;

verus! {

/// How a run of the disk health tool ended.
#[derive(Debug)]
pub enum SmartRun {
    /// The tool could not be started.
    NotStarted,
    /// The tool ran: whether it reported success, and what it wrote.
    Finished { success: bool, stdout: String, stderr: String },
}

/// The plain content of a [`SmartRun`].
pub enum SmartRunView {
    NotStarted,
    Finished { success: bool, stdout: Seq<char>, stderr: Seq<char> },
}

impl View for SmartRun {
    type V = SmartRunView;

    open spec fn view(&self) -> SmartRunView {
        match self {
            SmartRun::NotStarted => SmartRunView::NotStarted,
            SmartRun::Finished { success, stdout, stderr } => SmartRunView::Finished {
                success: *success,
                stdout: stdout@,
                stderr: stderr@,
            },
        }
    }
}

impl Clone for SmartRun {
    fn clone(&self) -> (copy: Self)
        ensures
            copy@ == self@,
    {
        match self {
            SmartRun::NotStarted => SmartRun::NotStarted,
            SmartRun::Finished { success, stdout, stderr } => SmartRun::Finished {
                success: *success,
                stdout: stdout.clone(),
                stderr: stderr.clone(),
            },
        }
    }
}

/// What was read about one block device. A text is `None` where the read
/// failed.
#[derive(Debug)]
pub struct BlockDeviceProbe {
    pub device_name: String,
    pub is_partition: bool,
    pub size: Option<String>,
    pub model: Option<String>,
    pub rotational: Option<String>,
    pub serial: Option<String>,
    pub revision: Option<String>,
    pub firmware_revision: Option<String>,
    pub smart: SmartRun,
}

/// The plain content of a [`BlockDeviceProbe`].
pub struct BlockDeviceProbeView {
    pub device_name: Seq<char>,
    pub is_partition: bool,
    pub size: Option<Seq<char>>,
    pub model: Option<Seq<char>>,
    pub rotational: Option<Seq<char>>,
    pub serial: Option<Seq<char>>,
    pub revision: Option<Seq<char>>,
    pub firmware_revision: Option<Seq<char>>,
    pub smart: SmartRunView,
}

impl View for BlockDeviceProbe {
    type V = BlockDeviceProbeView;

    open spec fn view(&self) -> BlockDeviceProbeView {
        BlockDeviceProbeView {
            device_name: self.device_name@,
            is_partition: self.is_partition,
            size: opt_text(self.size),
            model: opt_text(self.model),
            rotational: opt_text(self.rotational),
            serial: opt_text(self.serial),
            revision: opt_text(self.revision),
            firmware_revision: opt_text(self.firmware_revision),
            smart: self.smart@,
        }
    }
}

impl Clone for BlockDeviceProbe {
    fn clone(&self) -> (copy: Self)
        ensures
            copy@ == self@,
    {
        BlockDeviceProbe {
            device_name: self.device_name.clone(),
            is_partition: self.is_partition,
            size: copy_opt_text(&self.size),
            model: copy_opt_text(&self.model),
            rotational: copy_opt_text(&self.rotational),
            serial: copy_opt_text(&self.serial),
            revision: copy_opt_text(&self.revision),
            firmware_revision: copy_opt_text(&self.firmware_revision),
            smart: self.smart.clone(),
        }
    }
}

/// The plain content of each probe of a list.
pub open spec fn probe_views(list: Seq<BlockDeviceProbe>) -> Seq<BlockDeviceProbeView> {
    list.map_values(|item: BlockDeviceProbe| item@)
}

/// What the library reads in a report of the disk health tool.
#[derive(Debug)]
pub struct SmartReport {
    pub serial_number: Option<String>,
    pub firmware_version: Option<String>,
    pub passed: Option<bool>,
    pub critical_warning: Option<u64>,
}

/// The plain content of a [`SmartReport`].
pub struct SmartReportView {
    pub serial_number: Option<Seq<char>>,
    pub firmware_version: Option<Seq<char>>,
    pub passed: Option<bool>,
    pub critical_warning: Option<u64>,
}

impl View for SmartReport {
    type V = SmartReportView;

    open spec fn view(&self) -> SmartReportView {
        SmartReportView {
            serial_number: opt_text(self.serial_number),
            firmware_version: opt_text(self.firmware_version),
            passed: self.passed,
            critical_warning: self.critical_warning,
        }
    }
}

impl Clone for SmartReport {
    fn clone(&self) -> (copy: Self)
        ensures
            copy@ == self@,
    {
        SmartReport {
            serial_number: copy_opt_text(&self.serial_number),
            firmware_version: copy_opt_text(&self.firmware_version),
            passed: self.passed,
            critical_warning: self.critical_warning,
        }
    }
}

/// What one run of the disk health tool adds to a disk's record.
#[derive(Debug)]
pub struct SmartFindings {
    pub serial_number: Option<String>,
    pub firmware_version: Option<String>,
    pub health_status: String,
}

/// The plain content of a [`SmartFindings`].
pub struct SmartFindingsView {
    pub serial_number: Option<Seq<char>>,
    pub firmware_version: Option<Seq<char>>,
    pub health_status: Seq<char>,
}

impl View for SmartFindings {
    type V = SmartFindingsView;

    open spec fn view(&self) -> SmartFindingsView {
        SmartFindingsView {
            serial_number: opt_text(self.serial_number),
            firmware_version: opt_text(self.firmware_version),
            health_status: self.health_status@,
        }
    }
}

impl Clone for SmartFindings {
    fn clone(&self) -> (copy: Self)
        ensures
            copy@ == self@,
    {
        SmartFindings {
            serial_number: copy_opt_text(&self.serial_number),
            firmware_version: copy_opt_text(&self.firmware_version),
            health_status: self.health_status.clone(),
        }
    }
}
// ---------------------------------------------------------------------------
// Rules

/// Whether a device of this name is left out whatever else is known of it:
/// loop devices, RAM disks and optical drives.
pub open spec fn skips_name(name: Seq<char>) -> bool {
    "loop"@.is_prefix_of(name) || "ram"@.is_prefix_of(name) || "sr"@.is_prefix_of(name)
}

/// The bus a device hangs on, told by its name.
pub open spec fn interface_of(name: Seq<char>) -> Seq<char> {
    if "nvme"@.is_prefix_of(name) {
        "NVMe"@
    } else if "sd"@.is_prefix_of(name) {
        "SATA"@
    } else if "vd"@.is_prefix_of(name) {
        "VirtIO"@
    } else {
        "Unknown"@
    }
}

/// The size in bytes of a device whose size in sectors of 512 bytes was read
/// as `size`: zero where the read failed or gave no number, and the product
/// modulo 2^64 where it does not fit.
pub open spec fn capacity_of(size: Option<Seq<char>>) -> u64 {
    let text = match size {
        Some(t) => t,
        None => "0"@,
    };
    match parsed_unsigned(trimmed(text), u64::MAX as nat) {
        Some(n) => (n as u64).wrapping_mul(512),
        None => 0,
    }
}

/// Whether a device counts as solid state: it does unless its rotational
/// flag was read and is a number other than zero.
pub open spec fn is_solid_state(rotational: Option<Seq<char>>) -> bool {
    match rotational {
        Some(t) => match parsed_unsigned(trimmed(t), 255) {
            Some(v) => v == 0,
            None => true,
        },
        None => true,
    }
}

/// A text that was read, without the whitespace around it, or `Unknown`
/// where the read failed.
pub open spec fn text_or_unknown(text: Option<Seq<char>>) -> Seq<char> {
    match text {
        Some(t) => trimmed(t),
        None => "Unknown"@,
    }
}

/// The firmware version that the device tree gives: the revision, or for an
/// NVMe device without one its firmware revision.
pub open spec fn firmware_of(
    name: Seq<char>,
    revision: Option<Seq<char>>,
    firmware_revision: Option<Seq<char>>,
) -> Seq<char> {
    let first = text_or_unknown(revision);
    if "nvme"@.is_prefix_of(name) && first == "Unknown"@ {
        match firmware_revision {
            Some(t) => trimmed(t),
            None => first,
        }
    } else {
        first
    }
}

/// What the library reads in the report that the health tool wrote.
pub open spec fn report_of_tree(tree: JsonTree) -> SmartReportView {
    SmartReportView {
        serial_number: text_of(member_of(tree, "serial_number"@)),
        firmware_version: text_of(member_of(tree, "firmware_version"@)),
        passed: flag_of(nested_member_of(tree, "smart_status"@, "passed"@)),
        critical_warning: unsigned_of(
            nested_member_of(tree, "nvme_smart_health_information_log"@, "critical_warning"@),
        ),
    }
}

/// The verdict of a report: the overall status where the report has one,
/// else what the NVMe warning count says, else `Unknown`.
pub open spec fn health_of(report: SmartReportView) -> Seq<char> {
    match report.passed {
        Some(true) => "Passed"@,
        Some(false) => "Failed"@,
        None => match report.critical_warning {
            Some(n) => if n == 0 {
                "Passed"@
            } else {
                "Warning"@
            },
            None => "Unknown"@,
        },
    }
}

/// What a report adds to a disk's record.
pub open spec fn findings_of_report(report: SmartReportView) -> SmartFindingsView {
    SmartFindingsView {
        serial_number: report.serial_number,
        firmware_version: report.firmware_version,
        health_status: health_of(report),
    }
}

/// What is known where no report could be used, but for the verdict.
pub open spec fn findings_without_report(health: Seq<char>) -> SmartFindingsView {
    SmartFindingsView { serial_number: None, firmware_version: None, health_status: health }
}

/// What a run that reported failure adds: that elevation is required where
/// the tool said that permission was denied.
pub open spec fn findings_of_failure(stderr: Seq<char>) -> SmartFindingsView {
    findings_without_report(
        if contains_text(stderr, "Permission denied"@) {
            "Root required"@
        } else {
            "Unknown"@
        },
    )
}

/// What a run of the health tool adds to a disk's record.
pub open spec fn findings_of_run(run: SmartRunView) -> SmartFindingsView {
    match run {
        SmartRunView::NotStarted => findings_without_report("Smartctl not found"@),
        SmartRunView::Finished { success, stdout, stderr } => if success {
            match json_parsed(stdout) {
                Some(tree) => findings_of_report(report_of_tree(tree)),
                None => findings_without_report("Unknown"@),
            }
        } else {
            findings_of_failure(stderr)
        },
    }
}

/// The record of a disk: what the device tree gives, with what the health
/// tool found in place of the serial number and firmware version where it
/// found them.
pub open spec fn described(
    probe: BlockDeviceProbeView,
    findings: SmartFindingsView,
) -> StorageDetailedInfoView {
    StorageDetailedInfoView {
        device_name: probe.device_name,
        model: text_or_unknown(probe.model),
        capacity_bytes: capacity_of(probe.size),
        interface_type: interface_of(probe.device_name),
        is_ssd: is_solid_state(probe.rotational),
        serial_number: match findings.serial_number {
            Some(s) => s,
            None => text_or_unknown(probe.serial),
        },
        firmware_version: match findings.firmware_version {
            Some(f) => f,
            None => firmware_of(probe.device_name, probe.revision, probe.firmware_revision),
        },
        health_status: findings.health_status,
    }
}

/// Whether a probed device is a physical disk.
pub open spec fn is_disk(probe: BlockDeviceProbeView) -> bool {
    !skips_name(probe.device_name) && !probe.is_partition
}

/// The record of a probed device, or `None` where it is no physical disk.
pub open spec fn detail_of(probe: BlockDeviceProbeView) -> Option<StorageDetailedInfoView> {
    if is_disk(probe) {
        Some(described(probe, findings_of_run(probe.smart)))
    } else {
        None
    }
}

/// The records of the physical disks among `probes`, in the order probed.
pub open spec fn details_of(probes: Seq<BlockDeviceProbeView>) -> Seq<StorageDetailedInfoView>
    decreases probes.len(),
{
    if probes.len() == 0 {
        Seq::empty()
    } else {
        let before = details_of(probes.drop_last());
        match detail_of(probes.last()) {
            Some(d) => before.push(d),
            None => before,
        }
    }
}

// ---------------------------------------------------------------------------
// Functions

/// Whether a device of this name is left out whatever else is known of it.
/// A caller asks before it probes the device.
pub fn skips_device(name: &str) -> (skip: bool)
    ensures
        skip == skips_name(name@),
{
    starts_with(name, "loop") || starts_with(name, "ram") || starts_with(name, "sr")
}

/// The bus a device hangs on, told by its name.
pub fn interface_type(name: &str) -> (kind: String)
    ensures
        kind@ == interface_of(name@),
{
    if starts_with(name, "nvme") {
        String::from_str("NVMe")
    } else if starts_with(name, "sd") {
        String::from_str("SATA")
    } else if starts_with(name, "vd") {
        String::from_str("VirtIO")
    } else {
        String::from_str("Unknown")
    }
}

/// The size in bytes of a device, from its size in sectors as read.
pub fn capacity_bytes(size: &Option<String>) -> (bytes: u64)
    ensures
        bytes == capacity_of(opt_text(*size)),
{
    let sectors = match size {
        Some(t) => parse_number(trim(t.as_str()).as_str(), u64::MAX),
        None => parse_number(trim("0").as_str(), u64::MAX),
    };
    match sectors {
        Some(n) => n.wrapping_mul(512),
        None => 0,
    }
}

/// Whether a device counts as solid state, from its rotational flag as read.
pub fn solid_state(rotational: &Option<String>) -> (ssd: bool)
    ensures
        ssd == is_solid_state(opt_text(*rotational)),
{
    match rotational {
        Some(t) => match parse_number(trim(t.as_str()).as_str(), 255) {
            Some(v) => v == 0,
            None => true,
        },
        None => true,
    }
}

/// A text that was read, trimmed, or `Unknown` where the read failed.
pub fn read_or_unknown(text: &Option<String>) -> (out: String)
    ensures
        out@ == text_or_unknown(opt_text(*text)),
{
    match text {
        Some(t) => trim(t.as_str()),
        None => String::from_str("Unknown"),
    }
}

/// The firmware version that the device tree gives.
pub fn firmware_version(
    name: &str,
    revision: &Option<String>,
    firmware_revision: &Option<String>,
) -> (out: String)
    ensures
        out@ == firmware_of(name@, opt_text(*revision), opt_text(*firmware_revision)),
{
    let first = read_or_unknown(revision);
    if starts_with(name, "nvme") && equal_text(first.as_str(), "Unknown") {
        match firmware_revision {
            Some(t) => trim(t.as_str()),
            None => first,
        }
    } else {
        first
    }
}

/// Reads in a parsed report what the library uses of it.
pub(crate) fn report_of_value(value: &serde_json::Value) -> (report: SmartReport)
    ensures
        report@ == report_of_tree(json_tree(*value)),
{
    let passed = match json_nested_member(value, "smart_status", "passed") {
        Some(m) => json_flag(m),
        None => None,
    };
    let critical_warning = match json_nested_member(
        value,
        "nvme_smart_health_information_log",
        "critical_warning",
    ) {
        Some(m) => json_unsigned(m),
        None => None,
    };
    SmartReport {
        serial_number: json_text_member(value, "serial_number"),
        firmware_version: json_text_member(value, "firmware_version"),
        passed,
        critical_warning,
    }
}

/// Reads the report that the health tool wrote as JSON text; `None` where
/// the text is no JSON.
pub fn read_smart_report(text: &str) -> (report: Option<SmartReport>)
    ensures
        match report {
            Some(r) => json_parsed(text@) matches Some(tree) && r@ == report_of_tree(tree),
            None => json_parsed(text@) is None,
        },
{
    match json_parse(text) {
        Some(value) => Some(report_of_value(&value)),
        None => None,
    }
}

/// The verdict of a report.
pub fn health_status(report: &SmartReport) -> (verdict: String)
    ensures
        verdict@ == health_of(report@),
{
    match report.passed {
        Some(true) => String::from_str("Passed"),
        Some(false) => String::from_str("Failed"),
        None => match report.critical_warning {
            Some(n) => if n == 0 {
                String::from_str("Passed")
            } else {
                String::from_str("Warning")
            },
            None => String::from_str("Unknown"),
        },
    }
}

/// What a report adds to a disk's record.
pub fn smart_findings(report: SmartReport) -> (findings: SmartFindings)
    ensures
        findings@ == findings_of_report(report@),
{
    let verdict = health_status(&report);
    SmartFindings {
        serial_number: report.serial_number,
        firmware_version: report.firmware_version,
        health_status: verdict,
    }
}

/// What a run that reported failure adds to a disk's record.
pub fn failure_findings(stderr: &str) -> (findings: SmartFindings)
    ensures
        findings@ == findings_of_failure(stderr@),
{
    let verdict = if contains(stderr, "Permission denied") {
        String::from_str("Root required")
    } else {
        String::from_str("Unknown")
    };
    SmartFindings { serial_number: None, firmware_version: None, health_status: verdict }
}

/// What a run of the health tool adds to a disk's record.
pub fn run_findings(run: &SmartRun) -> (findings: SmartFindings)
    ensures
        findings@ == findings_of_run(run@),
{
    match run {
        SmartRun::NotStarted => SmartFindings {
            serial_number: None,
            firmware_version: None,
            health_status: String::from_str("Smartctl not found"),
        },
        SmartRun::Finished { success, stdout, stderr } => {
            if *success {
                match read_smart_report(stdout.as_str()) {
                    Some(report) => smart_findings(report),
                    None => SmartFindings {
                        serial_number: None,
                        firmware_version: None,
                        health_status: String::from_str("Unknown"),
                    },
                }
            } else {
                failure_findings(stderr.as_str())
            }
        },
    }
}

/// The record of a disk from its probe and from what the health tool found.
pub fn describe_device(probe: &BlockDeviceProbe, findings: SmartFindings) -> (detail:
    StorageDetailedInfo)
    ensures
        detail@ == described(probe@, findings@),
{
    let name = probe.device_name.as_str();
    let serial_number = match findings.serial_number {
        Some(s) => s,
        None => read_or_unknown(&probe.serial),
    };
    let firmware = match findings.firmware_version {
        Some(f) => f,
        None => firmware_version(name, &probe.revision, &probe.firmware_revision),
    };
    StorageDetailedInfo {
        device_name: probe.device_name.clone(),
        model: read_or_unknown(&probe.model),
        capacity_bytes: capacity_bytes(&probe.size),
        interface_type: interface_type(name),
        is_ssd: solid_state(&probe.rotational),
        serial_number,
        firmware_version: firmware,
        health_status: findings.health_status,
    }
}

/// The record of a probed device, or `None` where it is no physical disk.
pub fn storage_detail(probe: &BlockDeviceProbe) -> (detail: Option<StorageDetailedInfo>)
    ensures
        match detail {
            Some(d) => detail_of(probe@) == Some(d@),
            None => detail_of(probe@) is None,
        },
{
    if skips_device(probe.device_name.as_str()) || probe.is_partition {
        None
    } else {
        Some(describe_device(probe, run_findings(&probe.smart)))
    }
}

/// The records of the physical disks among the probed devices, in the order
/// probed. Always a list, empty where nothing was probed.
pub fn get_storage_detailed_info_headless(probes: &Vec<BlockDeviceProbe>) -> (details: Vec<
    StorageDetailedInfo,
>)
    ensures
        storage_views(details@) == details_of(probe_views(probes@)),
{
    let mut details: Vec<StorageDetailedInfo> = Vec::new();
    let mut i: usize = 0;
    while i < probes.len()
        invariant
            i <= probes.len(),
            storage_views(details@) == details_of(probe_views(probes@).subrange(0, i as int)),
        decreases probes.len() - i,
    {
        let ghost next = probe_views(probes@).subrange(0, i + 1);
        let ghost before = storage_views(details@);
        assert(next.drop_last() == probe_views(probes@).subrange(0, i as int));
        assert(next.last() == probes@[i as int]@);
        match storage_detail(&probes[i]) {
            Some(d) => {
                details.push(d);
                assert(storage_views(details@) =~= before.push(d@));
            },
            None => {},
        }
        i = i + 1;
    }
    assert(probe_views(probes@).subrange(0, probes.len() as int) == probe_views(probes@));
    details
}

} // verus!
