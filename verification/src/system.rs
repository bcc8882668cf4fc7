//! The descriptors of the system that change rarely: host, operating
//! system, board, firmware, and the physical disks.
//!
//! Numbers with a fraction reach the library as text; the library puts the
//! unit behind them.

use crate::monitor::SystemMonitor;
use crate::stable_index::{is_sorted_by_key, is_stable_order, sorted_positions};
use crate::storage::{capacity_bytes, capacity_of, read_or_unknown, text_or_unknown};
use crate::text::{
    chars_of, contains_text, copy_opt_text, decimal, decimal_text, equal_text, is_digit,
    join_chars, joined, opt_text, push_str, starts_with, string_of, views,
};
use vstd::prelude::*;
use vstd::string::*;

verus! {

/// What was read about one entry of the block device tree: its name, and its
/// model and size in sectors where they could be read.
#[derive(Debug)]
pub struct BlockEntry {
    pub device_name: String,
    pub model: Option<String>,
    pub size: Option<String>,
}

/// The plain content of a [`BlockEntry`].
pub struct BlockEntryView {
    pub device_name: Seq<char>,
    pub model: Option<Seq<char>>,
    pub size: Option<Seq<char>>,
}

impl View for BlockEntry {
    type V = BlockEntryView;

    open spec fn view(&self) -> BlockEntryView {
        BlockEntryView {
            device_name: self.device_name@,
            model: opt_text(self.model),
            size: opt_text(self.size),
        }
    }
}

impl Clone for BlockEntry {
    fn clone(&self) -> (copy: Self)
        ensures
            copy@ == self@,
    {
        BlockEntry {
            device_name: self.device_name.clone(),
            model: copy_opt_text(&self.model),
            size: copy_opt_text(&self.size),
        }
    }
}

/// The plain content of each entry of a list.
pub open spec fn block_entry_views(list: Seq<BlockEntry>) -> Seq<BlockEntryView> {
    list.map_values(|item: BlockEntry| item@)
}

/// One physical disk: name, model and size in bytes.
#[derive(Debug)]
pub struct PhysicalDisk {
    pub name: String,
    pub model: String,
    pub size_bytes: u64,
}

/// The plain content of a [`PhysicalDisk`].
pub struct PhysicalDiskView {
    pub name: Seq<char>,
    pub model: Seq<char>,
    pub size_bytes: u64,
}

impl View for PhysicalDisk {
    type V = PhysicalDiskView;

    open spec fn view(&self) -> PhysicalDiskView {
        PhysicalDiskView {
            name: self.name@,
            model: self.model@,
            size_bytes: self.size_bytes,
        }
    }
}

impl Clone for PhysicalDisk {
    fn clone(&self) -> (copy: Self)
        ensures
            copy@ == self@,
    {
        PhysicalDisk {
            name: self.name.clone(),
            model: self.model.clone(),
            size_bytes: self.size_bytes,
        }
    }
}

/// The plain content of each disk of a list.
pub open spec fn physical_disk_views(list: Seq<PhysicalDisk>) -> Seq<PhysicalDiskView> {
    list.map_values(|item: PhysicalDisk| item@)
}

/// One physical disk as it is shown: name, model, and its size in GB as
/// text.
#[derive(Debug)]
pub struct DiskLabel {
    pub name: String,
    pub model: String,
    pub size_gb: String,
}

/// The plain content of a [`DiskLabel`].
pub struct DiskLabelView {
    pub name: Seq<char>,
    pub model: Seq<char>,
    pub size_gb: Seq<char>,
}

impl View for DiskLabel {
    type V = DiskLabelView;

    open spec fn view(&self) -> DiskLabelView {
        DiskLabelView {
            name: self.name@,
            model: self.model@,
            size_gb: self.size_gb@,
        }
    }
}

impl Clone for DiskLabel {
    fn clone(&self) -> (copy: Self)
        ensures
            copy@ == self@,
    {
        DiskLabel {
            name: self.name.clone(),
            model: self.model.clone(),
            size_gb: self.size_gb.clone(),
        }
    }
}

/// The plain content of each label of a list.
pub open spec fn disk_label_views(list: Seq<DiskLabel>) -> Seq<DiskLabelView> {
    list.map_values(|item: DiskLabel| item@)
}

/// One graphics processor as it is shown: its name, and its memory in GB as
/// text, each `None` where the query failed.
#[derive(Debug)]
pub struct GpuLabel {
    pub name: Option<String>,
    pub vram_gb: Option<String>,
}

/// The plain content of a [`GpuLabel`].
pub struct GpuLabelView {
    pub name: Option<Seq<char>>,
    pub vram_gb: Option<Seq<char>>,
}

impl View for GpuLabel {
    type V = GpuLabelView;

    open spec fn view(&self) -> GpuLabelView {
        GpuLabelView {
            name: opt_text(self.name),
            vram_gb: opt_text(self.vram_gb),
        }
    }
}

impl Clone for GpuLabel {
    fn clone(&self) -> (copy: Self)
        ensures
            copy@ == self@,
    {
        GpuLabel {
            name: copy_opt_text(&self.name),
            vram_gb: copy_opt_text(&self.vram_gb),
        }
    }
}

/// The descriptors of the system that change rarely.
#[derive(Debug)]
pub struct StaticInfo {
    pub hostname: String,
    pub os_name: String,
    pub kernel: String,
    pub cpu_brand: String,
    pub cores: usize,
    pub total_memory: String,
    pub bios_version: String,
    pub total_storage: String,
    pub gpu_names: String,
    pub cpu_frequency: String,
    pub cpu_arch: String,
    pub motherboard: String,
    pub boot_mode: String,
    pub individual_disks: String,
}

/// The plain content of a [`StaticInfo`].
pub struct StaticInfoView {
    pub hostname: Seq<char>,
    pub os_name: Seq<char>,
    pub kernel: Seq<char>,
    pub cpu_brand: Seq<char>,
    pub cores: usize,
    pub total_memory: Seq<char>,
    pub bios_version: Seq<char>,
    pub total_storage: Seq<char>,
    pub gpu_names: Seq<char>,
    pub cpu_frequency: Seq<char>,
    pub cpu_arch: Seq<char>,
    pub motherboard: Seq<char>,
    pub boot_mode: Seq<char>,
    pub individual_disks: Seq<char>,
}

impl View for StaticInfo {
    type V = StaticInfoView;

    open spec fn view(&self) -> StaticInfoView {
        StaticInfoView {
            hostname: self.hostname@,
            os_name: self.os_name@,
            kernel: self.kernel@,
            cpu_brand: self.cpu_brand@,
            cores: self.cores,
            total_memory: self.total_memory@,
            bios_version: self.bios_version@,
            total_storage: self.total_storage@,
            gpu_names: self.gpu_names@,
            cpu_frequency: self.cpu_frequency@,
            cpu_arch: self.cpu_arch@,
            motherboard: self.motherboard@,
            boot_mode: self.boot_mode@,
            individual_disks: self.individual_disks@,
        }
    }
}

impl Clone for StaticInfo {
    fn clone(&self) -> (copy: Self)
        ensures
            copy@ == self@,
    {
        StaticInfo {
            hostname: self.hostname.clone(),
            os_name: self.os_name.clone(),
            kernel: self.kernel.clone(),
            cpu_brand: self.cpu_brand.clone(),
            cores: self.cores,
            total_memory: self.total_memory.clone(),
            bios_version: self.bios_version.clone(),
            total_storage: self.total_storage.clone(),
            gpu_names: self.gpu_names.clone(),
            cpu_frequency: self.cpu_frequency.clone(),
            cpu_arch: self.cpu_arch.clone(),
            motherboard: self.motherboard.clone(),
            boot_mode: self.boot_mode.clone(),
            individual_disks: self.individual_disks.clone(),
        }
    }
}

/// What was read about the system for its descriptors.
///
/// A text is `None` where the system would not tell it or the read failed.
/// `total_memory_gb`, `total_storage_gb` and `cpu_frequency_ghz` are numbers
/// as text. An entry of `gpus` is `None` where that processor could not be
/// queried.
#[derive(Debug)]
pub struct StaticFacts {
    pub hostname: Option<String>,
    pub os_name: Option<String>,
    pub os_version: Option<String>,
    pub kernel: Option<String>,
    pub cpu_brand: Option<String>,
    pub total_memory_gb: String,
    pub bios_version: Option<String>,
    pub total_storage_gb: String,
    pub gpus: Vec<Option<GpuLabel>>,
    pub cpu_frequency_ghz: Option<String>,
    pub cpu_arch: String,
    pub board_vendor: Option<String>,
    pub board_name: Option<String>,
    pub efi_present: bool,
    pub disks: Vec<DiskLabel>,
}

/// The plain content of a [`StaticFacts`].
pub struct StaticFactsView {
    pub hostname: Option<Seq<char>>,
    pub os_name: Option<Seq<char>>,
    pub os_version: Option<Seq<char>>,
    pub kernel: Option<Seq<char>>,
    pub cpu_brand: Option<Seq<char>>,
    pub total_memory_gb: Seq<char>,
    pub bios_version: Option<Seq<char>>,
    pub total_storage_gb: Seq<char>,
    pub gpus: Seq<Option<GpuLabelView>>,
    pub cpu_frequency_ghz: Option<Seq<char>>,
    pub cpu_arch: Seq<char>,
    pub board_vendor: Option<Seq<char>>,
    pub board_name: Option<Seq<char>>,
    pub efi_present: bool,
    pub disks: Seq<DiskLabelView>,
}

/// The views of a list of labels that may be missing.
pub open spec fn gpu_label_views(list: Seq<Option<GpuLabel>>) -> Seq<Option<GpuLabelView>> {
    list.map_values(
        |g: Option<GpuLabel>|
            match g {
                Some(x) => Some(x@),
                None => None,
            },
    )
}

impl View for StaticFacts {
    type V = StaticFactsView;

    open spec fn view(&self) -> StaticFactsView {
        StaticFactsView {
            hostname: opt_text(self.hostname),
            os_name: opt_text(self.os_name),
            os_version: opt_text(self.os_version),
            kernel: opt_text(self.kernel),
            cpu_brand: opt_text(self.cpu_brand),
            total_memory_gb: self.total_memory_gb@,
            bios_version: opt_text(self.bios_version),
            total_storage_gb: self.total_storage_gb@,
            gpus: gpu_label_views(self.gpus@),
            cpu_frequency_ghz: opt_text(self.cpu_frequency_ghz),
            cpu_arch: self.cpu_arch@,
            board_vendor: opt_text(self.board_vendor),
            board_name: opt_text(self.board_name),
            efi_present: self.efi_present,
            disks: disk_label_views(self.disks@),
        }
    }
}

// ---------------------------------------------------------------------------
// Physical disks

/// Whether the name ends in a digit.
pub open spec fn ends_in_digit(name: Seq<char>) -> bool {
    name.len() > 0 && is_digit(name.last())
}

/// Whether a device of this name is a partition: for an NVMe device when the
/// name holds a `p` and ends in a digit, for a SATA or virtual disk when it
/// ends in a digit. `None` for a device of another kind, which is no disk.
pub open spec fn partition_by_name(name: Seq<char>) -> Option<bool> {
    if "nvme"@.is_prefix_of(name) {
        Some(contains_text(name, "p"@) && ends_in_digit(name))
    } else if "sd"@.is_prefix_of(name) || "vd"@.is_prefix_of(name) {
        Some(ends_in_digit(name))
    } else {
        None
    }
}

/// The physical disk that an entry stands for: `None` for a partition, for
/// a device of another kind, and for a device of size zero.
pub open spec fn physical_disk_of(entry: BlockEntryView) -> Option<PhysicalDiskView> {
    if partition_by_name(entry.device_name) == Some(false) && capacity_of(entry.size) > 0 {
        Some(
            PhysicalDiskView {
                name: entry.device_name,
                model: text_or_unknown(entry.model),
                size_bytes: capacity_of(entry.size),
            },
        )
    } else {
        None
    }
}

/// The physical disks among `entries`, in the order of the entries.
pub open spec fn physical_disks_of(entries: Seq<BlockEntryView>) -> Seq<PhysicalDiskView>
    decreases entries.len(),
{
    if entries.len() == 0 {
        Seq::empty()
    } else {
        let before = physical_disks_of(entries.drop_last());
        match physical_disk_of(entries.last()) {
            Some(d) => before.push(d),
            None => before,
        }
    }
}

/// The names of a list of disks.
pub open spec fn disk_names(disks: Seq<PhysicalDiskView>) -> Seq<Seq<char>> {
    disks.map_values(|d: PhysicalDiskView| d.name)
}

/// Whether a device of this name is a partition, or `None` for a device
/// that is no disk.
pub fn is_partition_name(name: &str) -> (r: Option<bool>)
    ensures
        r == partition_by_name(name@),
{
    let chars = chars_of(name);
    let digit_last = if chars.len() > 0 {
        let c: u32 = chars[chars.len() - 1] as u32;
        0x30 <= c && c <= 0x39
    } else {
        false
    };
    if starts_with(name, "nvme") {
        Some(crate::text::contains(name, "p") && digit_last)
    } else if starts_with(name, "sd") || starts_with(name, "vd") {
        Some(digit_last)
    } else {
        None
    }
}

/// The physical disk that an entry stands for.
pub fn physical_disk(entry: &BlockEntry) -> (disk: Option<PhysicalDisk>)
    ensures
        match disk {
            Some(d) => physical_disk_of(entry@) == Some(d@),
            None => physical_disk_of(entry@) is None,
        },
{
    match is_partition_name(entry.device_name.as_str()) {
        Some(false) => {
            let size_bytes = capacity_bytes(&entry.size);
            if size_bytes > 0 {
                Some(
                    PhysicalDisk {
                        name: entry.device_name.clone(),
                        model: read_or_unknown(&entry.model),
                        size_bytes,
                    },
                )
            } else {
                None
            }
        },
        _ => None,
    }
}

/// The physical disks among the entries of the block device tree, sorted by
/// name.
pub fn get_physical_disks(entries: &Vec<BlockEntry>) -> (disks: Vec<PhysicalDisk>)
    ensures
        is_sorted_by_key(
            physical_disk_views(disks@),
            physical_disks_of(block_entry_views(entries@)),
            disk_names(physical_disks_of(block_entry_views(entries@))),
        ),
{
    let ghost all = block_entry_views(entries@);
    let mut found: Vec<PhysicalDisk> = Vec::new();
    let mut i: usize = 0;
    while i < entries.len()
        invariant
            i <= entries.len(),
            all == block_entry_views(entries@),
            physical_disk_views(found@) == physical_disks_of(all.subrange(0, i as int)),
        decreases entries.len() - i,
    {
        let ghost next = all.subrange(0, i + 1);
        let ghost before = physical_disk_views(found@);
        assert(next.drop_last() == all.subrange(0, i as int));
        assert(next.last() == entries@[i as int]@);
        match physical_disk(&entries[i]) {
            Some(d) => {
                found.push(d);
                assert(physical_disk_views(found@) =~= before.push(d@));
            },
            None => {},
        }
        i = i + 1;
    }
    assert(all.subrange(0, entries.len() as int) == all);
    let ghost unsorted = physical_disk_views(found@);
    let mut keys: Vec<Vec<char>> = Vec::new();
    let mut k: usize = 0;
    while k < found.len()
        invariant
            k <= found.len(),
            unsorted == physical_disk_views(found@),
            views(keys@) == disk_names(unsorted).subrange(0, k as int),
        decreases found.len() - k,
    {
        let ghost before = views(keys@);
        keys.push(chars_of(found[k].name.as_str()));
        assert(views(keys@) =~= before.push(found@[k as int]@.name));
        k = k + 1;
    }
    assert(disk_names(unsorted).subrange(0, found.len() as int) == disk_names(unsorted));
    let positions = sorted_positions(&keys);
    let ghost goal = Seq::new(unsorted.len(), |n: int| unsorted[positions@[n] as int]);
    let mut disks: Vec<PhysicalDisk> = Vec::new();
    let mut j: usize = 0;
    while j < positions.len()
        invariant
            j <= positions.len(),
            positions.len() == found.len(),
            unsorted == physical_disk_views(found@),
            is_stable_order(disk_names(unsorted), positions@),
            goal == Seq::new(unsorted.len(), |n: int| unsorted[positions@[n] as int]),
            physical_disk_views(disks@) == goal.subrange(0, j as int),
        decreases positions.len() - j,
    {
        let ghost before = physical_disk_views(disks@);
        disks.push(found[positions[j]].clone());
        assert(physical_disk_views(disks@) =~= before.push(goal[j as int]));
        j = j + 1;
    }
    assert(goal.subrange(0, positions.len() as int) == goal);
    disks
}

// ---------------------------------------------------------------------------
// Descriptors

/// A text that the system told, or `fallback`.
pub open spec fn told_or(text: Option<Seq<char>>, fallback: Seq<char>) -> Seq<char> {
    match text {
        Some(t) => t,
        None => fallback,
    }
}

/// The operating system as shown: name and version with a space between.
pub open spec fn os_shown(name: Option<Seq<char>>, version: Option<Seq<char>>) -> Seq<char> {
    told_or(name, "Unknown"@) + " "@ + told_or(version, Seq::empty())
}

/// The board as shown: vendor and name with a space between, or `Unknown`
/// where one of them is not known.
pub open spec fn motherboard_shown(vendor: Option<Seq<char>>, name: Option<Seq<char>>) -> Seq<
    char,
> {
    if text_or_unknown(vendor) != "Unknown"@ && text_or_unknown(name) != "Unknown"@ {
        text_or_unknown(vendor) + " "@ + text_or_unknown(name)
    } else {
        "Unknown"@
    }
}

/// The way the system was started, as shown.
pub open spec fn boot_mode_shown(efi_present: bool) -> Seq<char> {
    if efi_present {
        "UEFI"@
    } else {
        "Legacy BIOS"@
    }
}

/// A number of GB as shown.
pub open spec fn gigabytes_shown(number: Seq<char>) -> Seq<char> {
    number + " GB"@
}

/// The clock rate as shown, or `N/A` where it is not known.
pub open spec fn frequency_shown(number: Option<Seq<char>>) -> Seq<char> {
    match number {
        Some(n) => n + " GHz"@,
        None => "N/A"@,
    }
}

/// Graphics processor `index` as shown: its name, or its number where it has
/// none, and its memory in parentheses where that is known.
pub open spec fn gpu_shown(index: int, label: GpuLabelView) -> Seq<char> {
    told_or(label.name, "NVIDIA GPU "@ + decimal_text(index as nat)) + match label.vram_gb {
        Some(v) => " ("@ + v + " GB)"@,
        None => Seq::empty(),
    }
}

/// The first `count` graphics processors that could be queried, as shown.
pub open spec fn gpus_shown(gpus: Seq<Option<GpuLabelView>>, count: nat) -> Seq<Seq<char>>
    decreases count,
{
    if count == 0 {
        Seq::empty()
    } else {
        let before = gpus_shown(gpus, (count - 1) as nat);
        match gpus[count - 1] {
            Some(label) => before.push(gpu_shown(count - 1, label)),
            None => before,
        }
    }
}

/// One disk as shown: its model, or its name where the model is not known,
/// and its size in parentheses.
pub open spec fn disk_shown(disk: DiskLabelView) -> Seq<char> {
    (if disk.model.len() == 0 || disk.model == "Unknown"@ {
        disk.name
    } else {
        disk.model
    }) + " ("@ + disk.size_gb + " GB)"@
}

/// The disks as shown, one per line, or `None detected`.
pub open spec fn disks_shown(disks: Seq<DiskLabelView>) -> Seq<char> {
    if disks.len() == 0 {
        "None detected"@
    } else {
        joined(disks.map_values(|d: DiskLabelView| disk_shown(d)), "\n"@)
    }
}

/// The descriptors of a system of `cores` processor cores.
pub open spec fn static_info_of(facts: StaticFactsView, cores: usize) -> StaticInfoView {
    StaticInfoView {
        hostname: told_or(facts.hostname, "Unknown"@),
        os_name: os_shown(facts.os_name, facts.os_version),
        kernel: told_or(facts.kernel, "Unknown"@),
        cpu_brand: told_or(facts.cpu_brand, ""@),
        cores,
        total_memory: gigabytes_shown(facts.total_memory_gb),
        bios_version: text_or_unknown(facts.bios_version),
        total_storage: gigabytes_shown(facts.total_storage_gb),
        gpu_names: joined(gpus_shown(facts.gpus, facts.gpus.len()), ", "@),
        cpu_frequency: frequency_shown(facts.cpu_frequency_ghz),
        cpu_arch: facts.cpu_arch,
        motherboard: motherboard_shown(facts.board_vendor, facts.board_name),
        boot_mode: boot_mode_shown(facts.efi_present),
        individual_disks: disks_shown(facts.disks),
    }
}

fn told(text: &Option<String>, fallback: &str) -> (out: String)
    ensures
        out@ == told_or(opt_text(*text), fallback@),
{
    match text {
        Some(t) => t.clone(),
        None => String::from_str(fallback),
    }
}

fn show_os(name: &Option<String>, version: &Option<String>) -> (out: String)
    ensures
        out@ == os_shown(opt_text(*name), opt_text(*version)),
{
    let mut out: Vec<char> = Vec::new();
    push_str(&mut out, told(name, "Unknown").as_str());
    push_str(&mut out, " ");
    match version {
        Some(v) => {
            push_str(&mut out, v.as_str());
        },
        None => {},
    }
    assert(out@ =~= os_shown(opt_text(*name), opt_text(*version)));
    string_of(&out)
}

fn show_motherboard(vendor: &Option<String>, name: &Option<String>) -> (out: String)
    ensures
        out@ == motherboard_shown(opt_text(*vendor), opt_text(*name)),
{
    let v = read_or_unknown(vendor);
    let n = read_or_unknown(name);
    if !equal_text(v.as_str(), "Unknown") && !equal_text(n.as_str(), "Unknown") {
        v.concat(" ").concat(n.as_str())
    } else {
        String::from_str("Unknown")
    }
}

fn show_gpu(index: usize, label: &GpuLabel) -> (out: Vec<char>)
    ensures
        out@ == gpu_shown(index as int, label@),
{
    let mut out: Vec<char> = Vec::new();
    match &label.name {
        Some(n) => {
            push_str(&mut out, n.as_str());
        },
        None => {
            push_str(&mut out, "NVIDIA GPU ");
            push_str(&mut out, decimal(index as u64).as_str());
        },
    }
    match &label.vram_gb {
        Some(v) => {
            push_str(&mut out, " (");
            push_str(&mut out, v.as_str());
            push_str(&mut out, " GB)");
        },
        None => {},
    }
    assert(out@ =~= gpu_shown(index as int, label@));
    out
}

fn show_gpus(gpus: &Vec<Option<GpuLabel>>) -> (out: String)
    ensures
        out@ == joined(gpus_shown(gpu_label_views(gpus@), gpus.len() as nat), ", "@),
{
    let mut shown: Vec<Vec<char>> = Vec::new();
    let mut i: usize = 0;
    assert(views(shown@) =~= Seq::<Seq<char>>::empty());
    while i < gpus.len()
        invariant
            i <= gpus.len(),
            views(shown@) == gpus_shown(gpu_label_views(gpus@), i as nat),
        decreases gpus.len() - i,
    {
        let ghost before = views(shown@);
        match &gpus[i] {
            Some(label) => {
                shown.push(show_gpu(i, label));
                assert(views(shown@) =~= before.push(gpu_shown(i as int, label@)));
            },
            None => {},
        }
        i = i + 1;
    }
    let comma = chars_of(", ");
    string_of(&join_chars(&shown, &comma))
}

fn show_disk(disk: &DiskLabel) -> (out: Vec<char>)
    ensures
        out@ == disk_shown(disk@),
{
    let mut out: Vec<char> = Vec::new();
    let model = chars_of(disk.model.as_str());
    if model.len() == 0 || equal_text(disk.model.as_str(), "Unknown") {
        push_str(&mut out, disk.name.as_str());
    } else {
        push_str(&mut out, disk.model.as_str());
    }
    push_str(&mut out, " (");
    push_str(&mut out, disk.size_gb.as_str());
    push_str(&mut out, " GB)");
    assert(out@ =~= disk_shown(disk@));
    out
}

fn show_disks(disks: &Vec<DiskLabel>) -> (out: String)
    ensures
        out@ == disks_shown(disk_label_views(disks@)),
{
    if disks.len() == 0 {
        return String::from_str("None detected");
    }
    let ghost goal = disk_label_views(disks@).map_values(|d: DiskLabelView| disk_shown(d));
    let mut shown: Vec<Vec<char>> = Vec::new();
    let mut i: usize = 0;
    while i < disks.len()
        invariant
            i <= disks.len(),
            goal == disk_label_views(disks@).map_values(|d: DiskLabelView| disk_shown(d)),
            views(shown@) == goal.subrange(0, i as int),
        decreases disks.len() - i,
    {
        let ghost before = views(shown@);
        shown.push(show_disk(&disks[i]));
        assert(views(shown@) =~= before.push(disk_shown(disks@[i as int]@)));
        i = i + 1;
    }
    assert(goal.subrange(0, disks.len() as int) == goal);
    let newline = chars_of("\n");
    string_of(&join_chars(&shown, &newline))
}

/// The descriptors of a system of `cores` processor cores, from what was
/// read about it.
pub fn static_info(facts: &StaticFacts, cores: usize) -> (info: StaticInfo)
    ensures
        info@ == static_info_of(facts@, cores),
{
    StaticInfo {
        hostname: told(&facts.hostname, "Unknown"),
        os_name: show_os(&facts.os_name, &facts.os_version),
        kernel: told(&facts.kernel, "Unknown"),
        cpu_brand: told(&facts.cpu_brand, ""),
        cores,
        total_memory: facts.total_memory_gb.clone().concat(" GB"),
        bios_version: read_or_unknown(&facts.bios_version),
        total_storage: facts.total_storage_gb.clone().concat(" GB"),
        gpu_names: show_gpus(&facts.gpus),
        cpu_frequency: match &facts.cpu_frequency_ghz {
            Some(n) => n.clone().concat(" GHz"),
            None => String::from_str("N/A"),
        },
        cpu_arch: facts.cpu_arch.clone(),
        motherboard: show_motherboard(&facts.board_vendor, &facts.board_name),
        boot_mode: if facts.efi_present {
            String::from_str("UEFI")
        } else {
            String::from_str("Legacy BIOS")
        },
        individual_disks: show_disks(&facts.disks),
    }
}

/// The time since the system started as shown: whole days, hours and
/// minutes.
pub open spec fn uptime_shown(seconds: u64) -> Seq<char> {
    decimal_text((seconds / 86400) as nat) + "d "@ + decimal_text(((seconds % 86400) / 3600) as nat)
        + "h "@ + decimal_text(((seconds % 3600) / 60) as nat) + "m"@
}

/// The time since the system started as shown.
pub fn show_uptime(seconds: u64) -> (out: String)
    ensures
        out@ == uptime_shown(seconds),
{
    let mut out: Vec<char> = Vec::new();
    push_str(&mut out, decimal(seconds / 86400).as_str());
    push_str(&mut out, "d ");
    push_str(&mut out, decimal((seconds % 86400) / 3600).as_str());
    push_str(&mut out, "h ");
    push_str(&mut out, decimal((seconds % 3600) / 60).as_str());
    push_str(&mut out, "m");
    assert(out@ =~= uptime_shown(seconds));
    string_of(&out)
}

impl SystemMonitor {
    /// The descriptors of the system, from what was read about it. The
    /// number of cores is that of the latest reading.
    pub fn get_static_info(&self, facts: &StaticFacts) -> (info: StaticInfo)
        ensures
            info@ == static_info_of(facts@, self@.latest.cpu_usage.len() as usize),
    {
        static_info(facts, self.get_cpu_count())
    }
}

} // verus!
