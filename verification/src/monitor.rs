//! The aggregator: one window of history per tracked entity, refreshed once
//! per tick from a reading of the system, and read back for display.
//!
//! Polling the system is the caller's part. A tick hands the aggregator one
//! [`SystemReading`]; the aggregator decides which windows exist, which
//! sample goes where, and what a reader sees.

use crate::history::{resized, shifted, zeros, HistoryBuffer, Sample, ZERO_SAMPLE};
use crate::stable_index::{sorted_names, stable_index};
use crate::text::{
    copy_opt_text, copy_strings, decimal, decimal_text, equal_text, opt_text, string_views,
};
use vstd::prelude::*;
use vstd::string::*;

verus! {

/// What one poll gives for one graphics processor: utilisation and used
/// memory, both in percent.
#[derive(Clone, Copy, Debug)]
pub struct GpuReading {
    pub utilization: Sample,
    pub memory_percent: Sample,
}

/// Memory of one graphics processor, in MB.
#[derive(Clone, Copy, Debug)]
pub struct GpuMemory {
    pub used_mb: Sample,
    pub total_mb: Sample,
}

/// One processor core: its latest usage and the window of its history.
#[derive(Debug)]
pub struct CoreData {
    pub usage: Sample,
    pub history: Vec<Sample>,
}

/// The plain content of a [`CoreData`].
pub struct CoreDataView {
    pub usage: Sample,
    pub history: Seq<Sample>,
}

impl View for CoreData {
    type V = CoreDataView;

    open spec fn view(&self) -> CoreDataView {
        CoreDataView {
            usage: self.usage,
            history: self.history@,
        }
    }
}

impl Clone for CoreData {
    fn clone(&self) -> (copy: Self)
        ensures
            copy@ == self@,
    {
        CoreData {
            usage: self.usage,
            history: self.history.clone(),
        }
    }
}

/// One graphics processor: latest utilisation, memory in MB, and the windows
/// of both histories.
#[derive(Debug)]
pub struct GpuData {
    pub name: String,
    pub util: Sample,
    pub mem_used_mb: Sample,
    pub mem_total_mb: Sample,
    pub util_history: Vec<Sample>,
    pub mem_history: Vec<Sample>,
}

/// The plain content of a [`GpuData`].
pub struct GpuDataView {
    pub name: Seq<char>,
    pub util: Sample,
    pub mem_used_mb: Sample,
    pub mem_total_mb: Sample,
    pub util_history: Seq<Sample>,
    pub mem_history: Seq<Sample>,
}

impl View for GpuData {
    type V = GpuDataView;

    open spec fn view(&self) -> GpuDataView {
        GpuDataView {
            name: self.name@,
            util: self.util,
            mem_used_mb: self.mem_used_mb,
            mem_total_mb: self.mem_total_mb,
            util_history: self.util_history@,
            mem_history: self.mem_history@,
        }
    }
}

impl Clone for GpuData {
    fn clone(&self) -> (copy: Self)
        ensures
            copy@ == self@,
    {
        GpuData {
            name: self.name.clone(),
            util: self.util,
            mem_used_mb: self.mem_used_mb,
            mem_total_mb: self.mem_total_mb,
            util_history: self.util_history.clone(),
            mem_history: self.mem_history.clone(),
        }
    }
}

/// The plain content of each record of a list.
pub open spec fn gpu_views(list: Seq<GpuData>) -> Seq<GpuDataView> {
    list.map_values(|item: GpuData| item@)
}

/// One network interface: rates of the last interval, running totals,
/// addresses, and the window of received megabytes.
#[derive(Debug)]
pub struct NetworkData {
    pub name: String,
    pub rx_bytes: u64,
    pub tx_bytes: u64,
    pub total_rx_bytes: u64,
    pub total_tx_bytes: u64,
    pub history: Vec<Sample>,
    pub ips_v4: Vec<String>,
    pub is_default: bool,
}

/// The plain content of a [`NetworkData`].
pub struct NetworkDataView {
    pub name: Seq<char>,
    pub rx_bytes: u64,
    pub tx_bytes: u64,
    pub total_rx_bytes: u64,
    pub total_tx_bytes: u64,
    pub history: Seq<Sample>,
    pub ips_v4: Seq<Seq<char>>,
    pub is_default: bool,
}

impl View for NetworkData {
    type V = NetworkDataView;

    open spec fn view(&self) -> NetworkDataView {
        NetworkDataView {
            name: self.name@,
            rx_bytes: self.rx_bytes,
            tx_bytes: self.tx_bytes,
            total_rx_bytes: self.total_rx_bytes,
            total_tx_bytes: self.total_tx_bytes,
            history: self.history@,
            ips_v4: string_views(self.ips_v4@),
            is_default: self.is_default,
        }
    }
}

impl Clone for NetworkData {
    fn clone(&self) -> (copy: Self)
        ensures
            copy@ == self@,
    {
        NetworkData {
            name: self.name.clone(),
            rx_bytes: self.rx_bytes,
            tx_bytes: self.tx_bytes,
            total_rx_bytes: self.total_rx_bytes,
            total_tx_bytes: self.total_tx_bytes,
            history: self.history.clone(),
            ips_v4: copy_strings(&self.ips_v4),
            is_default: self.is_default,
        }
    }
}

/// The plain content of each record of a list.
pub open spec fn network_data_views(list: Seq<NetworkData>) -> Seq<NetworkDataView> {
    list.map_values(|item: NetworkData| item@)
}

/// One mounted disk: name, mount point and space in bytes.
#[derive(Debug)]
pub struct DiskData {
    pub name: String,
    pub mount_point: String,
    pub total_space_bytes: u64,
    pub available_space_bytes: u64,
}

/// The plain content of a [`DiskData`].
pub struct DiskDataView {
    pub name: Seq<char>,
    pub mount_point: Seq<char>,
    pub total_space_bytes: u64,
    pub available_space_bytes: u64,
}

impl View for DiskData {
    type V = DiskDataView;

    open spec fn view(&self) -> DiskDataView {
        DiskDataView {
            name: self.name@,
            mount_point: self.mount_point@,
            total_space_bytes: self.total_space_bytes,
            available_space_bytes: self.available_space_bytes,
        }
    }
}

impl Clone for DiskData {
    fn clone(&self) -> (copy: Self)
        ensures
            copy@ == self@,
    {
        DiskData {
            name: self.name.clone(),
            mount_point: self.mount_point.clone(),
            total_space_bytes: self.total_space_bytes,
            available_space_bytes: self.available_space_bytes,
        }
    }
}

/// The plain content of each record of a list.
pub open spec fn disk_views(list: Seq<DiskData>) -> Seq<DiskDataView> {
    list.map_values(|item: DiskData| item@)
}

/// A copy of `list`, item by item.
pub fn copy_disk_list(list: &Vec<DiskData>) -> (copy: Vec<DiskData>)
    ensures
        disk_views(copy@) == disk_views(list@),
{
    let mut copy: Vec<DiskData> = Vec::new();
    let mut i: usize = 0;
    while i < list.len()
        invariant
            i <= list.len(),
            disk_views(copy@) == disk_views(list@).subrange(0, i as int),
        decreases list.len() - i,
    {
        let ghost before = disk_views(copy@);
        copy.push(list[i].clone());
        assert(disk_views(copy@) =~= before.push(list@[i as int]@));
        i = i + 1;
    }
    assert(disk_views(list@).subrange(0, list.len() as int) == disk_views(list@));
    copy
}

/// What one poll gives for one network interface: bytes of the last interval,
/// running totals, the received bytes of the interval in megabytes, and the
/// IPv4 addresses.
#[derive(Debug)]
pub struct InterfaceReading {
    pub name: String,
    pub rx_bytes: u64,
    pub tx_bytes: u64,
    pub total_rx_bytes: u64,
    pub total_tx_bytes: u64,
    pub rx_megabytes: Sample,
    pub ips_v4: Vec<String>,
}

/// The plain content of an [`InterfaceReading`].
pub struct InterfaceReadingView {
    pub name: Seq<char>,
    pub rx_bytes: u64,
    pub tx_bytes: u64,
    pub total_rx_bytes: u64,
    pub total_tx_bytes: u64,
    pub rx_megabytes: Sample,
    pub ips_v4: Seq<Seq<char>>,
}

impl View for InterfaceReading {
    type V = InterfaceReadingView;

    open spec fn view(&self) -> InterfaceReadingView {
        InterfaceReadingView {
            name: self.name@,
            rx_bytes: self.rx_bytes,
            tx_bytes: self.tx_bytes,
            total_rx_bytes: self.total_rx_bytes,
            total_tx_bytes: self.total_tx_bytes,
            rx_megabytes: self.rx_megabytes,
            ips_v4: string_views(self.ips_v4@),
        }
    }
}

impl Clone for InterfaceReading {
    fn clone(&self) -> (copy: Self)
        ensures
            copy@ == self@,
    {
        InterfaceReading {
            name: self.name.clone(),
            rx_bytes: self.rx_bytes,
            tx_bytes: self.tx_bytes,
            total_rx_bytes: self.total_rx_bytes,
            total_tx_bytes: self.total_tx_bytes,
            rx_megabytes: self.rx_megabytes,
            ips_v4: copy_strings(&self.ips_v4),
        }
    }
}

/// The plain content of each reading of a list.
pub open spec fn interface_views(list: Seq<InterfaceReading>) -> Seq<InterfaceReadingView> {
    list.map_values(|item: InterfaceReading| item@)
}

/// What a query gives for one graphics processor: its name and its memory,
/// each `None` where the query failed.
#[derive(Debug)]
pub struct GpuStatus {
    pub name: Option<String>,
    pub memory: Option<GpuMemory>,
}

/// The plain content of a [`GpuStatus`].
pub struct GpuStatusView {
    pub name: Option<Seq<char>>,
    pub memory: Option<GpuMemory>,
}

impl View for GpuStatus {
    type V = GpuStatusView;

    open spec fn view(&self) -> GpuStatusView {
        GpuStatusView {
            name: opt_text(self.name),
            memory: self.memory,
        }
    }
}

impl Clone for GpuStatus {
    fn clone(&self) -> (copy: Self)
        ensures
            copy@ == self@,
    {
        GpuStatus {
            name: copy_opt_text(&self.name),
            memory: self.memory,
        }
    }
}
/// What one poll of the system gives.
///
/// `gpus` is `None` where no graphics provider is there or its device count
/// could not be had; an entry of it is `None` where that device could not be
/// queried.
#[derive(Debug)]
pub struct SystemReading {
    pub cpu_usage: Vec<Sample>,
    pub memory_used: u64,
    pub memory_total: u64,
    pub memory_percent: Sample,
    pub gpus: Option<Vec<Option<GpuReading>>>,
    pub interfaces: Vec<InterfaceReading>,
    pub disks: Vec<DiskData>,
}

/// The plain content of a [`SystemReading`].
pub struct SystemReadingView {
    pub cpu_usage: Seq<Sample>,
    pub memory_used: u64,
    pub memory_total: u64,
    pub memory_percent: Sample,
    pub gpus: Option<Seq<Option<GpuReading>>>,
    pub interfaces: Seq<InterfaceReadingView>,
    pub disks: Seq<DiskDataView>,
}

impl View for SystemReading {
    type V = SystemReadingView;

    open spec fn view(&self) -> SystemReadingView {
        SystemReadingView {
            cpu_usage: self.cpu_usage@,
            memory_used: self.memory_used,
            memory_total: self.memory_total,
            memory_percent: self.memory_percent,
            gpus: match self.gpus {
                Some(list) => Some(list@),
                None => None,
            },
            interfaces: interface_views(self.interfaces@),
            disks: disk_views(self.disks@),
        }
    }
}

// ---------------------------------------------------------------------------
// Model

/// The windows of a family of histories.
pub open spec fn windows(family: Seq<HistoryBuffer>) -> Seq<Seq<Sample>> {
    family.map_values(|h: HistoryBuffer| h@)
}

/// The number of samples that cover sixty seconds at one sample every
/// `interval_ms` milliseconds, and at least one.
pub open spec fn capacity_for(interval_ms: u64) -> nat {
    if 60000int / (interval_ms as int) >= 1 {
        (60000int / (interval_ms as int)) as nat
    } else {
        1
    }
}

/// A family of `count` windows of `capacity` zero samples each.
pub open spec fn zero_family(count: nat, capacity: nat) -> Seq<Seq<Sample>> {
    Seq::new(count, |i: int| zeros(capacity))
}

/// A family brought to `count` windows: the first `count` stay, and windows
/// of `capacity` zero samples fill up.
pub open spec fn family_sized(family: Seq<Seq<Sample>>, count: nat, capacity: nat) -> Seq<
    Seq<Sample>,
> {
    Seq::new(
        count,
        |i: int|
            if i < family.len() {
                family[i]
            } else {
                zeros(capacity)
            },
    )
}

/// A family with every window brought to `capacity` entries.
pub open spec fn family_resized(family: Seq<Seq<Sample>>, capacity: nat) -> Seq<Seq<Sample>> {
    Seq::new(family.len(), |i: int| resized(family[i], capacity))
}

/// A family after a tick that gave window `i` the sample `samples[i]`, or
/// none where that is `None`. The family has one window per entry of
/// `samples` afterwards.
pub open spec fn family_refreshed(
    family: Seq<Seq<Sample>>,
    samples: Seq<Option<Sample>>,
    capacity: nat,
) -> Seq<Seq<Sample>> {
    Seq::new(
        samples.len(),
        |i: int|
            match samples[i] {
                Some(s) => shifted(family_sized(family, samples.len(), capacity)[i], s),
                None => family_sized(family, samples.len(), capacity)[i],
            },
    )
}

/// Every sample of a list, as one that arrived.
pub open spec fn all_arrived(samples: Seq<Sample>) -> Seq<Option<Sample>> {
    samples.map_values(|s: Sample| Some(s))
}

/// The utilisation samples of a tick, one per graphics processor.
pub open spec fn utilization_samples(gpus: Seq<Option<GpuReading>>) -> Seq<Option<Sample>> {
    gpus.map_values(
        |g: Option<GpuReading>|
            match g {
                Some(r) => Some(r.utilization),
                None => None,
            },
    )
}

/// The memory samples of a tick, one per graphics processor.
pub open spec fn memory_samples(gpus: Seq<Option<GpuReading>>) -> Seq<Option<Sample>> {
    gpus.map_values(
        |g: Option<GpuReading>|
            match g {
                Some(r) => Some(r.memory_percent),
                None => None,
            },
    )
}

/// The first reading of the interface called `name`.
pub open spec fn reading_named(readings: Seq<InterfaceReadingView>, name: Seq<char>) -> Option<
    InterfaceReadingView,
>
    decreases readings.len(),
{
    if readings.len() == 0 {
        None
    } else if readings[0].name == name {
        Some(readings[0])
    } else {
        reading_named(readings.drop_first(), name)
    }
}

/// The network family after a tick: the window in the slot of a name gets
/// the sample of the interface of that name. A window whose interface is not
/// among the readings stays as it was.
pub open spec fn network_refreshed(
    family: Seq<Seq<Sample>>,
    names: Seq<Seq<char>>,
    readings: Seq<InterfaceReadingView>,
) -> Seq<Seq<Sample>> {
    Seq::new(
        family.len(),
        |i: int|
            if i < names.len() {
                match reading_named(readings, names[i]) {
                    Some(r) => shifted(family[i], r.rx_megabytes),
                    None => family[i],
                }
            } else {
                family[i]
            },
    )
}

/// The state of the aggregator.
pub struct MonitorView {
    pub latest: SystemReadingView,
    pub cpu_history: Seq<Seq<Sample>>,
    pub mem_history: Seq<Sample>,
    pub gpu_util_history: Seq<Seq<Sample>>,
    pub gpu_mem_history: Seq<Seq<Sample>>,
    pub net_history: Seq<Seq<Sample>>,
    pub interface_names: Seq<Seq<char>>,
    pub max_history: nat,
}

/// The names of the interfaces of a reading, in the order read.
pub open spec fn names_read(readings: Seq<InterfaceReadingView>) -> Seq<Seq<char>> {
    readings.map_values(|r: InterfaceReadingView| r.name)
}

/// Number of graphics processors that a reading counts.
pub open spec fn gpu_count(reading: SystemReadingView) -> nat {
    match reading.gpus {
        Some(list) => list.len(),
        None => 0,
    }
}

/// The state of an aggregator made from a first reading.
pub open spec fn initial_state(interval_ms: u64, reading: SystemReadingView) -> MonitorView {
    let capacity = capacity_for(interval_ms);
    let names = sorted_names(names_read(reading.interfaces));
    MonitorView {
        latest: reading,
        cpu_history: zero_family(reading.cpu_usage.len(), capacity),
        mem_history: zeros(capacity),
        gpu_util_history: zero_family(gpu_count(reading), capacity),
        gpu_mem_history: zero_family(gpu_count(reading), capacity),
        net_history: zero_family(names.len(), capacity),
        interface_names: names,
        max_history: capacity,
    }
}

/// The state after the sampling interval changed: every window resized, the
/// rest as it was.
pub open spec fn with_refresh_rate(state: MonitorView, interval_ms: u64) -> MonitorView {
    let capacity = capacity_for(interval_ms);
    MonitorView {
        cpu_history: family_resized(state.cpu_history, capacity),
        mem_history: resized(state.mem_history, capacity),
        gpu_util_history: family_resized(state.gpu_util_history, capacity),
        gpu_mem_history: family_resized(state.gpu_mem_history, capacity),
        net_history: family_resized(state.net_history, capacity),
        max_history: capacity,
        ..state
    }
}

/// The state after a tick with `reading`.
pub open spec fn refreshed(state: MonitorView, reading: SystemReadingView) -> MonitorView {
    MonitorView {
        latest: reading,
        cpu_history: family_refreshed(
            state.cpu_history,
            all_arrived(reading.cpu_usage),
            state.max_history,
        ),
        mem_history: shifted(state.mem_history, reading.memory_percent),
        gpu_util_history: match reading.gpus {
            Some(list) => family_refreshed(
                state.gpu_util_history,
                utilization_samples(list),
                state.max_history,
            ),
            None => state.gpu_util_history,
        },
        gpu_mem_history: match reading.gpus {
            Some(list) => family_refreshed(
                state.gpu_mem_history,
                memory_samples(list),
                state.max_history,
            ),
            None => state.gpu_mem_history,
        },
        net_history: network_refreshed(
            state.net_history,
            state.interface_names,
            reading.interfaces,
        ),
        ..state
    }
}

/// Whether every window of a family has `capacity` entries.
pub open spec fn family_has_capacity(family: Seq<Seq<Sample>>, capacity: nat) -> bool {
    forall|i: int| 0 <= i < family.len() ==> (#[trigger] family[i]).len() == capacity
}

/// Whether a state is consistent: every window has the current capacity,
/// each core of the latest reading has its window, the two families of the
/// graphics processors are equally long, and each interface name has its
/// window.
pub open spec fn consistent(state: MonitorView) -> bool {
    &&& state.max_history >= 1
    &&& state.cpu_history.len() == state.latest.cpu_usage.len()
    &&& family_has_capacity(state.cpu_history, state.max_history)
    &&& state.mem_history.len() == state.max_history
    &&& family_has_capacity(state.gpu_util_history, state.max_history)
    &&& family_has_capacity(state.gpu_mem_history, state.max_history)
    &&& family_has_capacity(state.net_history, state.max_history)
    &&& state.gpu_util_history.len() == state.gpu_mem_history.len()
    &&& state.net_history.len() == state.interface_names.len()
}

/// The window in slot `index` of a family; empty where there is no such slot.
pub open spec fn window_at(family: Seq<Seq<Sample>>, index: int) -> Seq<Sample> {
    if 0 <= index < family.len() {
        family[index]
    } else {
        Seq::empty()
    }
}

/// The newest sample of a window, or zero for an empty one.
pub open spec fn newest_or_zero(window: Seq<Sample>) -> Sample {
    if window.len() == 0 {
        ZERO_SAMPLE
    } else {
        window.last()
    }
}

/// The record of graphics processor `index`, from what a query gave and from
/// the histories.
pub open spec fn gpu_row(state: MonitorView, index: int, status: GpuStatusView) -> GpuDataView {
    GpuDataView {
        name: match status.name {
            Some(n) => n,
            None => "GPU "@ + decimal_text(index as nat),
        },
        util: newest_or_zero(window_at(state.gpu_util_history, index)),
        mem_used_mb: match status.memory {
            Some(m) => m.used_mb,
            None => ZERO_SAMPLE,
        },
        mem_total_mb: match status.memory {
            Some(m) => m.total_mb,
            None => ZERO_SAMPLE,
        },
        util_history: window_at(state.gpu_util_history, index),
        mem_history: window_at(state.gpu_mem_history, index),
    }
}

/// The records of the first `count` graphics processors that could be
/// queried.
pub open spec fn gpu_rows(state: MonitorView, devices: Seq<Option<GpuStatusView>>, count: nat) -> Seq<
    GpuDataView,
>
    decreases count,
{
    if count == 0 {
        Seq::empty()
    } else {
        let before = gpu_rows(state, devices, (count - 1) as nat);
        match devices[count - 1] {
            Some(status) => before.push(gpu_row(state, count - 1, status)),
            None => before,
        }
    }
}

/// The record of the interface in slot `index`, from its latest reading.
pub open spec fn network_row(
    state: MonitorView,
    index: int,
    reading: InterfaceReadingView,
    default_interface: Option<Seq<char>>,
) -> NetworkDataView {
    NetworkDataView {
        name: state.interface_names[index],
        rx_bytes: reading.rx_bytes,
        tx_bytes: reading.tx_bytes,
        total_rx_bytes: reading.total_rx_bytes,
        total_tx_bytes: reading.total_tx_bytes,
        history: window_at(state.net_history, index),
        ips_v4: reading.ips_v4,
        is_default: default_interface == Some(state.interface_names[index]),
    }
}

/// The records of the interfaces in the first `count` slots that the latest
/// reading knows.
pub open spec fn network_rows(
    state: MonitorView,
    default_interface: Option<Seq<char>>,
    count: nat,
) -> Seq<NetworkDataView>
    decreases count,
{
    if count == 0 {
        Seq::empty()
    } else {
        let before = network_rows(state, default_interface, (count - 1) as nat);
        match reading_named(state.latest.interfaces, state.interface_names[count - 1]) {
            Some(r) => before.push(network_row(state, count - 1, r, default_interface)),
            None => before,
        }
    }
}

/// The views of a list of statuses that may be missing.
pub open spec fn status_views(list: Seq<Option<GpuStatus>>) -> Seq<Option<GpuStatusView>> {
    list.map_values(
        |s: Option<GpuStatus>|
            match s {
                Some(x) => Some(x@),
                None => None,
            },
    )
}

// ---------------------------------------------------------------------------
// Families

/// The number of samples that cover sixty seconds at one sample every
/// `interval_ms` milliseconds, and at least one.
pub fn history_capacity(interval_ms: u64) -> (capacity: usize)
    requires
        interval_ms > 0,
    ensures
        capacity == capacity_for(interval_ms),
        1 <= capacity <= 60000,
{
    let per_window: u64 = 60000 / interval_ms;
    if per_window >= 1 {
        per_window as usize
    } else {
        1
    }
}

fn size_family(family: &mut Vec<HistoryBuffer>, count: usize, capacity: usize)
    ensures
        windows(final(family)@) == family_sized(
            windows(old(family)@),
            count as nat,
            capacity as nat,
        ),
{
    family.truncate(count);
    assert(windows(family@) =~= family_sized(
        windows(old(family)@),
        family.len() as nat,
        capacity as nat,
    ));
    while family.len() < count
        invariant
            family.len() <= count,
            old(family).len() <= family.len() || family.len() == count,
            windows(family@) == family_sized(
                windows(old(family)@),
                family.len() as nat,
                capacity as nat,
            ),
        decreases count - family.len(),
    {
        let ghost before = windows(family@);
        family.push(HistoryBuffer::new(capacity));
        assert(windows(family@) =~= before.push(zeros(capacity as nat)));
        assert(windows(family@) =~= family_sized(
            windows(old(family)@),
            family.len() as nat,
            capacity as nat,
        ));
    }
}

fn resize_family(family: &mut Vec<HistoryBuffer>, capacity: usize)
    ensures
        windows(final(family)@) == family_resized(windows(old(family)@), capacity as nat),
{
    let mut i: usize = 0;
    while i < family.len()
        invariant
            i <= family.len(),
            family.len() == old(family).len(),
            forall|j: int| 0 <= j < i ==> (#[trigger] family@[j])@ == resized(old(family)@[j]@, capacity as nat),
            forall|j: int| i <= j < family.len() ==> (#[trigger] family@[j])@ == old(family)@[j]@,
        decreases family.len() - i,
    {
        family[i].resize(capacity);
        i = i + 1;
    }
    assert(windows(family@) =~= family_resized(windows(old(family)@), capacity as nat));
}

fn refresh_family(family: &mut Vec<HistoryBuffer>, samples: &Vec<Option<Sample>>, capacity: usize)
    ensures
        windows(final(family)@) == family_refreshed(
            windows(old(family)@),
            samples@,
            capacity as nat,
        ),
{
    size_family(family, samples.len(), capacity);
    let ghost sized = windows(family@);
    assert(sized.len() == family.len());
    let mut i: usize = 0;
    while i < samples.len()
        invariant
            i <= samples.len(),
            family.len() == samples.len(),
            sized.len() == samples.len(),
            forall|j: int| 0 <= j < i ==> (#[trigger] family@[j])@ == match samples@[j] {
                Some(s) => shifted(sized[j], s),
                None => sized[j],
            },
            forall|j: int| i <= j < family.len() ==> (#[trigger] family@[j])@ == sized[j],
        decreases samples.len() - i,
    {
        match samples[i] {
            Some(s) => {
                family[i].push(s);
            },
            None => {},
        }
        i = i + 1;
    }
    assert(windows(family@) =~= family_refreshed(
        windows(old(family)@),
        samples@,
        capacity as nat,
    ));
}

fn snapshot_at(family: &Vec<HistoryBuffer>, index: usize) -> (window: Vec<Sample>)
    ensures
        window@ == window_at(windows(family@), index as int),
{
    if index < family.len() {
        family[index].snapshot()
    } else {
        Vec::new()
    }
}

fn refresh_network(
    family: &mut Vec<HistoryBuffer>,
    names: &Vec<String>,
    readings: &Vec<InterfaceReading>,
)
    ensures
        windows(final(family)@) == network_refreshed(
            windows(old(family)@),
            string_views(names@),
            interface_views(readings@),
        ),
{
    let ghost before = windows(family@);
    let ghost goal = network_refreshed(before, string_views(names@), interface_views(readings@));
    let mut i: usize = 0;
    while i < names.len() && i < family.len()
        invariant
            i <= names.len(),
            i <= family.len(),
            family.len() == before.len(),
            goal == network_refreshed(before, string_views(names@), interface_views(readings@)),
            forall|j: int| 0 <= j < i ==> (#[trigger] family@[j])@ == goal[j],
            forall|j: int| i <= j < family.len() ==> (#[trigger] family@[j])@ == before[j],
        decreases family.len() - i,
    {
        match find_reading(readings, names[i].as_str()) {
            Some(k) => {
                family[i].push(readings[k].rx_megabytes);
            },
            None => {},
        }
        i = i + 1;
    }
    assert(windows(family@) =~= goal);
}

/// The position of the first reading of the interface called `name`.
fn find_reading(readings: &Vec<InterfaceReading>, name: &str) -> (found: Option<usize>)
    ensures
        match found {
            Some(k) => k < readings.len() && reading_named(interface_views(readings@), name@)
                == Some(readings@[k as int]@),
            None => reading_named(interface_views(readings@), name@) is None,
        },
{
    let ghost all = interface_views(readings@);
    let mut k: usize = 0;
    assert(all.subrange(0, all.len() as int) == all);
    while k < readings.len()
        invariant
            k <= readings.len(),
            all == interface_views(readings@),
            reading_named(all, name@) == reading_named(
                all.subrange(k as int, all.len() as int),
                name@,
            ),
        decreases readings.len() - k,
    {
        let ghost rest = all.subrange(k as int, all.len() as int);
        assert(rest[0] == readings@[k as int]@);
        assert(rest.drop_first() == all.subrange(k + 1, all.len() as int));
        if equal_text(readings[k].name.as_str(), name) {
            return Some(k);
        }
        k = k + 1;
    }
    None
}

// ---------------------------------------------------------------------------
// The aggregator

/// Owns every window of history and the stable order of the network
/// interfaces. One owner calls it, one call at a time.
pub struct SystemMonitor {
    latest: SystemReading,
    cpu_history: Vec<HistoryBuffer>,
    mem_history: HistoryBuffer,
    gpu_util_history: Vec<HistoryBuffer>,
    gpu_mem_history: Vec<HistoryBuffer>,
    net_history: Vec<HistoryBuffer>,
    interface_names: Vec<String>,
    max_history: usize,
}

impl View for SystemMonitor {
    type V = MonitorView;

    closed spec fn view(&self) -> MonitorView {
        MonitorView {
            latest: self.latest@,
            cpu_history: windows(self.cpu_history@),
            mem_history: self.mem_history@,
            gpu_util_history: windows(self.gpu_util_history@),
            gpu_mem_history: windows(self.gpu_mem_history@),
            net_history: windows(self.net_history@),
            interface_names: string_views(self.interface_names@),
            max_history: self.max_history as nat,
        }
    }
}

fn new_family(count: usize, capacity: usize) -> (family: Vec<HistoryBuffer>)
    ensures
        windows(family@) == zero_family(count as nat, capacity as nat),
{
    let mut family: Vec<HistoryBuffer> = Vec::new();
    size_family(&mut family, count, capacity);
    assert(windows(family@) =~= zero_family(count as nat, capacity as nat));
    family
}

fn arrived(samples: &Vec<Sample>) -> (out: Vec<Option<Sample>>)
    ensures
        out@ == all_arrived(samples@),
{
    let mut out: Vec<Option<Sample>> = Vec::new();
    let mut i: usize = 0;
    while i < samples.len()
        invariant
            i <= samples.len(),
            out@ == all_arrived(samples@).subrange(0, i as int),
        decreases samples.len() - i,
    {
        out.push(Some(samples[i]));
        i = i + 1;
    }
    assert(all_arrived(samples@).subrange(0, samples.len() as int) == all_arrived(samples@));
    out
}

fn gpu_samples(gpus: &Vec<Option<GpuReading>>) -> (out: (Vec<Option<Sample>>, Vec<Option<Sample>>))
    ensures
        out.0@ == utilization_samples(gpus@),
        out.1@ == memory_samples(gpus@),
{
    let mut utilization: Vec<Option<Sample>> = Vec::new();
    let mut memory: Vec<Option<Sample>> = Vec::new();
    let mut i: usize = 0;
    while i < gpus.len()
        invariant
            i <= gpus.len(),
            utilization@ == utilization_samples(gpus@).subrange(0, i as int),
            memory@ == memory_samples(gpus@).subrange(0, i as int),
        decreases gpus.len() - i,
    {
        match gpus[i] {
            Some(r) => {
                utilization.push(Some(r.utilization));
                memory.push(Some(r.memory_percent));
            },
            None => {
                utilization.push(None);
                memory.push(None);
            },
        }
        i = i + 1;
    }
    assert(utilization_samples(gpus@).subrange(0, gpus.len() as int) == utilization_samples(
        gpus@,
    ));
    assert(memory_samples(gpus@).subrange(0, gpus.len() as int) == memory_samples(gpus@));
    (utilization, memory)
}

fn names_of(readings: &Vec<InterfaceReading>) -> (names: Vec<String>)
    ensures
        string_views(names@) == names_read(interface_views(readings@)),
{
    let mut names: Vec<String> = Vec::new();
    let mut i: usize = 0;
    while i < readings.len()
        invariant
            i <= readings.len(),
            string_views(names@) == names_read(interface_views(readings@)).subrange(0, i as int),
        decreases readings.len() - i,
    {
        let ghost before = string_views(names@);
        names.push(readings[i].name.clone());
        assert(string_views(names@) =~= before.push(readings@[i as int]@.name));
        i = i + 1;
    }
    assert(names_read(interface_views(readings@)).subrange(0, readings.len() as int)
        == names_read(interface_views(readings@)));
    names
}

impl SystemMonitor {
    /// An aggregator for sampling every `refresh_rate_ms` milliseconds, from
    /// a first reading of the system: one zero window per core, one for the
    /// memory, two per graphics processor, and one per network interface,
    /// the interfaces in their stable order.
    pub fn new(refresh_rate_ms: u64, reading: SystemReading) -> (monitor: SystemMonitor)
        requires
            refresh_rate_ms > 0,
        ensures
            monitor@ == initial_state(refresh_rate_ms, reading@),
            consistent(monitor@),
    {
        proof {
            lemma_initial_state_consistent(refresh_rate_ms, reading@);
        }
        let max_history = history_capacity(refresh_rate_ms);
        let listed = names_of(&reading.interfaces);
        let interface_names = stable_index(&listed);
        let gpus: usize = match &reading.gpus {
            Some(list) => list.len(),
            None => 0,
        };
        let cpu_history = new_family(reading.cpu_usage.len(), max_history);
        let gpu_util_history = new_family(gpus, max_history);
        let gpu_mem_history = new_family(gpus, max_history);
        let net_history = new_family(interface_names.len(), max_history);
        SystemMonitor {
            latest: reading,
            cpu_history,
            mem_history: HistoryBuffer::new(max_history),
            gpu_util_history,
            gpu_mem_history,
            net_history,
            interface_names,
            max_history,
        }
    }

    /// Changes the sampling interval: every window is resized so that it
    /// covers sixty seconds again, the newest samples staying.
    pub fn set_refresh_rate(&mut self, ms: u64)
        requires
            ms > 0,
        ensures
            final(self)@ == with_refresh_rate(old(self)@, ms),
            consistent(old(self)@) ==> consistent(final(self)@),
    {
        proof {
            if consistent(self@) {
                lemma_refresh_rate_keeps_consistent(self@, ms);
            }
        }
        self.max_history = history_capacity(ms);
        resize_family(&mut self.cpu_history, self.max_history);
        self.mem_history.resize(self.max_history);
        resize_family(&mut self.gpu_util_history, self.max_history);
        resize_family(&mut self.gpu_mem_history, self.max_history);
        resize_family(&mut self.net_history, self.max_history);
    }

    /// One tick: takes a reading of the system and pushes one sample into
    /// each window that the reading has a sample for.
    pub fn refresh(&mut self, reading: SystemReading)
        ensures
            final(self)@ == refreshed(old(self)@, reading@),
            consistent(old(self)@) ==> consistent(final(self)@),
    {
        proof {
            if consistent(self@) {
                lemma_refresh_keeps_consistent(self@, reading@);
            }
        }
        let cpu = arrived(&reading.cpu_usage);
        refresh_family(&mut self.cpu_history, &cpu, self.max_history);
        self.mem_history.push(reading.memory_percent);
        match &reading.gpus {
            Some(list) => {
                let (utilization, memory) = gpu_samples(list);
                refresh_family(&mut self.gpu_util_history, &utilization, self.max_history);
                refresh_family(&mut self.gpu_mem_history, &memory, self.max_history);
            },
            None => {},
        }
        refresh_network(&mut self.net_history, &self.interface_names, &reading.interfaces);
        self.latest = reading;
    }

    /// Number of samples that each window holds.
    pub fn max_history(&self) -> (capacity: usize)
        ensures
            capacity == self@.max_history,
    {
        self.max_history
    }

    /// The names of the network interfaces, each at the position of its slot.
    pub fn interface_names(&self) -> (names: Vec<String>)
        ensures
            string_views(names@) == self@.interface_names,
    {
        copy_strings(&self.interface_names)
    }

    /// Number of processor cores in the latest reading.
    pub fn get_cpu_count(&self) -> (count: usize)
        ensures
            count == self@.latest.cpu_usage.len(),
    {
        self.latest.cpu_usage.len()
    }

    /// The window of core `index`, oldest sample first; empty where there is
    /// no such core. In a consistent state the window is empty for no other
    /// index.
    pub fn get_cpu_history(&self, index: usize) -> (window: Vec<Sample>)
        ensures
            window@ == window_at(self@.cpu_history, index as int),
            consistent(self@) ==> (window@.len() == 0 <==> index >= self@.latest.cpu_usage.len()),
    {
        snapshot_at(&self.cpu_history, index)
    }

    /// Used and total memory of the latest reading, in bytes.
    pub fn get_memory_info(&self) -> (info: (u64, u64))
        ensures
            info.0 == self@.latest.memory_used,
            info.1 == self@.latest.memory_total,
    {
        (self.latest.memory_used, self.latest.memory_total)
    }

    /// The window of the memory usage, oldest sample first.
    pub fn get_memory_history(&self) -> (window: Vec<Sample>)
        ensures
            window@ == self@.mem_history,
    {
        self.mem_history.snapshot()
    }

    /// The window in network slot `index`, oldest sample first; empty where
    /// there is no such slot. A slot whose interface is gone keeps the
    /// window it had.
    pub fn get_network_history(&self, index: usize) -> (window: Vec<Sample>)
        ensures
            window@ == window_at(self@.net_history, index as int),
    {
        snapshot_at(&self.net_history, index)
    }

    /// One record per graphics processor that could be queried, in the order
    /// of `devices`, whose position is the number of the processor. A
    /// processor without a name is called by its number.
    pub fn get_gpu_data(&self, devices: &Vec<Option<GpuStatus>>) -> (rows: Vec<GpuData>)
        ensures
            gpu_views(rows@) == gpu_rows(self@, status_views(devices@), devices.len() as nat),
            devices.len() == 0 ==> rows.len() == 0,
    {
        let mut rows: Vec<GpuData> = Vec::new();
        let mut i: usize = 0;
        while i < devices.len()
            invariant
                i <= devices.len(),
                gpu_views(rows@) == gpu_rows(self@, status_views(devices@), i as nat),
            decreases devices.len() - i,
        {
            let ghost before = gpu_views(rows@);
            match &devices[i] {
                Some(status) => {
                    let name = match &status.name {
                        Some(n) => n.clone(),
                        None => String::from_str("GPU ").concat(decimal(i as u64).as_str()),
                    };
                    let util = if i < self.gpu_util_history.len() {
                        match self.gpu_util_history[i].latest() {
                            Some(s) => s,
                            None => ZERO_SAMPLE,
                        }
                    } else {
                        ZERO_SAMPLE
                    };
                    let (mem_used_mb, mem_total_mb) = match status.memory {
                        Some(m) => (m.used_mb, m.total_mb),
                        None => (ZERO_SAMPLE, ZERO_SAMPLE),
                    };
                    let row = GpuData {
                        name,
                        util,
                        mem_used_mb,
                        mem_total_mb,
                        util_history: snapshot_at(&self.gpu_util_history, i),
                        mem_history: snapshot_at(&self.gpu_mem_history, i),
                    };
                    assert(row@ == gpu_row(self@, i as int, status@));
                    rows.push(row);
                    assert(gpu_views(rows@) =~= before.push(gpu_row(self@, i as int, status@)));
                },
                None => {},
            }
            i = i + 1;
        }
        assert(gpu_views(rows@).len() == rows.len());
        rows
    }

    /// One record per slot whose interface the latest reading knows, in the
    /// order of the slots. `default_interface` is the name of the interface
    /// that carries the default route, where there is one.
    pub fn get_network_data(&self, default_interface: &Option<String>) -> (rows: Vec<NetworkData>)
        ensures
            network_data_views(rows@) == network_rows(
                self@,
                opt_text(*default_interface),
                self@.interface_names.len(),
            ),
    {
        let mut rows: Vec<NetworkData> = Vec::new();
        let mut i: usize = 0;
        while i < self.interface_names.len()
            invariant
                i <= self.interface_names.len(),
                network_data_views(rows@) == network_rows(
                    self@,
                    opt_text(*default_interface),
                    i as nat,
                ),
            decreases self.interface_names.len() - i,
        {
            let ghost before = network_data_views(rows@);
            let name = &self.interface_names[i];
            match find_reading(&self.latest.interfaces, name.as_str()) {
                Some(k) => {
                    let reading = &self.latest.interfaces[k];
                    let is_default = match default_interface {
                        Some(d) => equal_text(d.as_str(), name.as_str()),
                        None => false,
                    };
                    let row = NetworkData {
                        name: name.clone(),
                        rx_bytes: reading.rx_bytes,
                        tx_bytes: reading.tx_bytes,
                        total_rx_bytes: reading.total_rx_bytes,
                        total_tx_bytes: reading.total_tx_bytes,
                        history: snapshot_at(&self.net_history, i),
                        ips_v4: copy_strings(&reading.ips_v4),
                        is_default,
                    };
                    let ghost expected = network_row(
                        self@,
                        i as int,
                        reading@,
                        opt_text(*default_interface),
                    );
                    assert(row@ == expected);
                    rows.push(row);
                    assert(network_data_views(rows@) =~= before.push(expected));
                },
                None => {},
            }
            i = i + 1;
        }
        rows
    }

    /// The mounted disks of the latest reading.
    pub fn get_disk_data(&self) -> (disks: Vec<DiskData>)
        ensures
            disk_views(disks@) == self@.latest.disks,
    {
        copy_disk_list(&self.latest.disks)
    }
}

// ---------------------------------------------------------------------------
// Laws

/// An aggregator starts consistent, with the capacity that its interval
/// asks for.
pub proof fn lemma_initial_state_consistent(interval_ms: u64, reading: SystemReadingView)
    requires
        interval_ms > 0,
    ensures
        consistent(initial_state(interval_ms, reading)),
        initial_state(interval_ms, reading).max_history == capacity_for(interval_ms),
{
}

/// A change of the sampling interval keeps the state consistent, gives every
/// window the capacity that the new interval asks for, and keeps the number
/// of windows of every family.
pub proof fn lemma_refresh_rate_keeps_consistent(state: MonitorView, interval_ms: u64)
    requires
        consistent(state),
        interval_ms > 0,
    ensures
        consistent(with_refresh_rate(state, interval_ms)),
        with_refresh_rate(state, interval_ms).max_history == capacity_for(interval_ms),
        with_refresh_rate(state, interval_ms).cpu_history.len() == state.cpu_history.len(),
        with_refresh_rate(state, interval_ms).net_history.len() == state.net_history.len(),
{
}

/// A tick keeps the state consistent, whatever the reading holds: cores or
/// graphics processors may have come or gone, interfaces may be missing.
pub proof fn lemma_refresh_keeps_consistent(state: MonitorView, reading: SystemReadingView)
    requires
        consistent(state),
    ensures
        consistent(refreshed(state, reading)),
        refreshed(state, reading).cpu_history.len() == reading.cpu_usage.len(),
        refreshed(state, reading).net_history.len() == state.net_history.len(),
        reading.gpus matches Some(list) ==> refreshed(state, reading).gpu_util_history.len()
            == list.len(),
{
}

/// Where the graphics processors are gone, a reader gets no record of any.
pub proof fn lemma_no_devices_no_rows(state: MonitorView)
    ensures
        gpu_rows(state, Seq::empty(), 0) == Seq::<GpuDataView>::empty(),
{
}

/// A slot whose interface is missing from a reading keeps its window through
/// the tick.
pub proof fn lemma_missing_interface_keeps_window(
    state: MonitorView,
    reading: SystemReadingView,
    slot: int,
)
    requires
        0 <= slot < state.net_history.len(),
        slot < state.interface_names.len(),
        reading_named(reading.interfaces, state.interface_names[slot]) is None,
    ensures
        refreshed(state, reading).net_history[slot] == state.net_history[slot],
{
}

} // verus!
