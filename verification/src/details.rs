//! Descriptive records of the hardware, one kind per family. A record is
//! built whole and never updated field by field.

use crate::history::Sample;
use vstd::prelude::*;

verus! {

/// The processor: identity, core counts, clock rates in GHz, caches and
/// capabilities.
#[derive(Debug)]
pub struct CpuDetailedInfo {
    pub name: String,
    pub vendor: String,
    pub architecture: String,
    pub cores_physical: usize,
    pub cores_logical: usize,
    pub frequency_current: Sample,
    pub frequency_max: Sample,
    pub frequency_min: Sample,
    pub cache_l1d: String,
    pub cache_l1i: String,
    pub cache_l2: String,
    pub cache_l3: String,
    pub virtualization: String,
    pub flags: String,
}

/// The plain content of a [`CpuDetailedInfo`].
pub struct CpuDetailedInfoView {
    pub name: Seq<char>,
    pub vendor: Seq<char>,
    pub architecture: Seq<char>,
    pub cores_physical: usize,
    pub cores_logical: usize,
    pub frequency_current: Sample,
    pub frequency_max: Sample,
    pub frequency_min: Sample,
    pub cache_l1d: Seq<char>,
    pub cache_l1i: Seq<char>,
    pub cache_l2: Seq<char>,
    pub cache_l3: Seq<char>,
    pub virtualization: Seq<char>,
    pub flags: Seq<char>,
}

impl View for CpuDetailedInfo {
    type V = CpuDetailedInfoView;

    open spec fn view(&self) -> CpuDetailedInfoView {
        CpuDetailedInfoView {
            name: self.name@,
            vendor: self.vendor@,
            architecture: self.architecture@,
            cores_physical: self.cores_physical,
            cores_logical: self.cores_logical,
            frequency_current: self.frequency_current,
            frequency_max: self.frequency_max,
            frequency_min: self.frequency_min,
            cache_l1d: self.cache_l1d@,
            cache_l1i: self.cache_l1i@,
            cache_l2: self.cache_l2@,
            cache_l3: self.cache_l3@,
            virtualization: self.virtualization@,
            flags: self.flags@,
        }
    }
}

impl Clone for CpuDetailedInfo {
    fn clone(&self) -> (copy: Self)
        ensures
            copy@ == self@,
    {
        CpuDetailedInfo {
            name: self.name.clone(),
            vendor: self.vendor.clone(),
            architecture: self.architecture.clone(),
            cores_physical: self.cores_physical,
            cores_logical: self.cores_logical,
            frequency_current: self.frequency_current,
            frequency_max: self.frequency_max,
            frequency_min: self.frequency_min,
            cache_l1d: self.cache_l1d.clone(),
            cache_l1i: self.cache_l1i.clone(),
            cache_l2: self.cache_l2.clone(),
            cache_l3: self.cache_l3.clone(),
            virtualization: self.virtualization.clone(),
            flags: self.flags.clone(),
        }
    }
}

/// The installed memory: capacity, kind, speed and module count.
#[derive(Debug)]
pub struct MemoryDetailedInfo {
    pub total_capacity: String,
    pub used_capacity: String,
    pub memory_type: String,
    pub speed: String,
    pub channels: u32,
    pub module_count: u32,
}

/// The plain content of a [`MemoryDetailedInfo`].
pub struct MemoryDetailedInfoView {
    pub total_capacity: Seq<char>,
    pub used_capacity: Seq<char>,
    pub memory_type: Seq<char>,
    pub speed: Seq<char>,
    pub channels: u32,
    pub module_count: u32,
}

impl View for MemoryDetailedInfo {
    type V = MemoryDetailedInfoView;

    open spec fn view(&self) -> MemoryDetailedInfoView {
        MemoryDetailedInfoView {
            total_capacity: self.total_capacity@,
            used_capacity: self.used_capacity@,
            memory_type: self.memory_type@,
            speed: self.speed@,
            channels: self.channels,
            module_count: self.module_count,
        }
    }
}

impl Clone for MemoryDetailedInfo {
    fn clone(&self) -> (copy: Self)
        ensures
            copy@ == self@,
    {
        MemoryDetailedInfo {
            total_capacity: self.total_capacity.clone(),
            used_capacity: self.used_capacity.clone(),
            memory_type: self.memory_type.clone(),
            speed: self.speed.clone(),
            channels: self.channels,
            module_count: self.module_count,
        }
    }
}

/// One physical disk: what it is and how healthy it reports itself.
#[derive(Debug)]
pub struct StorageDetailedInfo {
    pub device_name: String,
    pub model: String,
    pub capacity_bytes: u64,
    pub interface_type: String,
    pub is_ssd: bool,
    pub serial_number: String,
    pub firmware_version: String,
    pub health_status: String,
}

/// The plain content of a [`StorageDetailedInfo`].
pub struct StorageDetailedInfoView {
    pub device_name: Seq<char>,
    pub model: Seq<char>,
    pub capacity_bytes: u64,
    pub interface_type: Seq<char>,
    pub is_ssd: bool,
    pub serial_number: Seq<char>,
    pub firmware_version: Seq<char>,
    pub health_status: Seq<char>,
}

impl View for StorageDetailedInfo {
    type V = StorageDetailedInfoView;

    open spec fn view(&self) -> StorageDetailedInfoView {
        StorageDetailedInfoView {
            device_name: self.device_name@,
            model: self.model@,
            capacity_bytes: self.capacity_bytes,
            interface_type: self.interface_type@,
            is_ssd: self.is_ssd,
            serial_number: self.serial_number@,
            firmware_version: self.firmware_version@,
            health_status: self.health_status@,
        }
    }
}

impl Clone for StorageDetailedInfo {
    fn clone(&self) -> (copy: Self)
        ensures
            copy@ == self@,
    {
        StorageDetailedInfo {
            device_name: self.device_name.clone(),
            model: self.model.clone(),
            capacity_bytes: self.capacity_bytes,
            interface_type: self.interface_type.clone(),
            is_ssd: self.is_ssd,
            serial_number: self.serial_number.clone(),
            firmware_version: self.firmware_version.clone(),
            health_status: self.health_status.clone(),
        }
    }
}

/// The plain content of each record of a list.
pub open spec fn storage_views(list: Seq<StorageDetailedInfo>) -> Seq<StorageDetailedInfoView> {
    list.map_values(|item: StorageDetailedInfo| item@)
}

/// A copy of `list`, item by item.
pub fn copy_storage_list(list: &Vec<StorageDetailedInfo>) -> (copy: Vec<StorageDetailedInfo>)
    ensures
        storage_views(copy@) == storage_views(list@),
{
    let mut copy: Vec<StorageDetailedInfo> = Vec::new();
    let mut i: usize = 0;
    while i < list.len()
        invariant
            i <= list.len(),
            storage_views(copy@) == storage_views(list@).subrange(0, i as int),
        decreases list.len() - i,
    {
        let ghost before = storage_views(copy@);
        copy.push(list[i].clone());
        assert(storage_views(copy@) =~= before.push(list@[i as int]@));
        i = i + 1;
    }
    assert(storage_views(list@).subrange(0, list.len() as int) == storage_views(list@));
    copy
}

/// One graphics processor: memory in bytes, driver, and the sensor readings
/// that could be had. Power is in watts.
#[derive(Debug)]
pub struct GpuDetailedInfo {
    pub name: String,
    pub vram_total: u64,
    pub vram_used: u64,
    pub driver_version: String,
    pub temperature: Option<i32>,
    pub power_draw: Option<Sample>,
    pub power_limit: Option<Sample>,
    pub fan_speed: Option<u32>,
    pub gpu_utilization: Option<u32>,
    pub memory_utilization: Option<u32>,
}

/// The plain content of a [`GpuDetailedInfo`].
pub struct GpuDetailedInfoView {
    pub name: Seq<char>,
    pub vram_total: u64,
    pub vram_used: u64,
    pub driver_version: Seq<char>,
    pub temperature: Option<i32>,
    pub power_draw: Option<Sample>,
    pub power_limit: Option<Sample>,
    pub fan_speed: Option<u32>,
    pub gpu_utilization: Option<u32>,
    pub memory_utilization: Option<u32>,
}

impl View for GpuDetailedInfo {
    type V = GpuDetailedInfoView;

    open spec fn view(&self) -> GpuDetailedInfoView {
        GpuDetailedInfoView {
            name: self.name@,
            vram_total: self.vram_total,
            vram_used: self.vram_used,
            driver_version: self.driver_version@,
            temperature: self.temperature,
            power_draw: self.power_draw,
            power_limit: self.power_limit,
            fan_speed: self.fan_speed,
            gpu_utilization: self.gpu_utilization,
            memory_utilization: self.memory_utilization,
        }
    }
}

impl Clone for GpuDetailedInfo {
    fn clone(&self) -> (copy: Self)
        ensures
            copy@ == self@,
    {
        GpuDetailedInfo {
            name: self.name.clone(),
            vram_total: self.vram_total,
            vram_used: self.vram_used,
            driver_version: self.driver_version.clone(),
            temperature: self.temperature,
            power_draw: self.power_draw,
            power_limit: self.power_limit,
            fan_speed: self.fan_speed,
            gpu_utilization: self.gpu_utilization,
            memory_utilization: self.memory_utilization,
        }
    }
}

/// The plain content of each record of a list.
pub open spec fn gpu_detail_views(list: Seq<GpuDetailedInfo>) -> Seq<GpuDetailedInfoView> {
    list.map_values(|item: GpuDetailedInfo| item@)
}

/// One network interface: addresses, running totals and link speed.
#[derive(Debug)]
pub struct NetworkDetailedInfo {
    pub name: String,
    pub mac_address: String,
    pub rx_bytes: u64,
    pub tx_bytes: u64,
    pub rx_packets: u64,
    pub tx_packets: u64,
    pub ip_v4: String,
    pub ip_v6: String,
    pub link_speed: String,
}

/// The plain content of a [`NetworkDetailedInfo`].
pub struct NetworkDetailedInfoView {
    pub name: Seq<char>,
    pub mac_address: Seq<char>,
    pub rx_bytes: u64,
    pub tx_bytes: u64,
    pub rx_packets: u64,
    pub tx_packets: u64,
    pub ip_v4: Seq<char>,
    pub ip_v6: Seq<char>,
    pub link_speed: Seq<char>,
}

impl View for NetworkDetailedInfo {
    type V = NetworkDetailedInfoView;

    open spec fn view(&self) -> NetworkDetailedInfoView {
        NetworkDetailedInfoView {
            name: self.name@,
            mac_address: self.mac_address@,
            rx_bytes: self.rx_bytes,
            tx_bytes: self.tx_bytes,
            rx_packets: self.rx_packets,
            tx_packets: self.tx_packets,
            ip_v4: self.ip_v4@,
            ip_v6: self.ip_v6@,
            link_speed: self.link_speed@,
        }
    }
}

impl Clone for NetworkDetailedInfo {
    fn clone(&self) -> (copy: Self)
        ensures
            copy@ == self@,
    {
        NetworkDetailedInfo {
            name: self.name.clone(),
            mac_address: self.mac_address.clone(),
            rx_bytes: self.rx_bytes,
            tx_bytes: self.tx_bytes,
            rx_packets: self.rx_packets,
            tx_packets: self.tx_packets,
            ip_v4: self.ip_v4.clone(),
            ip_v6: self.ip_v6.clone(),
            link_speed: self.link_speed.clone(),
        }
    }
}

/// The plain content of each record of a list.
pub open spec fn network_views(list: Seq<NetworkDetailedInfo>) -> Seq<NetworkDetailedInfoView> {
    list.map_values(|item: NetworkDetailedInfo| item@)
}

/// A copy of `list`, item by item.
pub fn copy_network_list(list: &Vec<NetworkDetailedInfo>) -> (copy: Vec<NetworkDetailedInfo>)
    ensures
        network_views(copy@) == network_views(list@),
{
    let mut copy: Vec<NetworkDetailedInfo> = Vec::new();
    let mut i: usize = 0;
    while i < list.len()
        invariant
            i <= list.len(),
            network_views(copy@) == network_views(list@).subrange(0, i as int),
        decreases list.len() - i,
    {
        let ghost before = network_views(copy@);
        copy.push(list[i].clone());
        assert(network_views(copy@) =~= before.push(list@[i as int]@));
        i = i + 1;
    }
    assert(network_views(list@).subrange(0, list.len() as int) == network_views(list@));
    copy
}

} // verus!
