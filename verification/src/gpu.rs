//! Graphics processors in detail: from what a query gave for each processor
//! to one record per processor that could be queried.

use crate::details::{gpu_detail_views, GpuDetailedInfo, GpuDetailedInfoView};
use crate::history::Sample;
use crate::monitor::SystemMonitor;
use crate::text::{copy_opt_text, decimal, decimal_text, opt_text};
use vstd::prelude::*;
use vstd::string::*;

verus! {

/// Memory of one graphics processor, in bytes.
#[derive(Clone, Copy, Debug)]
pub struct VideoMemory {
    pub total: u64,
    pub used: u64,
}

/// What a query gives for one graphics processor. A value is `None` where
/// its query failed. Memory is in bytes, power in watts.
#[derive(Debug)]
pub struct GpuProbe {
    pub name: Option<String>,
    pub memory: Option<VideoMemory>,
    pub driver_version: Option<String>,
    pub temperature: Option<u32>,
    pub power_draw: Option<Sample>,
    pub power_limit: Option<Sample>,
    pub fan_speed: Option<u32>,
    pub gpu_utilization: Option<u32>,
    pub memory_utilization: Option<u32>,
}

/// The plain content of a [`GpuProbe`].
pub struct GpuProbeView {
    pub name: Option<Seq<char>>,
    pub memory: Option<VideoMemory>,
    pub driver_version: Option<Seq<char>>,
    pub temperature: Option<u32>,
    pub power_draw: Option<Sample>,
    pub power_limit: Option<Sample>,
    pub fan_speed: Option<u32>,
    pub gpu_utilization: Option<u32>,
    pub memory_utilization: Option<u32>,
}

impl View for GpuProbe {
    type V = GpuProbeView;

    open spec fn view(&self) -> GpuProbeView {
        GpuProbeView {
            name: opt_text(self.name),
            memory: self.memory,
            driver_version: opt_text(self.driver_version),
            temperature: self.temperature,
            power_draw: self.power_draw,
            power_limit: self.power_limit,
            fan_speed: self.fan_speed,
            gpu_utilization: self.gpu_utilization,
            memory_utilization: self.memory_utilization,
        }
    }
}

impl Clone for GpuProbe {
    fn clone(&self) -> (copy: Self)
        ensures
            copy@ == self@,
    {
        GpuProbe {
            name: copy_opt_text(&self.name),
            memory: self.memory,
            driver_version: copy_opt_text(&self.driver_version),
            temperature: self.temperature,
            power_draw: self.power_draw,
            power_limit: self.power_limit,
            fan_speed: self.fan_speed,
            gpu_utilization: self.gpu_utilization,
            memory_utilization: self.memory_utilization,
        }
    }
}

/// A temperature reading as the record holds it: the same number where it
/// fits, else the number that the same 32 bits write with a sign.
pub open spec fn temperature_held(reading: u32) -> i32 {
    if reading <= i32::MAX {
        reading as i32
    } else {
        (reading - 0x1_0000_0000) as i32
    }
}

/// The record of graphics processor `index`. A processor without a name is
/// called by its number.
pub open spec fn gpu_detail_of(index: int, probe: GpuProbeView) -> GpuDetailedInfoView {
    GpuDetailedInfoView {
        name: match probe.name {
            Some(n) => n,
            None => "NVIDIA GPU "@ + decimal_text(index as nat),
        },
        vram_total: match probe.memory {
            Some(m) => m.total,
            None => 0,
        },
        vram_used: match probe.memory {
            Some(m) => m.used,
            None => 0,
        },
        driver_version: match probe.driver_version {
            Some(v) => v,
            None => "Unknown"@,
        },
        temperature: match probe.temperature {
            Some(t) => Some(temperature_held(t)),
            None => None,
        },
        power_draw: probe.power_draw,
        power_limit: probe.power_limit,
        fan_speed: probe.fan_speed,
        gpu_utilization: probe.gpu_utilization,
        memory_utilization: probe.memory_utilization,
    }
}

/// The records of the first `count` graphics processors that could be
/// queried.
pub open spec fn gpu_details_of(devices: Seq<Option<GpuProbeView>>, count: nat) -> Seq<
    GpuDetailedInfoView,
>
    decreases count,
{
    if count == 0 {
        Seq::empty()
    } else {
        let before = gpu_details_of(devices, (count - 1) as nat);
        match devices[count - 1] {
            Some(probe) => before.push(gpu_detail_of(count - 1, probe)),
            None => before,
        }
    }
}

/// The views of a list of probes that may be missing.
pub open spec fn gpu_probe_views(list: Seq<Option<GpuProbe>>) -> Seq<Option<GpuProbeView>> {
    list.map_values(
        |p: Option<GpuProbe>|
            match p {
                Some(x) => Some(x@),
                None => None,
            },
    )
}

/// A temperature reading as the record holds it.
pub fn temperature(reading: u32) -> (held: i32)
    ensures
        held == temperature_held(reading),
{
    if reading <= 0x7fff_ffff {
        reading as i32
    } else {
        let above: u32 = reading - 0x8000_0000;
        (above as i32) - 0x7fff_ffff - 1
    }
}

/// The record of graphics processor `index`.
pub fn gpu_detail(index: usize, probe: &GpuProbe) -> (detail: GpuDetailedInfo)
    ensures
        detail@ == gpu_detail_of(index as int, probe@),
{
    let (vram_total, vram_used) = match probe.memory {
        Some(m) => (m.total, m.used),
        None => (0, 0),
    };
    GpuDetailedInfo {
        name: match &probe.name {
            Some(n) => n.clone(),
            None => String::from_str("NVIDIA GPU ").concat(decimal(index as u64).as_str()),
        },
        vram_total,
        vram_used,
        driver_version: match &probe.driver_version {
            Some(v) => v.clone(),
            None => String::from_str("Unknown"),
        },
        temperature: match probe.temperature {
            Some(t) => Some(temperature(t)),
            None => None,
        },
        power_draw: probe.power_draw,
        power_limit: probe.power_limit,
        fan_speed: probe.fan_speed,
        gpu_utilization: probe.gpu_utilization,
        memory_utilization: probe.memory_utilization,
    }
}

/// One record per graphics processor that could be queried, in the order of
/// `devices`, whose position is the number of the processor.
pub fn gpu_details(devices: &Vec<Option<GpuProbe>>) -> (details: Vec<GpuDetailedInfo>)
    ensures
        gpu_detail_views(details@) == gpu_details_of(
            gpu_probe_views(devices@),
            devices.len() as nat,
        ),
{
    let mut details: Vec<GpuDetailedInfo> = Vec::new();
    let mut i: usize = 0;
    while i < devices.len()
        invariant
            i <= devices.len(),
            gpu_detail_views(details@) == gpu_details_of(gpu_probe_views(devices@), i as nat),
        decreases devices.len() - i,
    {
        let ghost before = gpu_detail_views(details@);
        match &devices[i] {
            Some(probe) => {
                let detail = gpu_detail(i, probe);
                details.push(detail);
                assert(gpu_detail_views(details@) =~= before.push(
                    gpu_detail_of(i as int, probe@),
                ));
            },
            None => {},
        }
        i = i + 1;
    }
    details
}

impl SystemMonitor {
    /// One record per graphics processor that could be queried. Where no
    /// provider is there, `devices` is empty and so is the result.
    pub fn get_gpu_detailed_info(&self, devices: &Vec<Option<GpuProbe>>) -> (details: Vec<
        GpuDetailedInfo,
    >)
        ensures
            gpu_detail_views(details@) == gpu_details_of(
                gpu_probe_views(devices@),
                devices.len() as nat,
            ),
    {
        gpu_details(devices)
    }
}

} // verus!
