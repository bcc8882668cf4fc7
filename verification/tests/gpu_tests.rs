use gjallarhorn::gpu::{gpu_detail, gpu_details, temperature, GpuProbe, VideoMemory};

fn full() -> GpuProbe {
    GpuProbe {
        name: Some("GeForce".to_string()),
        memory: Some(VideoMemory { total: 8 << 30, used: 1 << 30 }),
        driver_version: Some("535.54".to_string()),
        temperature: Some(61),
        power_draw: Some(120.5f32.to_bits()),
        power_limit: Some(250.0f32.to_bits()),
        fan_speed: Some(40),
        gpu_utilization: Some(17),
        memory_utilization: Some(9),
    }
}

fn bare() -> GpuProbe {
    GpuProbe {
        name: None,
        memory: None,
        driver_version: None,
        temperature: None,
        power_draw: None,
        power_limit: None,
        fan_speed: None,
        gpu_utilization: None,
        memory_utilization: None,
    }
}

#[test]
fn temperature_keeps_the_bits() {
    for t in [0u32, 61, i32::MAX as u32, i32::MAX as u32 + 1, u32::MAX] {
        assert_eq!(temperature(t), t as i32);
    }
}

#[test]
fn record_of_a_processor() {
    let d = gpu_detail(0, &full());
    assert_eq!(d.name, "GeForce");
    assert_eq!(d.vram_total, 8 << 30);
    assert_eq!(d.vram_used, 1 << 30);
    assert_eq!(d.driver_version, "535.54");
    assert_eq!(d.temperature, Some(61));
    assert_eq!(d.power_draw, Some(120.5f32.to_bits()));
    assert_eq!(d.power_limit, Some(250.0f32.to_bits()));
    assert_eq!(d.fan_speed, Some(40));
    assert_eq!(d.gpu_utilization, Some(17));
    assert_eq!(d.memory_utilization, Some(9));
}

#[test]
fn fallbacks_of_a_processor_that_tells_nothing() {
    let d = gpu_detail(12, &bare());
    assert_eq!(d.name, "NVIDIA GPU 12");
    assert_eq!(d.vram_total, 0);
    assert_eq!(d.vram_used, 0);
    assert_eq!(d.driver_version, "Unknown");
    assert_eq!(d.temperature, None);
    assert_eq!(d.power_draw, None);
    assert_eq!(d.fan_speed, None);
}

#[test]
fn list_passes_over_processors_that_could_not_be_queried() {
    let list = gpu_details(&vec![None, Some(bare()), Some(full()), None, Some(bare())]);
    let names: Vec<&str> = list.iter().map(|d| d.name.as_str()).collect();
    assert_eq!(names, vec!["NVIDIA GPU 1", "GeForce", "NVIDIA GPU 4"]);
    assert_eq!(gpu_details(&vec![]).len(), 0);
}
