use gjallarhorn::monitor::{
    history_capacity, DiskData, GpuMemory, GpuReading, GpuStatus, InterfaceReading, SystemMonitor,
    SystemReading,
};

fn bits(values: &[f32]) -> Vec<u32> {
    values.iter().map(|v| v.to_bits()).collect()
}

fn interface(name: &str, rx_mb: f32) -> InterfaceReading {
    InterfaceReading {
        name: name.to_string(),
        rx_bytes: 10,
        tx_bytes: 20,
        total_rx_bytes: 1000,
        total_tx_bytes: 2000,
        rx_megabytes: rx_mb.to_bits(),
        ips_v4: vec!["192.168.1.2".to_string()],
    }
}

fn reading(
    cpu: &[f32],
    mem: f32,
    gpus: Option<Vec<Option<GpuReading>>>,
    interfaces: Vec<InterfaceReading>,
) -> SystemReading {
    SystemReading {
        cpu_usage: bits(cpu),
        memory_used: 4 << 30,
        memory_total: 16 << 30,
        memory_percent: mem.to_bits(),
        gpus,
        interfaces,
        disks: vec![DiskData {
            name: "/dev/sda1".to_string(),
            mount_point: "/".to_string(),
            total_space_bytes: 500,
            available_space_bytes: 200,
        }],
    }
}

fn gpu(util: f32, mem: f32) -> Option<GpuReading> {
    Some(GpuReading { utilization: util.to_bits(), memory_percent: mem.to_bits() })
}

#[test]
fn capacity_covers_sixty_seconds() {
    assert_eq!(history_capacity(500), 120);
    assert_eq!(history_capacity(1000), 60);
    assert_eq!(history_capacity(100000), 1);
    assert_eq!(history_capacity(60000), 1);
    assert_eq!(history_capacity(60001), 1);
    assert_eq!(history_capacity(1), 60000);
    assert_eq!(history_capacity(7), 8571);
    assert_eq!(history_capacity(u64::MAX), 1);
}

#[test]
fn new_monitor_has_zero_windows_and_sorted_interfaces() {
    let m = SystemMonitor::new(
        20000,
        reading(&[0.0, 0.0], 0.0, Some(vec![gpu(0.0, 0.0)]), vec![interface("wlan0", 0.0), interface("eth0", 0.0)]),
    );
    assert_eq!(m.max_history(), 3);
    assert_eq!(m.get_cpu_count(), 2);
    assert_eq!(m.get_cpu_history(0), bits(&[0.0, 0.0, 0.0]));
    assert_eq!(m.get_cpu_history(1), bits(&[0.0, 0.0, 0.0]));
    assert_eq!(m.get_cpu_history(2), Vec::<u32>::new());
    assert_eq!(m.get_memory_history(), bits(&[0.0, 0.0, 0.0]));
    assert_eq!(m.interface_names(), vec!["eth0".to_string(), "wlan0".to_string()]);
    assert_eq!(m.get_network_history(0), bits(&[0.0, 0.0, 0.0]));
    assert_eq!(m.get_network_history(1), bits(&[0.0, 0.0, 0.0]));
    assert_eq!(m.get_network_history(2), Vec::<u32>::new());
    assert_eq!(m.get_memory_info(), (4 << 30, 16 << 30));
}

#[test]
fn refresh_pushes_one_sample_per_stream() {
    let mut m = SystemMonitor::new(
        20000,
        reading(&[0.0, 0.0], 0.0, Some(vec![gpu(0.0, 0.0)]), vec![interface("wlan0", 0.0), interface("eth0", 0.0)]),
    );
    m.refresh(reading(
        &[10.0, 20.0],
        25.0,
        Some(vec![gpu(50.0, 75.0)]),
        vec![interface("wlan0", 1.5), interface("eth0", 2.5)],
    ));
    m.refresh(reading(
        &[11.0, 21.0],
        26.0,
        Some(vec![gpu(51.0, 76.0)]),
        vec![interface("eth0", 3.5), interface("wlan0", 4.5)],
    ));
    assert_eq!(m.get_cpu_history(0), bits(&[0.0, 10.0, 11.0]));
    assert_eq!(m.get_cpu_history(1), bits(&[0.0, 20.0, 21.0]));
    assert_eq!(m.get_memory_history(), bits(&[0.0, 25.0, 26.0]));
    assert_eq!(m.get_network_history(0), bits(&[0.0, 2.5, 3.5]));
    assert_eq!(m.get_network_history(1), bits(&[0.0, 1.5, 4.5]));
    let gpus = m.get_gpu_data(&vec![Some(GpuStatus {
        name: Some("Card".to_string()),
        memory: Some(GpuMemory { used_mb: 512.0f32.to_bits(), total_mb: 1024.0f32.to_bits() }),
    })]);
    assert_eq!(gpus.len(), 1);
    assert_eq!(gpus[0].name, "Card");
    assert_eq!(gpus[0].util, 51.0f32.to_bits());
    assert_eq!(gpus[0].mem_used_mb, 512.0f32.to_bits());
    assert_eq!(gpus[0].mem_total_mb, 1024.0f32.to_bits());
    assert_eq!(gpus[0].util_history, bits(&[0.0, 50.0, 51.0]));
    assert_eq!(gpus[0].mem_history, bits(&[0.0, 75.0, 76.0]));
}

#[test]
fn set_refresh_rate_resizes_every_window() {
    let mut m = SystemMonitor::new(
        20000,
        reading(&[0.0], 0.0, Some(vec![gpu(0.0, 0.0)]), vec![interface("eth0", 0.0)]),
    );
    m.refresh(reading(&[1.0], 2.0, Some(vec![gpu(3.0, 4.0)]), vec![interface("eth0", 5.0)]));
    m.refresh(reading(&[6.0], 7.0, Some(vec![gpu(8.0, 9.0)]), vec![interface("eth0", 10.0)]));
    m.set_refresh_rate(12000);
    assert_eq!(m.max_history(), 5);
    assert_eq!(m.get_cpu_history(0), bits(&[0.0, 0.0, 0.0, 1.0, 6.0]));
    assert_eq!(m.get_memory_history(), bits(&[0.0, 0.0, 0.0, 2.0, 7.0]));
    assert_eq!(m.get_network_history(0), bits(&[0.0, 0.0, 0.0, 5.0, 10.0]));
    m.set_refresh_rate(60000);
    assert_eq!(m.max_history(), 1);
    assert_eq!(m.get_cpu_history(0), bits(&[6.0]));
    assert_eq!(m.get_memory_history(), bits(&[7.0]));
    assert_eq!(m.get_network_history(0), bits(&[10.0]));
    let gpus = m.get_gpu_data(&vec![Some(GpuStatus { name: None, memory: None })]);
    assert_eq!(gpus[0].util_history, bits(&[8.0]));
    assert_eq!(gpus[0].mem_history, bits(&[9.0]));
    m.set_refresh_rate(500);
    assert_eq!(m.max_history(), 120);
    assert_eq!(m.get_cpu_history(0).len(), 120);
    assert_eq!(m.get_cpu_history(0)[119], 6.0f32.to_bits());
    m.set_refresh_rate(1000);
    assert_eq!(m.max_history(), 60);
    m.set_refresh_rate(100000);
    assert_eq!(m.max_history(), 1);
}

#[test]
fn cores_may_come_and_go() {
    let mut m = SystemMonitor::new(30000, reading(&[0.0, 0.0], 0.0, None, vec![]));
    m.refresh(reading(&[1.0, 2.0, 3.0], 0.0, None, vec![]));
    assert_eq!(m.get_cpu_count(), 3);
    assert_eq!(m.get_cpu_history(2), bits(&[0.0, 3.0]));
    m.refresh(reading(&[4.0], 0.0, None, vec![]));
    assert_eq!(m.get_cpu_count(), 1);
    assert_eq!(m.get_cpu_history(0), bits(&[1.0, 4.0]));
    assert_eq!(m.get_cpu_history(1), Vec::<u32>::new());
    m.refresh(reading(&[], 0.0, None, vec![]));
    assert_eq!(m.get_cpu_count(), 0);
    assert_eq!(m.get_cpu_history(0), Vec::<u32>::new());
}

#[test]
fn gpu_count_drops_from_two_to_zero() {
    let mut m = SystemMonitor::new(
        30000,
        reading(&[0.0], 0.0, Some(vec![gpu(0.0, 0.0), gpu(0.0, 0.0)]), vec![]),
    );
    m.refresh(reading(&[1.0], 1.0, Some(vec![gpu(10.0, 20.0), gpu(30.0, 40.0)]), vec![]));
    let two = m.get_gpu_data(&vec![
        Some(GpuStatus { name: None, memory: None }),
        Some(GpuStatus { name: None, memory: None }),
    ]);
    assert_eq!(two.len(), 2);
    assert_eq!(two[0].name, "GPU 0");
    assert_eq!(two[1].name, "GPU 1");
    assert_eq!(two[1].util, 30.0f32.to_bits());
    assert_eq!(two[1].mem_used_mb, 0);
    m.refresh(reading(&[2.0], 2.0, Some(vec![]), vec![]));
    m.refresh(reading(&[3.0], 3.0, Some(vec![]), vec![]));
    assert_eq!(m.get_gpu_data(&vec![]).len(), 0);
    let late = m.get_gpu_data(&vec![Some(GpuStatus { name: None, memory: None })]);
    assert_eq!(late[0].util, 0);
    assert_eq!(late[0].util_history, Vec::<u32>::new());
    assert_eq!(m.get_cpu_history(0), bits(&[2.0, 3.0]));
}

#[test]
fn no_gpu_provider_leaves_windows_alone() {
    let mut m = SystemMonitor::new(30000, reading(&[0.0], 0.0, Some(vec![gpu(0.0, 0.0)]), vec![]));
    m.refresh(reading(&[1.0], 1.0, Some(vec![gpu(10.0, 20.0)]), vec![]));
    m.refresh(reading(&[1.0], 1.0, None, vec![]));
    let rows = m.get_gpu_data(&vec![Some(GpuStatus { name: None, memory: None })]);
    assert_eq!(rows[0].util_history, bits(&[0.0, 10.0]));
}

#[test]
fn gpu_that_cannot_be_queried_gets_no_sample_and_no_row() {
    let mut m = SystemMonitor::new(
        30000,
        reading(&[0.0], 0.0, Some(vec![gpu(0.0, 0.0), gpu(0.0, 0.0)]), vec![]),
    );
    m.refresh(reading(&[1.0], 1.0, Some(vec![None, gpu(30.0, 40.0)]), vec![]));
    let rows = m.get_gpu_data(&vec![None, Some(GpuStatus { name: None, memory: None })]);
    assert_eq!(rows.len(), 1);
    assert_eq!(rows[0].name, "GPU 1");
    assert_eq!(rows[0].util_history, bits(&[0.0, 30.0]));
    let both = m.get_gpu_data(&vec![
        Some(GpuStatus { name: None, memory: None }),
        Some(GpuStatus { name: None, memory: None }),
    ]);
    assert_eq!(both[0].util_history, bits(&[0.0, 0.0]));
}

#[test]
fn interface_that_disappears_keeps_its_stale_window() {
    let mut m = SystemMonitor::new(
        20000,
        reading(&[0.0], 0.0, None, vec![interface("eth0", 0.0), interface("wlan0", 0.0)]),
    );
    m.refresh(reading(&[0.0], 0.0, None, vec![interface("eth0", 1.0), interface("wlan0", 2.0)]));
    m.refresh(reading(&[0.0], 0.0, None, vec![interface("eth0", 3.0)]));
    m.refresh(reading(&[0.0], 0.0, None, vec![interface("eth0", 4.0)]));
    assert_eq!(m.get_network_history(0), bits(&[1.0, 3.0, 4.0]));
    assert_eq!(m.get_network_history(1), bits(&[0.0, 0.0, 2.0]));
    assert_eq!(m.interface_names(), vec!["eth0".to_string(), "wlan0".to_string()]);
    let rows = m.get_network_data(&None);
    assert_eq!(rows.len(), 1);
    assert_eq!(rows[0].name, "eth0");
}

#[test]
fn new_interface_gets_no_slot_until_index_is_recomputed() {
    let mut m = SystemMonitor::new(20000, reading(&[0.0], 0.0, None, vec![interface("eth0", 0.0)]));
    m.refresh(reading(&[0.0], 0.0, None, vec![interface("eth0", 1.0), interface("usb0", 9.0)]));
    assert_eq!(m.interface_names(), vec!["eth0".to_string()]);
    assert_eq!(m.get_network_history(1), Vec::<u32>::new());
    assert_eq!(m.get_network_data(&None).len(), 1);
}

#[test]
fn network_rows_carry_latest_reading_and_default_flag() {
    let mut m = SystemMonitor::new(
        30000,
        reading(&[0.0], 0.0, None, vec![interface("wlan0", 0.0), interface("eth0", 0.0)]),
    );
    m.refresh(reading(&[0.0], 0.0, None, vec![interface("wlan0", 1.0), interface("eth0", 2.0)]));
    let rows = m.get_network_data(&Some("wlan0".to_string()));
    assert_eq!(rows.len(), 2);
    assert_eq!(rows[0].name, "eth0");
    assert!(!rows[0].is_default);
    assert_eq!(rows[0].history, bits(&[0.0, 2.0]));
    assert_eq!(rows[0].rx_bytes, 10);
    assert_eq!(rows[0].tx_bytes, 20);
    assert_eq!(rows[0].total_rx_bytes, 1000);
    assert_eq!(rows[0].total_tx_bytes, 2000);
    assert_eq!(rows[0].ips_v4, vec!["192.168.1.2".to_string()]);
    assert_eq!(rows[1].name, "wlan0");
    assert!(rows[1].is_default);
    assert_eq!(rows[1].history, bits(&[0.0, 1.0]));
    assert!(m.get_network_data(&None).iter().all(|r| !r.is_default));
}

#[test]
fn disks_are_those_of_the_latest_reading() {
    let m = SystemMonitor::new(1000, reading(&[0.0], 0.0, None, vec![]));
    let disks = m.get_disk_data();
    assert_eq!(disks.len(), 1);
    assert_eq!(disks[0].name, "/dev/sda1");
    assert_eq!(disks[0].mount_point, "/");
    assert_eq!(disks[0].total_space_bytes, 500);
    assert_eq!(disks[0].available_space_bytes, 200);
}

#[test]
fn cpu_window_is_empty_exactly_past_the_last_core() {
    let mut m = SystemMonitor::new(60000, reading(&[0.0, 0.0], 0.0, None, vec![]));
    for cores in [2usize, 3, 1, 0, 4] {
        let usage: Vec<f32> = (0..cores).map(|c| c as f32).collect();
        m.refresh(reading(&usage, 0.0, None, vec![]));
        m.set_refresh_rate(30000);
        for index in 0..6 {
            assert_eq!(m.get_cpu_history(index).is_empty(), index >= m.get_cpu_count());
        }
        m.set_refresh_rate(60000);
    }
}
