use gjallarhorn::details::{NetworkDetailedInfo, StorageDetailedInfo};
use gjallarhorn::monitor::{SystemMonitor, SystemReading};
use gjallarhorn::network::{AddressReading, InterfaceProbe};
use gjallarhorn::storage::{BlockDeviceProbe, SmartRun};
use gjallarhorn::worker::{
    decode_line, encode_line, privileged_of_value, privileged_value, PrivilegedData,
    PrivilegedSlot,
};

fn disk(name: &str) -> StorageDetailedInfo {
    StorageDetailedInfo {
        device_name: name.to_string(),
        model: "Samsung \"EVO\" \\ 970".to_string(),
        capacity_bytes: 500_107_862_016,
        interface_type: "NVMe".to_string(),
        is_ssd: true,
        serial_number: "S4EWNX0M\u{e9}\n".to_string(),
        firmware_version: "2B2QEXE7".to_string(),
        health_status: "Passed".to_string(),
    }
}

fn net(name: &str) -> NetworkDetailedInfo {
    NetworkDetailedInfo {
        name: name.to_string(),
        mac_address: "aa:bb:cc:dd:ee:ff".to_string(),
        rx_bytes: u64::MAX,
        tx_bytes: 0,
        rx_packets: 12,
        tx_packets: 34,
        ip_v4: "10.0.0.2".to_string(),
        ip_v6: "fe80::1".to_string(),
        link_speed: "1000 Mbps".to_string(),
    }
}

fn bundle() -> PrivilegedData {
    PrivilegedData { storage: vec![disk("nvme0n1"), disk("sda")], network: vec![net("eth0")] }
}

fn same_disk(a: &StorageDetailedInfo, b: &StorageDetailedInfo) -> bool {
    a.device_name == b.device_name
        && a.model == b.model
        && a.capacity_bytes == b.capacity_bytes
        && a.interface_type == b.interface_type
        && a.is_ssd == b.is_ssd
        && a.serial_number == b.serial_number
        && a.firmware_version == b.firmware_version
        && a.health_status == b.health_status
}

fn same_net(a: &NetworkDetailedInfo, b: &NetworkDetailedInfo) -> bool {
    a.name == b.name
        && a.mac_address == b.mac_address
        && a.rx_bytes == b.rx_bytes
        && a.tx_bytes == b.tx_bytes
        && a.rx_packets == b.rx_packets
        && a.tx_packets == b.tx_packets
        && a.ip_v4 == b.ip_v4
        && a.ip_v6 == b.ip_v6
        && a.link_speed == b.link_speed
}

fn same_bundle(a: &PrivilegedData, b: &PrivilegedData) -> bool {
    a.storage.len() == b.storage.len()
        && a.network.len() == b.network.len()
        && a.storage.iter().zip(b.storage.iter()).all(|(x, y)| same_disk(x, y))
        && a.network.iter().zip(b.network.iter()).all(|(x, y)| same_net(x, y))
}

fn empty_reading() -> SystemReading {
    SystemReading {
        cpu_usage: vec![],
        memory_used: 0,
        memory_total: 0,
        memory_percent: 0,
        gpus: None,
        interfaces: vec![],
        disks: vec![],
    }
}

#[test]
fn line_round_trip_gives_the_bundle_back() {
    let data = bundle();
    let line = encode_line(&data).expect("a line");
    assert!(!line.contains('\n'));
    let back = decode_line(&line).expect("a bundle");
    assert!(same_bundle(&data, &back));
}

#[test]
fn empty_bundle_round_trip() {
    let data = PrivilegedData { storage: vec![], network: vec![] };
    let line = encode_line(&data).expect("a line");
    assert_eq!(line, "{\"network\":[],\"storage\":[]}");
    let back = decode_line(&line).expect("a bundle");
    assert!(same_bundle(&data, &back));
}

#[test]
fn encoded_line_is_compact_json_with_all_fields() {
    let data = PrivilegedData { storage: vec![], network: vec![net("lo")] };
    let line = encode_line(&data).expect("a line");
    assert_eq!(
        line,
        "{\"network\":[{\"ip_v4\":\"10.0.0.2\",\"ip_v6\":\"fe80::1\",\"link_speed\":\"1000 Mbps\",\"mac_address\":\"aa:bb:cc:dd:ee:ff\",\"name\":\"lo\",\"rx_bytes\":18446744073709551615,\"rx_packets\":12,\"tx_bytes\":0,\"tx_packets\":34}],\"storage\":[]}"
    );
}

#[test]
fn decode_reads_fields_in_any_order_and_passes_over_others() {
    let line = "{\"extra\":1,\"network\":[],\"storage\":[{\"health_status\":\"Failed\",\"firmware_version\":\"f\",\"serial_number\":\"s\",\"is_ssd\":false,\"interface_type\":\"SATA\",\"capacity_bytes\":42,\"model\":\"m\",\"device_name\":\"sda\",\"more\":null}]}";
    let data = decode_line(line).expect("a bundle");
    assert_eq!(data.network.len(), 0);
    assert_eq!(data.storage.len(), 1);
    let d = &data.storage[0];
    assert_eq!(d.device_name, "sda");
    assert_eq!(d.model, "m");
    assert_eq!(d.capacity_bytes, 42);
    assert_eq!(d.interface_type, "SATA");
    assert!(!d.is_ssd);
    assert_eq!(d.serial_number, "s");
    assert_eq!(d.firmware_version, "f");
    assert_eq!(d.health_status, "Failed");
}

#[test]
fn decode_refuses_lines_of_another_shape() {
    for line in [
        "",
        "not json",
        "{",
        "null",
        "[]",
        "{}",
        "{\"storage\":[]}",
        "{\"network\":[]}",
        "{\"storage\":{},\"network\":[]}",
        "{\"storage\":[],\"network\":null}",
        "{\"storage\":[1],\"network\":[]}",
        "{\"storage\":[{\"device_name\":\"sda\"}],\"network\":[]}",
        "{\"storage\":[{\"device_name\":\"sda\",\"model\":\"m\",\"capacity_bytes\":-1,\"interface_type\":\"SATA\",\"is_ssd\":false,\"serial_number\":\"s\",\"firmware_version\":\"f\",\"health_status\":\"h\"}],\"network\":[]}",
        "{\"storage\":[{\"device_name\":\"sda\",\"model\":\"m\",\"capacity_bytes\":1.5,\"interface_type\":\"SATA\",\"is_ssd\":false,\"serial_number\":\"s\",\"firmware_version\":\"f\",\"health_status\":\"h\"}],\"network\":[]}",
        "{\"storage\":[{\"device_name\":\"sda\",\"model\":\"m\",\"capacity_bytes\":1,\"interface_type\":\"SATA\",\"is_ssd\":\"no\",\"serial_number\":\"s\",\"firmware_version\":\"f\",\"health_status\":\"h\"}],\"network\":[]}",
        "{\"storage\":[{\"device_name\":7,\"model\":\"m\",\"capacity_bytes\":1,\"interface_type\":\"SATA\",\"is_ssd\":false,\"serial_number\":\"s\",\"firmware_version\":\"f\",\"health_status\":\"h\"}],\"network\":[]}",
        "{\"storage\":[],\"network\":[{\"name\":\"eth0\"}]}",
        "{\"storage\":[],\"network\":[]} trailing",
    ] {
        assert!(decode_line(line).is_none(), "line {:?}", line);
    }
}

#[test]
fn value_round_trip() {
    let data = bundle();
    let value = privileged_value(&data);
    assert!(value.is_object());
    assert_eq!(value["storage"].as_array().map(|a| a.len()), Some(2));
    assert_eq!(value["storage"][1]["device_name"].as_str(), Some("sda"));
    assert_eq!(value["network"][0]["rx_bytes"].as_u64(), Some(u64::MAX));
    let back = privileged_of_value(&value).expect("a bundle");
    assert!(same_bundle(&data, &back));
}

#[test]
fn slot_starts_empty() {
    let slot = PrivilegedSlot::new();
    assert!(slot.is_empty());
    assert!(slot.storage().is_none());
    assert!(slot.network().is_none());
}

#[test]
fn malformed_line_leaves_the_payload_unchanged() {
    let mut slot = PrivilegedSlot::new();
    assert!(!slot.accept_line("garbage"));
    assert!(slot.is_empty());
    let line = encode_line(&bundle()).expect("a line");
    assert!(slot.accept_line(&line));
    assert!(!slot.accept_line("{\"storage\":[]"));
    assert!(!slot.accept_line(""));
    assert!(!slot.accept_line("{\"storage\":[],\"network\":7}"));
    let storage = slot.storage().expect("disks");
    assert_eq!(storage.len(), 2);
    assert!(same_disk(&storage[0], &disk("nvme0n1")));
    let network = slot.network().expect("interfaces");
    assert!(same_net(&network[0], &net("eth0")));
}

#[test]
fn valid_line_replaces_the_payload_as_a_whole() {
    let mut slot = PrivilegedSlot::new();
    assert!(slot.accept_line(&encode_line(&bundle()).expect("a line")));
    let second = PrivilegedData { storage: vec![], network: vec![net("wlan0"), net("lo")] };
    assert!(slot.accept_line(&encode_line(&second).expect("a line")));
    assert!(!slot.is_empty());
    assert!(slot.storage().is_none());
    let network = slot.network().expect("interfaces");
    assert_eq!(network.len(), 2);
    assert_eq!(network[0].name, "wlan0");
    assert_eq!(network[1].name, "lo");
}

fn local_disk_probe() -> BlockDeviceProbe {
    BlockDeviceProbe {
        device_name: "sdb".to_string(),
        is_partition: false,
        size: Some("2048\n".to_string()),
        model: Some("Local Disk \n".to_string()),
        rotational: Some("1\n".to_string()),
        serial: None,
        revision: None,
        firmware_revision: None,
        smart: SmartRun::NotStarted,
    }
}

fn local_interface_probe(name: &str) -> InterfaceProbe {
    InterfaceProbe {
        name: name.to_string(),
        mac_address: "00:11:22:33:44:55".to_string(),
        addresses: vec![AddressReading { is_v4: true, text: "127.0.0.1".to_string() }],
        total_received: 1,
        total_transmitted: 2,
        total_packets_received: 3,
        total_packets_transmitted: 4,
        speed: None,
    }
}

#[test]
fn without_worker_data_readers_get_the_local_details() {
    let monitor = SystemMonitor::new(1000, empty_reading());
    let slot = PrivilegedSlot::new();
    let storage = monitor.get_storage_detailed_info(&slot, &vec![local_disk_probe()]);
    assert_eq!(storage.len(), 1);
    assert_eq!(storage[0].device_name, "sdb");
    assert_eq!(storage[0].model, "Local Disk");
    assert_eq!(storage[0].capacity_bytes, 2048 * 512);
    assert_eq!(storage[0].health_status, "Smartctl not found");
    let network = monitor.get_network_detailed_info(
        &slot,
        &vec![local_interface_probe("wlan0"), local_interface_probe("eth0")],
    );
    assert_eq!(network.len(), 2);
    assert_eq!(network[0].name, "eth0");
    assert_eq!(network[1].name, "wlan0");
    assert_eq!(monitor.get_storage_detailed_info(&slot, &vec![]).len(), 0);
    assert_eq!(monitor.get_network_detailed_info(&slot, &vec![]).len(), 0);
}

#[test]
fn with_worker_data_readers_get_what_the_worker_sent() {
    let monitor = SystemMonitor::new(1000, empty_reading());
    let mut slot = PrivilegedSlot::new();
    slot.publish(bundle());
    let storage = monitor.get_storage_detailed_info(&slot, &vec![local_disk_probe()]);
    assert_eq!(storage.len(), 2);
    assert_eq!(storage[0].device_name, "nvme0n1");
    let network = monitor.get_network_detailed_info(&slot, &vec![local_interface_probe("lo")]);
    assert_eq!(network.len(), 1);
    assert_eq!(network[0].name, "eth0");
}

#[test]
fn empty_list_from_the_worker_falls_back_to_local_details() {
    let monitor = SystemMonitor::new(1000, empty_reading());
    let mut slot = PrivilegedSlot::new();
    slot.publish(PrivilegedData { storage: vec![], network: vec![net("eth0")] });
    let storage = monitor.get_storage_detailed_info(&slot, &vec![local_disk_probe()]);
    assert_eq!(storage.len(), 1);
    assert_eq!(storage[0].device_name, "sdb");
    let network = monitor.get_network_detailed_info(&slot, &vec![local_interface_probe("lo")]);
    assert_eq!(network[0].name, "eth0");
}
