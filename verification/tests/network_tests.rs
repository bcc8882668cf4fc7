use gjallarhorn::network::{
    get_network_detailed_info_headless, interface_detail, ipv4_addresses, link_speed,
    pick_address,
    AddressReading, InterfaceProbe,
};

fn address(is_v4: bool, text: &str) -> AddressReading {
    AddressReading { is_v4, text: text.to_string() }
}

fn probe(name: &str, addresses: Vec<AddressReading>, speed: Option<&str>) -> InterfaceProbe {
    InterfaceProbe {
        name: name.to_string(),
        mac_address: "de:ad:be:ef:00:01".to_string(),
        addresses,
        total_received: 11,
        total_transmitted: 22,
        total_packets_received: 33,
        total_packets_transmitted: 44,
        speed: speed.map(|s| s.to_string()),
    }
}

#[test]
fn last_address_of_each_family_counts() {
    let list = vec![
        address(true, "10.0.0.1"),
        address(false, "fe80::1"),
        address(true, "10.0.0.2"),
        address(false, "2001:db8::1"),
    ];
    assert_eq!(pick_address(&list, true), "10.0.0.2");
    assert_eq!(pick_address(&list, false), "2001:db8::1");
    assert_eq!(pick_address(&vec![address(true, "1.2.3.4")], false), "N/A");
    assert_eq!(pick_address(&vec![], true), "N/A");
}

#[test]
fn link_speed_is_shown_in_mbps() {
    assert_eq!(link_speed(&Some("1000\n".to_string())), "1000 Mbps");
    assert_eq!(link_speed(&Some("-1\n".to_string())), "-1 Mbps");
    assert_eq!(link_speed(&Some("".to_string())), " Mbps");
    assert_eq!(link_speed(&None), "Unknown");
}

#[test]
fn record_of_an_interface() {
    let d = interface_detail(&probe("eth0", vec![address(true, "10.0.0.7")], Some("2500\n")));
    assert_eq!(d.name, "eth0");
    assert_eq!(d.mac_address, "de:ad:be:ef:00:01");
    assert_eq!(d.rx_bytes, 11);
    assert_eq!(d.tx_bytes, 22);
    assert_eq!(d.rx_packets, 33);
    assert_eq!(d.tx_packets, 44);
    assert_eq!(d.ip_v4, "10.0.0.7");
    assert_eq!(d.ip_v6, "N/A");
    assert_eq!(d.link_speed, "2500 Mbps");
}

#[test]
fn headless_list_is_sorted_by_name() {
    let list = get_network_detailed_info_headless(&vec![
        probe("wlan0", vec![], None),
        probe("lo", vec![address(true, "127.0.0.1")], None),
        probe("eth0", vec![], Some("100")),
        probe("docker0", vec![], None),
    ]);
    let names: Vec<&str> = list.iter().map(|d| d.name.as_str()).collect();
    assert_eq!(names, vec!["docker0", "eth0", "lo", "wlan0"]);
    assert_eq!(list[2].ip_v4, "127.0.0.1");
    assert_eq!(list[1].link_speed, "100 Mbps");
    assert_eq!(get_network_detailed_info_headless(&vec![]).len(), 0);
}

#[test]
fn records_of_one_name_keep_probe_order() {
    let list = get_network_detailed_info_headless(&vec![
        probe("b", vec![address(true, "first")], None),
        probe("a", vec![], None),
        probe("b", vec![address(true, "second")], None),
    ]);
    assert_eq!(list[0].name, "a");
    assert_eq!(list[1].ip_v4, "first");
    assert_eq!(list[2].ip_v4, "second");
}

#[test]
fn ipv4_addresses_are_picked_in_order() {
    let list = vec![
        address(true, "10.0.0.1"),
        address(false, "fe80::1"),
        address(true, "10.0.0.2"),
        address(false, "2001:db8::1"),
        address(true, "10.0.0.1"),
    ];
    assert_eq!(
        ipv4_addresses(&list),
        vec!["10.0.0.1".to_string(), "10.0.0.2".to_string(), "10.0.0.1".to_string()]
    );
    assert_eq!(ipv4_addresses(&vec![address(false, "::1")]), Vec::<String>::new());
    assert_eq!(ipv4_addresses(&vec![]), Vec::<String>::new());
}
