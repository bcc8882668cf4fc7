//! Network interfaces in detail: from what was read about each interface to
//! one record per interface, sorted by name.

use crate::details::{network_views, NetworkDetailedInfo, NetworkDetailedInfoView};
use crate::stable_index::{is_sorted_by_key, is_stable_order, sorted_positions};
use crate::text::{chars_of, copy_opt_text, opt_text, string_views, trim, trimmed, views};
use vstd::prelude::*;
use vstd::string::*;

verus! {

/// One address of a network interface, as text, and whether it is an IPv4
/// address.
#[derive(Debug)]
pub struct AddressReading {
    pub is_v4: bool,
    pub text: String,
}

/// The plain content of an [`AddressReading`].
pub struct AddressReadingView {
    pub is_v4: bool,
    pub text: Seq<char>,
}

impl View for AddressReading {
    type V = AddressReadingView;

    open spec fn view(&self) -> AddressReadingView {
        AddressReadingView {
            is_v4: self.is_v4,
            text: self.text@,
        }
    }
}

impl Clone for AddressReading {
    fn clone(&self) -> (copy: Self)
        ensures
            copy@ == self@,
    {
        AddressReading {
            is_v4: self.is_v4,
            text: self.text.clone(),
        }
    }
}

/// The plain content of each address of a list.
pub open spec fn address_views(list: Seq<AddressReading>) -> Seq<AddressReadingView> {
    list.map_values(|item: AddressReading| item@)
}

/// A copy of `list`, item by item.
pub fn copy_address_list(list: &Vec<AddressReading>) -> (copy: Vec<AddressReading>)
    ensures
        address_views(copy@) == address_views(list@),
{
    let mut copy: Vec<AddressReading> = Vec::new();
    let mut i: usize = 0;
    while i < list.len()
        invariant
            i <= list.len(),
            address_views(copy@) == address_views(list@).subrange(0, i as int),
        decreases list.len() - i,
    {
        let ghost before = address_views(copy@);
        copy.push(list[i].clone());
        assert(address_views(copy@) =~= before.push(list@[i as int]@));
        i = i + 1;
    }
    assert(address_views(list@).subrange(0, list.len() as int) == address_views(list@));
    copy
}

/// What was read about one network interface. The link speed is `None` where
/// it could not be read.
#[derive(Debug)]
pub struct InterfaceProbe {
    pub name: String,
    pub mac_address: String,
    pub addresses: Vec<AddressReading>,
    pub total_received: u64,
    pub total_transmitted: u64,
    pub total_packets_received: u64,
    pub total_packets_transmitted: u64,
    pub speed: Option<String>,
}

/// The plain content of an [`InterfaceProbe`].
pub struct InterfaceProbeView {
    pub name: Seq<char>,
    pub mac_address: Seq<char>,
    pub addresses: Seq<AddressReadingView>,
    pub total_received: u64,
    pub total_transmitted: u64,
    pub total_packets_received: u64,
    pub total_packets_transmitted: u64,
    pub speed: Option<Seq<char>>,
}

impl View for InterfaceProbe {
    type V = InterfaceProbeView;

    open spec fn view(&self) -> InterfaceProbeView {
        InterfaceProbeView {
            name: self.name@,
            mac_address: self.mac_address@,
            addresses: address_views(self.addresses@),
            total_received: self.total_received,
            total_transmitted: self.total_transmitted,
            total_packets_received: self.total_packets_received,
            total_packets_transmitted: self.total_packets_transmitted,
            speed: opt_text(self.speed),
        }
    }
}

impl Clone for InterfaceProbe {
    fn clone(&self) -> (copy: Self)
        ensures
            copy@ == self@,
    {
        InterfaceProbe {
            name: self.name.clone(),
            mac_address: self.mac_address.clone(),
            addresses: copy_address_list(&self.addresses),
            total_received: self.total_received,
            total_transmitted: self.total_transmitted,
            total_packets_received: self.total_packets_received,
            total_packets_transmitted: self.total_packets_transmitted,
            speed: copy_opt_text(&self.speed),
        }
    }
}

/// The plain content of each probe of a list.
pub open spec fn interface_probe_views(list: Seq<InterfaceProbe>) -> Seq<InterfaceProbeView> {
    list.map_values(|item: InterfaceProbe| item@)
}

/// The last address of the wanted family among `addresses`, or `N/A` where
/// there is none.
pub open spec fn last_address(addresses: Seq<AddressReadingView>, v4: bool) -> Seq<char>
    decreases addresses.len(),
{
    if addresses.len() == 0 {
        "N/A"@
    } else if addresses.last().is_v4 == v4 {
        addresses.last().text
    } else {
        last_address(addresses.drop_last(), v4)
    }
}

/// The link speed as shown: the number read, in Mbps, or `Unknown` where
/// the read failed.
pub open spec fn link_speed_of(speed: Option<Seq<char>>) -> Seq<char> {
    match speed {
        Some(s) => trimmed(s) + " Mbps"@,
        None => "Unknown"@,
    }
}

/// The record of a probed interface.
pub open spec fn interface_detail_of(probe: InterfaceProbeView) -> NetworkDetailedInfoView {
    NetworkDetailedInfoView {
        name: probe.name,
        mac_address: probe.mac_address,
        rx_bytes: probe.total_received,
        tx_bytes: probe.total_transmitted,
        rx_packets: probe.total_packets_received,
        tx_packets: probe.total_packets_transmitted,
        ip_v4: last_address(probe.addresses, true),
        ip_v6: last_address(probe.addresses, false),
        link_speed: link_speed_of(probe.speed),
    }
}

/// The names of the probed interfaces, in the order probed.
pub open spec fn probe_names(probes: Seq<InterfaceProbeView>) -> Seq<Seq<char>> {
    probes.map_values(|p: InterfaceProbeView| p.name)
}

/// The records of the probed interfaces, in the order probed.
pub open spec fn interface_details_of(probes: Seq<InterfaceProbeView>) -> Seq<
    NetworkDetailedInfoView,
> {
    probes.map_values(|p: InterfaceProbeView| interface_detail_of(p))
}

/// Whether `details` holds the record of every probe once, by ascending
/// name, records of one name in the order probed.
pub open spec fn is_sorted_details(
    details: Seq<NetworkDetailedInfoView>,
    probes: Seq<InterfaceProbeView>,
) -> bool {
    is_sorted_by_key(details, interface_details_of(probes), probe_names(probes))
}

/// The texts of the IPv4 addresses among `addresses`, in their order.
pub open spec fn v4_texts(addresses: Seq<AddressReadingView>) -> Seq<Seq<char>>
    decreases addresses.len(),
{
    if addresses.len() == 0 {
        Seq::empty()
    } else if addresses.last().is_v4 {
        v4_texts(addresses.drop_last()).push(addresses.last().text)
    } else {
        v4_texts(addresses.drop_last())
    }
}

/// The texts of the IPv4 addresses among `addresses`, in their order.
pub fn ipv4_addresses(addresses: &Vec<AddressReading>) -> (texts: Vec<String>)
    ensures
        string_views(texts@) == v4_texts(address_views(addresses@)),
{
    let ghost all = address_views(addresses@);
    let mut texts: Vec<String> = Vec::new();
    let mut i: usize = 0;
    assert(string_views(texts@) =~= v4_texts(all.subrange(0, 0)));
    while i < addresses.len()
        invariant
            i <= addresses.len(),
            all == address_views(addresses@),
            string_views(texts@) == v4_texts(all.subrange(0, i as int)),
        decreases addresses.len() - i,
    {
        let ghost next = all.subrange(0, i + 1);
        let ghost before = string_views(texts@);
        assert(next.drop_last() == all.subrange(0, i as int));
        assert(next.last() == addresses@[i as int]@);
        if addresses[i].is_v4 {
            texts.push(addresses[i].text.clone());
            assert(string_views(texts@) =~= before.push(addresses@[i as int]@.text));
        }
        i = i + 1;
    }
    assert(all.subrange(0, addresses.len() as int) == all);
    texts
}

/// The last address of the wanted family, or `N/A`.
pub fn pick_address(addresses: &Vec<AddressReading>, v4: bool) -> (text: String)
    ensures
        text@ == last_address(address_views(addresses@), v4),
{
    let ghost all = address_views(addresses@);
    let mut i: usize = addresses.len();
    assert(all.subrange(0, all.len() as int) == all);
    while i > 0
        invariant
            i <= addresses.len(),
            all == address_views(addresses@),
            last_address(all, v4) == last_address(all.subrange(0, i as int), v4),
        decreases i,
    {
        let ghost part = all.subrange(0, i as int);
        assert(part.last() == addresses@[i - 1]@);
        assert(part.drop_last() == all.subrange(0, i - 1));
        if addresses[i - 1].is_v4 == v4 {
            return addresses[i - 1].text.clone();
        }
        i = i - 1;
    }
    String::from_str("N/A")
}

/// The link speed as shown.
pub fn link_speed(speed: &Option<String>) -> (text: String)
    ensures
        text@ == link_speed_of(opt_text(*speed)),
{
    match speed {
        Some(s) => trim(s.as_str()).concat(" Mbps"),
        None => String::from_str("Unknown"),
    }
}

/// The record of a probed interface.
pub fn interface_detail(probe: &InterfaceProbe) -> (detail: NetworkDetailedInfo)
    ensures
        detail@ == interface_detail_of(probe@),
{
    NetworkDetailedInfo {
        name: probe.name.clone(),
        mac_address: probe.mac_address.clone(),
        rx_bytes: probe.total_received,
        tx_bytes: probe.total_transmitted,
        rx_packets: probe.total_packets_received,
        tx_packets: probe.total_packets_transmitted,
        ip_v4: pick_address(&probe.addresses, true),
        ip_v6: pick_address(&probe.addresses, false),
        link_speed: link_speed(&probe.speed),
    }
}

/// One record per probed interface, sorted by name. Always a list, empty
/// where nothing was probed.
pub fn get_network_detailed_info_headless(networks: &Vec<InterfaceProbe>) -> (details: Vec<
    NetworkDetailedInfo,
>)
    ensures
        details.len() == networks.len(),
        is_sorted_details(network_views(details@), interface_probe_views(networks@)),
{
    let ghost probes = interface_probe_views(networks@);
    let mut keys: Vec<Vec<char>> = Vec::new();
    let mut i: usize = 0;
    while i < networks.len()
        invariant
            i <= networks.len(),
            probes == interface_probe_views(networks@),
            views(keys@) == probe_names(probes).subrange(0, i as int),
        decreases networks.len() - i,
    {
        let ghost before = views(keys@);
        keys.push(chars_of(networks[i].name.as_str()));
        assert(views(keys@) =~= before.push(networks@[i as int]@.name));
        i = i + 1;
    }
    assert(probe_names(probes).subrange(0, networks.len() as int) == probe_names(probes));
    let positions = sorted_positions(&keys);
    let ghost goal = Seq::new(
        probes.len(),
        |k: int| interface_detail_of(probes[positions@[k] as int]),
    );
    let mut details: Vec<NetworkDetailedInfo> = Vec::new();
    let mut j: usize = 0;
    while j < positions.len()
        invariant
            j <= positions.len(),
            positions.len() == networks.len(),
            probes == interface_probe_views(networks@),
            is_stable_order(probe_names(probes), positions@),
            goal == Seq::new(probes.len(), |k: int| interface_detail_of(probes[positions@[k] as int])),
            network_views(details@) == goal.subrange(0, j as int),
        decreases positions.len() - j,
    {
        let ghost before = network_views(details@);
        let detail = interface_detail(&networks[positions[j]]);
        details.push(detail);
        assert(network_views(details@) =~= before.push(goal[j as int]));
        j = j + 1;
    }
    assert(goal.subrange(0, positions.len() as int) == goal);
    assert(network_views(details@).len() == details.len());
    assert(goal =~= Seq::new(
        interface_details_of(probes).len(),
        |k: int| interface_details_of(probes)[positions@[k] as int],
    ));
    details
}

} // verus!
