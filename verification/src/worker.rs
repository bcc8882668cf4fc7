//! The bridge to the elevated worker: the bundle that the worker gathers,
//! the line protocol that carries it, and the slot that holds the latest
//! bundle for readers.
//!
//! A line of the protocol is one JSON object, `storage` and `network` each
//! an array of objects with one member per field. Starting the worker and
//! reading its output line by line is the caller's part.

use crate::details::{
    copy_network_list, copy_storage_list, network_views, storage_views, NetworkDetailedInfo,
    NetworkDetailedInfoView, StorageDetailedInfo, StorageDetailedInfoView,
};
use crate::json::{
    flag_of, json_add_member, json_element, json_flag_member, json_length, json_member,
    json_of_flag, json_of_items, json_of_members, json_of_text, json_of_unsigned, json_parse,
    json_parsed, json_render, json_rendered, json_text_member, json_tree, json_trees,
    json_unsigned_member, member_of, text_of, unsigned_of, JsonNumber, JsonTree,
};
use crate::monitor::SystemMonitor;
use crate::network::{
    get_network_detailed_info_headless, interface_probe_views, is_sorted_details, InterfaceProbe,
};
use crate::storage::{details_of, get_storage_detailed_info_headless, probe_views, BlockDeviceProbe};
use vstd::prelude::*;

verus! {

/// What the elevated worker gathers in one round: the details of the disks
/// and of the network interfaces.
#[derive(Debug)]
pub struct PrivilegedData {
    pub storage: Vec<StorageDetailedInfo>,
    pub network: Vec<NetworkDetailedInfo>,
}

/// The plain content of a [`PrivilegedData`].
pub struct PrivilegedDataView {
    pub storage: Seq<StorageDetailedInfoView>,
    pub network: Seq<NetworkDetailedInfoView>,
}

impl View for PrivilegedData {
    type V = PrivilegedDataView;

    open spec fn view(&self) -> PrivilegedDataView {
        PrivilegedDataView {
            storage: storage_views(self.storage@),
            network: network_views(self.network@),
        }
    }
}

impl Clone for PrivilegedData {
    fn clone(&self) -> (copy: Self)
        ensures
            copy@ == self@,
    {
        PrivilegedData {
            storage: copy_storage_list(&self.storage),
            network: copy_network_list(&self.network),
        }
    }
}

// ---------------------------------------------------------------------------
// The shape of a line

/// The object that carries one disk.
pub open spec fn storage_tree(d: StorageDetailedInfoView) -> JsonTree {
    JsonTree::Object(
        Map::empty().insert("device_name"@, JsonTree::Text(d.device_name)).insert(
            "model"@,
            JsonTree::Text(d.model),
        ).insert(
            "capacity_bytes"@,
            JsonTree::Number(JsonNumber::Unsigned(d.capacity_bytes)),
        ).insert("interface_type"@, JsonTree::Text(d.interface_type)).insert(
            "is_ssd"@,
            JsonTree::Flag(d.is_ssd),
        ).insert("serial_number"@, JsonTree::Text(d.serial_number)).insert(
            "firmware_version"@,
            JsonTree::Text(d.firmware_version),
        ).insert("health_status"@, JsonTree::Text(d.health_status)),
    )
}

/// The disk that an object carries; `None` where a field is missing or of
/// another kind. Members that are no fields are passed over.
pub open spec fn storage_of_tree(tree: JsonTree) -> Option<StorageDetailedInfoView> {
    let device_name = text_of(member_of(tree, "device_name"@));
    let model = text_of(member_of(tree, "model"@));
    let capacity_bytes = unsigned_of(member_of(tree, "capacity_bytes"@));
    let interface_type = text_of(member_of(tree, "interface_type"@));
    let is_ssd = flag_of(member_of(tree, "is_ssd"@));
    let serial_number = text_of(member_of(tree, "serial_number"@));
    let firmware_version = text_of(member_of(tree, "firmware_version"@));
    let health_status = text_of(member_of(tree, "health_status"@));
    if device_name is Some && model is Some && capacity_bytes is Some && interface_type is Some
        && is_ssd is Some && serial_number is Some && firmware_version is Some
        && health_status is Some {
        Some(
            StorageDetailedInfoView {
                device_name: device_name.unwrap(),
                model: model.unwrap(),
                capacity_bytes: capacity_bytes.unwrap(),
                interface_type: interface_type.unwrap(),
                is_ssd: is_ssd.unwrap(),
                serial_number: serial_number.unwrap(),
                firmware_version: firmware_version.unwrap(),
                health_status: health_status.unwrap(),
            },
        )
    } else {
        None
    }
}

/// The object that carries one network interface.
pub open spec fn network_tree(d: NetworkDetailedInfoView) -> JsonTree {
    JsonTree::Object(
        Map::empty().insert("name"@, JsonTree::Text(d.name)).insert(
            "mac_address"@,
            JsonTree::Text(d.mac_address),
        ).insert("rx_bytes"@, JsonTree::Number(JsonNumber::Unsigned(d.rx_bytes))).insert(
            "tx_bytes"@,
            JsonTree::Number(JsonNumber::Unsigned(d.tx_bytes)),
        ).insert("rx_packets"@, JsonTree::Number(JsonNumber::Unsigned(d.rx_packets))).insert(
            "tx_packets"@,
            JsonTree::Number(JsonNumber::Unsigned(d.tx_packets)),
        ).insert("ip_v4"@, JsonTree::Text(d.ip_v4)).insert("ip_v6"@, JsonTree::Text(d.ip_v6)).insert(
            "link_speed"@,
            JsonTree::Text(d.link_speed),
        ),
    )
}

/// The network interface that an object carries; `None` where a field is
/// missing or of another kind.
pub open spec fn network_of_tree(tree: JsonTree) -> Option<NetworkDetailedInfoView> {
    let name = text_of(member_of(tree, "name"@));
    let mac_address = text_of(member_of(tree, "mac_address"@));
    let rx_bytes = unsigned_of(member_of(tree, "rx_bytes"@));
    let tx_bytes = unsigned_of(member_of(tree, "tx_bytes"@));
    let rx_packets = unsigned_of(member_of(tree, "rx_packets"@));
    let tx_packets = unsigned_of(member_of(tree, "tx_packets"@));
    let ip_v4 = text_of(member_of(tree, "ip_v4"@));
    let ip_v6 = text_of(member_of(tree, "ip_v6"@));
    let link_speed = text_of(member_of(tree, "link_speed"@));
    if name is Some && mac_address is Some && rx_bytes is Some && tx_bytes is Some
        && rx_packets is Some && tx_packets is Some && ip_v4 is Some && ip_v6 is Some
        && link_speed is Some {
        Some(
            NetworkDetailedInfoView {
                name: name.unwrap(),
                mac_address: mac_address.unwrap(),
                rx_bytes: rx_bytes.unwrap(),
                tx_bytes: tx_bytes.unwrap(),
                rx_packets: rx_packets.unwrap(),
                tx_packets: tx_packets.unwrap(),
                ip_v4: ip_v4.unwrap(),
                ip_v6: ip_v6.unwrap(),
                link_speed: link_speed.unwrap(),
            },
        )
    } else {
        None
    }
}

/// The records that an array carries, each element read by `read`; `None`
/// where the value is no array or `read` gives `None` for an element.
pub open spec fn list_of_tree<T>(tree: Option<JsonTree>, read: spec_fn(JsonTree) -> Option<T>) -> Option<
    Seq<T>,
> {
    match tree {
        Some(JsonTree::Array(items)) => if forall|i: int|
            0 <= i < items.len() ==> read(#[trigger] items[i]) is Some {
            Some(Seq::new(items.len(), |i: int| read(items[i]).unwrap()))
        } else {
            None
        },
        _ => None,
    }
}

/// The object that carries a bundle.
pub open spec fn privileged_tree(data: PrivilegedDataView) -> JsonTree {
    JsonTree::Object(
        Map::empty().insert(
            "storage"@,
            JsonTree::Array(data.storage.map_values(|d: StorageDetailedInfoView| storage_tree(d))),
        ).insert(
            "network"@,
            JsonTree::Array(data.network.map_values(|d: NetworkDetailedInfoView| network_tree(d))),
        ),
    )
}

/// The bundle that an object carries; `None` where it is not of the shape
/// of a line.
pub open spec fn privileged_of_tree(tree: JsonTree) -> Option<PrivilegedDataView> {
    let storage = list_of_tree(
        member_of(tree, "storage"@),
        |t: JsonTree| storage_of_tree(t),
    );
    let network = list_of_tree(
        member_of(tree, "network"@),
        |t: JsonTree| network_of_tree(t),
    );
    if storage is Some && network is Some {
        Some(PrivilegedDataView { storage: storage.unwrap(), network: network.unwrap() })
    } else {
        None
    }
}

/// The bundle that a line carries; `None` where the line is no JSON or not
/// of the shape of a line.
pub open spec fn decoded_line(line: Seq<char>) -> Option<PrivilegedDataView> {
    match json_parsed(line) {
        Some(tree) => privileged_of_tree(tree),
        None => None,
    }
}

/// The text of the line that carries a bundle.
pub open spec fn encoded_line(data: PrivilegedDataView) -> Seq<char> {
    json_rendered(privileged_tree(data))
}

proof fn lemma_storage_keys()
    ensures
        "capacity_bytes"@ != "interface_type"@,
        "serial_number"@ != "health_status"@,
        "device_name"@.len() == 11,
        "model"@.len() == 5,
        "capacity_bytes"@.len() == 14,
        "interface_type"@.len() == 14,
        "is_ssd"@.len() == 6,
        "serial_number"@.len() == 13,
        "firmware_version"@.len() == 16,
        "health_status"@.len() == 13,
{
    reveal_strlit("device_name");
    reveal_strlit("model");
    reveal_strlit("capacity_bytes");
    reveal_strlit("interface_type");
    reveal_strlit("is_ssd");
    reveal_strlit("serial_number");
    reveal_strlit("firmware_version");
    reveal_strlit("health_status");
    assert("capacity_bytes"@[0] == 'c');
    assert("interface_type"@[0] == 'i');
    assert("serial_number"@[0] == 's');
    assert("health_status"@[0] == 'h');
}

proof fn lemma_network_keys()
    ensures
        "rx_bytes"@ != "tx_bytes"@,
        "rx_packets"@ != "tx_packets"@,
        "rx_packets"@ != "link_speed"@,
        "tx_packets"@ != "link_speed"@,
        "ip_v4"@ != "ip_v6"@,
        "name"@.len() == 4,
        "mac_address"@.len() == 11,
        "rx_bytes"@.len() == 8,
        "tx_bytes"@.len() == 8,
        "rx_packets"@.len() == 10,
        "tx_packets"@.len() == 10,
        "ip_v4"@.len() == 5,
        "ip_v6"@.len() == 5,
        "link_speed"@.len() == 10,
{
    reveal_strlit("name");
    reveal_strlit("mac_address");
    reveal_strlit("rx_bytes");
    reveal_strlit("tx_bytes");
    reveal_strlit("rx_packets");
    reveal_strlit("tx_packets");
    reveal_strlit("ip_v4");
    reveal_strlit("ip_v6");
    reveal_strlit("link_speed");
    assert("rx_bytes"@[0] == 'r');
    assert("tx_bytes"@[0] == 't');
    assert("rx_packets"@[0] == 'r');
    assert("tx_packets"@[0] == 't');
    assert("link_speed"@[0] == 'l');
    assert("ip_v4"@[4] == '4');
    assert("ip_v6"@[4] == '6');
}

proof fn lemma_bundle_keys()
    ensures
        "storage"@ != "network"@,
{
    reveal_strlit("storage");
    reveal_strlit("network");
    assert("storage"@[0] == 's');
    assert("network"@[0] == 'n');
}

// ---------------------------------------------------------------------------
// Laws

/// Reading the object that carries a disk gives the disk back, field for
/// field.
pub proof fn lemma_storage_round_trip(d: StorageDetailedInfoView)
    ensures
        storage_of_tree(storage_tree(d)) == Some(d),
{
    lemma_storage_keys();
}

/// Reading the object that carries a network interface gives the interface
/// back, field for field.
pub proof fn lemma_network_round_trip(d: NetworkDetailedInfoView)
    ensures
        network_of_tree(network_tree(d)) == Some(d),
{
    lemma_network_keys();
}

/// Reading the object that carries a bundle gives the bundle back, field for
/// field.
pub proof fn lemma_privileged_round_trip(data: PrivilegedDataView)
    ensures
        privileged_of_tree(privileged_tree(data)) == Some(data),
{
    lemma_bundle_keys();
    let storage_items = data.storage.map_values(|d: StorageDetailedInfoView| storage_tree(d));
    let network_items = data.network.map_values(|d: NetworkDetailedInfoView| network_tree(d));
    assert forall|i: int| 0 <= i < storage_items.len() implies storage_of_tree(
        #[trigger] storage_items[i],
    ) == Some(data.storage[i]) by {
        lemma_storage_round_trip(data.storage[i]);
    }
    assert forall|i: int| 0 <= i < network_items.len() implies network_of_tree(
        #[trigger] network_items[i],
    ) == Some(data.network[i]) by {
        lemma_network_round_trip(data.network[i]);
    }
    let tree = privileged_tree(data);
    assert(member_of(tree, "storage"@) == Some(JsonTree::Array(storage_items)));
    assert(member_of(tree, "network"@) == Some(JsonTree::Array(network_items)));
    let storage = list_of_tree(member_of(tree, "storage"@), |t: JsonTree| storage_of_tree(t));
    let network = list_of_tree(member_of(tree, "network"@), |t: JsonTree| network_of_tree(t));
    assert(storage is Some);
    assert(network is Some);
    assert(storage.unwrap() =~= data.storage);
    assert(network.unwrap() =~= data.network);
}

// ---------------------------------------------------------------------------
// Writing

/// The JSON value that carries one disk.
pub fn storage_value(d: &StorageDetailedInfo) -> (value: serde_json::Value)
    ensures
        json_tree(value) == storage_tree(d@),
{
    proof {
        lemma_storage_keys();
    }
    let mut members: Vec<(String, serde_json::Value)> = Vec::new();
    json_add_member(&mut members, "device_name", json_of_text(d.device_name.clone()));
    json_add_member(&mut members, "model", json_of_text(d.model.clone()));
    json_add_member(&mut members, "capacity_bytes", json_of_unsigned(d.capacity_bytes));
    json_add_member(&mut members, "interface_type", json_of_text(d.interface_type.clone()));
    json_add_member(&mut members, "is_ssd", json_of_flag(d.is_ssd));
    json_add_member(&mut members, "serial_number", json_of_text(d.serial_number.clone()));
    json_add_member(&mut members, "firmware_version", json_of_text(d.firmware_version.clone()));
    json_add_member(&mut members, "health_status", json_of_text(d.health_status.clone()));
    json_of_members(members)
}

/// The JSON value that carries one network interface.
pub fn network_value(d: &NetworkDetailedInfo) -> (value: serde_json::Value)
    ensures
        json_tree(value) == network_tree(d@),
{
    proof {
        lemma_network_keys();
    }
    let mut members: Vec<(String, serde_json::Value)> = Vec::new();
    json_add_member(&mut members, "name", json_of_text(d.name.clone()));
    json_add_member(&mut members, "mac_address", json_of_text(d.mac_address.clone()));
    json_add_member(&mut members, "rx_bytes", json_of_unsigned(d.rx_bytes));
    json_add_member(&mut members, "tx_bytes", json_of_unsigned(d.tx_bytes));
    json_add_member(&mut members, "rx_packets", json_of_unsigned(d.rx_packets));
    json_add_member(&mut members, "tx_packets", json_of_unsigned(d.tx_packets));
    json_add_member(&mut members, "ip_v4", json_of_text(d.ip_v4.clone()));
    json_add_member(&mut members, "ip_v6", json_of_text(d.ip_v6.clone()));
    json_add_member(&mut members, "link_speed", json_of_text(d.link_speed.clone()));
    json_of_members(members)
}

/// The JSON value that carries a bundle.
pub fn privileged_value(data: &PrivilegedData) -> (value: serde_json::Value)
    ensures
        json_tree(value) == privileged_tree(data@),
{
    let ghost storage_goal = data@.storage.map_values(|d: StorageDetailedInfoView| storage_tree(d));
    let ghost network_goal = data@.network.map_values(|d: NetworkDetailedInfoView| network_tree(d));
    let mut storage: Vec<serde_json::Value> = Vec::new();
    let mut i: usize = 0;
    while i < data.storage.len()
        invariant
            i <= data.storage.len(),
            storage_goal == data@.storage.map_values(|d: StorageDetailedInfoView| storage_tree(d)),
            json_trees(storage@) == storage_goal.subrange(0, i as int),
        decreases data.storage.len() - i,
    {
        let ghost before = json_trees(storage@);
        let value = storage_value(&data.storage[i]);
        storage.push(value);
        assert(json_trees(storage@) =~= before.push(storage_tree(data.storage@[i as int]@)));
        i = i + 1;
    }
    assert(storage_goal.subrange(0, data.storage.len() as int) == storage_goal);
    let mut network: Vec<serde_json::Value> = Vec::new();
    let mut j: usize = 0;
    while j < data.network.len()
        invariant
            j <= data.network.len(),
            network_goal == data@.network.map_values(|d: NetworkDetailedInfoView| network_tree(d)),
            json_trees(network@) == network_goal.subrange(0, j as int),
        decreases data.network.len() - j,
    {
        let ghost before = json_trees(network@);
        let value = network_value(&data.network[j]);
        network.push(value);
        assert(json_trees(network@) =~= before.push(network_tree(data.network@[j as int]@)));
        j = j + 1;
    }
    assert(network_goal.subrange(0, data.network.len() as int) == network_goal);
    proof {
        lemma_bundle_keys();
    }
    let mut members: Vec<(String, serde_json::Value)> = Vec::new();
    json_add_member(&mut members, "storage", json_of_items(storage));
    json_add_member(&mut members, "network", json_of_items(network));
    json_of_members(members)
}

/// The text of the line that carries a bundle, without the line feed that
/// ends it. Every bundle has its line.
pub fn encode_line(data: &PrivilegedData) -> (line: Option<String>)
    ensures
        line matches Some(text) && text@ == encoded_line(data@),
{
    let value = privileged_value(data);
    json_render(&value)
}

// ---------------------------------------------------------------------------
// Reading

/// The disk that a JSON value carries.
pub fn storage_of_value(value: &serde_json::Value) -> (d: Option<StorageDetailedInfo>)
    ensures
        match d {
            Some(x) => storage_of_tree(json_tree(*value)) == Some(x@),
            None => storage_of_tree(json_tree(*value)) is None,
        },
{
    let device_name = json_text_member(value, "device_name");
    let model = json_text_member(value, "model");
    let capacity_bytes = json_unsigned_member(value, "capacity_bytes");
    let interface_type = json_text_member(value, "interface_type");
    let is_ssd = json_flag_member(value, "is_ssd");
    let serial_number = json_text_member(value, "serial_number");
    let firmware_version = json_text_member(value, "firmware_version");
    let health_status = json_text_member(value, "health_status");
    match (device_name, model, capacity_bytes, interface_type) {
        (Some(device_name), Some(model), Some(capacity_bytes), Some(interface_type)) => match (
            is_ssd,
            serial_number,
            firmware_version,
            health_status,
        ) {
            (Some(is_ssd), Some(serial_number), Some(firmware_version), Some(health_status)) => Some(
                StorageDetailedInfo {
                    device_name,
                    model,
                    capacity_bytes,
                    interface_type,
                    is_ssd,
                    serial_number,
                    firmware_version,
                    health_status,
                },
            ),
            _ => None,
        },
        _ => None,
    }
}

/// The network interface that a JSON value carries.
pub fn network_of_value(value: &serde_json::Value) -> (d: Option<NetworkDetailedInfo>)
    ensures
        match d {
            Some(x) => network_of_tree(json_tree(*value)) == Some(x@),
            None => network_of_tree(json_tree(*value)) is None,
        },
{
    let name = json_text_member(value, "name");
    let mac_address = json_text_member(value, "mac_address");
    let rx_bytes = json_unsigned_member(value, "rx_bytes");
    let tx_bytes = json_unsigned_member(value, "tx_bytes");
    let rx_packets = json_unsigned_member(value, "rx_packets");
    let tx_packets = json_unsigned_member(value, "tx_packets");
    let ip_v4 = json_text_member(value, "ip_v4");
    let ip_v6 = json_text_member(value, "ip_v6");
    let link_speed = json_text_member(value, "link_speed");
    match (name, mac_address, rx_bytes, tx_bytes) {
        (Some(name), Some(mac_address), Some(rx_bytes), Some(tx_bytes)) => match (
            rx_packets,
            tx_packets,
            ip_v4,
            ip_v6,
        ) {
            (Some(rx_packets), Some(tx_packets), Some(ip_v4), Some(ip_v6)) => match link_speed {
                Some(link_speed) => Some(
                    NetworkDetailedInfo {
                        name,
                        mac_address,
                        rx_bytes,
                        tx_bytes,
                        rx_packets,
                        tx_packets,
                        ip_v4,
                        ip_v6,
                        link_speed,
                    },
                ),
                None => None,
            },
            _ => None,
        },
        _ => None,
    }
}

fn storage_list_of_value(value: &serde_json::Value) -> (list: Option<Vec<StorageDetailedInfo>>)
    ensures
        match list {
            Some(x) => list_of_tree(Some(json_tree(*value)), |t: JsonTree| storage_of_tree(t))
                == Some(storage_views(x@)),
            None => list_of_tree(Some(json_tree(*value)), |t: JsonTree| storage_of_tree(t))
                is None,
        },
{
    let n = match json_length(value) {
        Some(n) => n,
        None => {
            return None;
        },
    };
    let ghost items = json_tree(*value)->Array_0;
    let mut list: Vec<StorageDetailedInfo> = Vec::new();
    let mut i: usize = 0;
    while i < n
        invariant
            i <= n,
            json_tree(*value) == JsonTree::Array(items),
            items.len() == n,
            list.len() == i,
            forall|k: int| 0 <= k < i ==> storage_of_tree(#[trigger] items[k]) == Some(list@[k]@),
        decreases n - i,
    {
        match json_element(value, i) {
            Some(item) => match storage_of_value(item) {
                Some(d) => {
                    list.push(d);
                },
                None => {
                    assert(storage_of_tree(items[i as int]) is None);
                    return None;
                },
            },
            None => {
                return None;
            },
        }
        i = i + 1;
    }
    assert(storage_views(list@) =~= Seq::new(
        items.len(),
        |k: int| storage_of_tree(items[k]).unwrap(),
    ));
    Some(list)
}

fn network_list_of_value(value: &serde_json::Value) -> (list: Option<Vec<NetworkDetailedInfo>>)
    ensures
        match list {
            Some(x) => list_of_tree(Some(json_tree(*value)), |t: JsonTree| network_of_tree(t))
                == Some(network_views(x@)),
            None => list_of_tree(Some(json_tree(*value)), |t: JsonTree| network_of_tree(t))
                is None,
        },
{
    let n = match json_length(value) {
        Some(n) => n,
        None => {
            return None;
        },
    };
    let ghost items = json_tree(*value)->Array_0;
    let mut list: Vec<NetworkDetailedInfo> = Vec::new();
    let mut i: usize = 0;
    while i < n
        invariant
            i <= n,
            json_tree(*value) == JsonTree::Array(items),
            items.len() == n,
            list.len() == i,
            forall|k: int| 0 <= k < i ==> network_of_tree(#[trigger] items[k]) == Some(list@[k]@),
        decreases n - i,
    {
        match json_element(value, i) {
            Some(item) => match network_of_value(item) {
                Some(d) => {
                    list.push(d);
                },
                None => {
                    assert(network_of_tree(items[i as int]) is None);
                    return None;
                },
            },
            None => {
                return None;
            },
        }
        i = i + 1;
    }
    assert(network_views(list@) =~= Seq::new(
        items.len(),
        |k: int| network_of_tree(items[k]).unwrap(),
    ));
    Some(list)
}

/// The bundle that a JSON value carries; `None` where the value is not of
/// the shape of a line.
pub fn privileged_of_value(value: &serde_json::Value) -> (data: Option<PrivilegedData>)
    ensures
        match data {
            Some(x) => privileged_of_tree(json_tree(*value)) == Some(x@),
            None => privileged_of_tree(json_tree(*value)) is None,
        },
{
    let storage = match json_member(value, "storage") {
        Some(list) => storage_list_of_value(list),
        None => None,
    };
    let network = match json_member(value, "network") {
        Some(list) => network_list_of_value(list),
        None => None,
    };
    match (storage, network) {
        (Some(storage), Some(network)) => Some(PrivilegedData { storage, network }),
        _ => None,
    }
}

/// The bundle that a line carries; `None` where the line is no JSON or not
/// of the shape of a line.
pub fn decode_line(line: &str) -> (data: Option<PrivilegedData>)
    ensures
        match data {
            Some(x) => decoded_line(line@) == Some(x@),
            None => decoded_line(line@) is None,
        },
{
    match json_parse(line) {
        Some(value) => privileged_of_value(&value),
        None => None,
    }
}

// ---------------------------------------------------------------------------
// The slot

/// Holds the latest bundle that the worker sent. Empty until the first line
/// was read; each bundle replaces the one before as a whole.
pub struct PrivilegedSlot {
    latest: Option<PrivilegedData>,
}

impl View for PrivilegedSlot {
    type V = Option<PrivilegedDataView>;

    closed spec fn view(&self) -> Option<PrivilegedDataView> {
        match self.latest {
            Some(data) => Some(data@),
            None => None,
        }
    }
}

/// The disks that readers get from a slot: those of its bundle, unless it is
/// empty or the bundle has none.
pub open spec fn published_storage(slot: Option<PrivilegedDataView>) -> Option<
    Seq<StorageDetailedInfoView>,
> {
    match slot {
        Some(data) => if data.storage.len() > 0 {
            Some(data.storage)
        } else {
            None
        },
        None => None,
    }
}

/// The network interfaces that readers get from a slot: those of its bundle,
/// unless it is empty or the bundle has none.
pub open spec fn published_network(slot: Option<PrivilegedDataView>) -> Option<
    Seq<NetworkDetailedInfoView>,
> {
    match slot {
        Some(data) => if data.network.len() > 0 {
            Some(data.network)
        } else {
            None
        },
        None => None,
    }
}

/// The slot after a line arrived: the bundle of the line where it carries
/// one, else what the slot held.
pub open spec fn slot_after_line(
    slot: Option<PrivilegedDataView>,
    line: Seq<char>,
) -> Option<PrivilegedDataView> {
    match decoded_line(line) {
        Some(data) => Some(data),
        None => slot,
    }
}

impl PrivilegedSlot {
    /// An empty slot.
    pub fn new() -> (slot: PrivilegedSlot)
        ensures
            slot@ is None,
    {
        PrivilegedSlot { latest: None }
    }

    /// Puts a bundle in the slot in place of what it held.
    pub fn publish(&mut self, data: PrivilegedData)
        ensures
            final(self)@ == Some(data@),
    {
        self.latest = Some(data);
    }

    /// Takes one line of the worker's output. A line that carries a bundle
    /// replaces what the slot held; any other line changes nothing. Tells
    /// whether the line was taken.
    pub fn accept_line(&mut self, line: &str) -> (taken: bool)
        ensures
            final(self)@ == slot_after_line(old(self)@, line@),
            taken == decoded_line(line@) is Some,
    {
        match decode_line(line) {
            Some(data) => {
                self.publish(data);
                true
            },
            None => false,
        }
    }

    /// Whether no bundle arrived yet.
    pub fn is_empty(&self) -> (empty: bool)
        ensures
            empty == self@ is None,
    {
        self.latest.is_none()
    }

    /// A copy of the disks of the latest bundle; `None` where the slot is
    /// empty or the bundle lists no disk.
    pub fn storage(&self) -> (list: Option<Vec<StorageDetailedInfo>>)
        ensures
            match list {
                Some(x) => published_storage(self@) == Some(storage_views(x@)),
                None => published_storage(self@) is None,
            },
    {
        match &self.latest {
            Some(data) => if data.storage.len() > 0 {
                Some(copy_storage_list(&data.storage))
            } else {
                None
            },
            None => None,
        }
    }

    /// A copy of the network interfaces of the latest bundle; `None` where
    /// the slot is empty or the bundle lists no interface.
    pub fn network(&self) -> (list: Option<Vec<NetworkDetailedInfo>>)
        ensures
            match list {
                Some(x) => published_network(self@) == Some(network_views(x@)),
                None => published_network(self@) is None,
            },
    {
        match &self.latest {
            Some(data) => if data.network.len() > 0 {
                Some(copy_network_list(&data.network))
            } else {
                None
            },
            None => None,
        }
    }
}

/// A line that carries no bundle leaves the slot as it was; a line that
/// carries one replaces the whole of it, whatever the slot held.
pub proof fn lemma_line_replaces_or_keeps(
    slot: Option<PrivilegedDataView>,
    other: Option<PrivilegedDataView>,
    line: Seq<char>,
)
    ensures
        decoded_line(line) is None ==> slot_after_line(slot, line) == slot,
        decoded_line(line) is Some ==> slot_after_line(slot, line) == slot_after_line(other, line),
{
}

impl SystemMonitor {
    /// The details of the disks for a reader: those that the worker sent
    /// where it sent any, else those that the local probes give.
    pub fn get_storage_detailed_info(
        &self,
        slot: &PrivilegedSlot,
        local: &Vec<BlockDeviceProbe>,
    ) -> (details: Vec<StorageDetailedInfo>)
        ensures
            storage_views(details@) == match published_storage(slot@) {
                Some(list) => list,
                None => details_of(probe_views(local@)),
            },
    {
        match slot.storage() {
            Some(list) => list,
            None => get_storage_detailed_info_headless(local),
        }
    }

    /// The details of the network interfaces for a reader: those that the
    /// worker sent where it sent any, else those that the local probes give,
    /// sorted by name.
    pub fn get_network_detailed_info(
        &self,
        slot: &PrivilegedSlot,
        local: &Vec<InterfaceProbe>,
    ) -> (details: Vec<NetworkDetailedInfo>)
        ensures
            match published_network(slot@) {
                Some(list) => network_views(details@) == list,
                None => is_sorted_details(network_views(details@), interface_probe_views(local@)),
            },
    {
        match slot.network() {
            Some(list) => list,
            None => get_network_detailed_info_headless(local),
        }
    }
}

} // verus!
