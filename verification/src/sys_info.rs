//! Machine telemetry records: the outward shapes of the point-in-time disk,
//! network and memory readings. The readings themselves are stateless
//! external queries made by the host; the host hands the plain values here to
//! be shaped, so the mapping from reading to record is verified.

use vstd::prelude::*;

verus! {

/// A disk's kind as the telemetry source reports it; anything that is neither
/// a spinning disk nor a solid-state one is grouped as `Other`.
#[derive(Clone, Copy, Debug, PartialEq, Eq, Structural)]
pub enum DiskKind {
    Hdd,
    Ssd,
    Other,
}

/// The label a disk kind is reported under.
pub open spec fn spec_disk_kind_label(kind: DiskKind) -> Seq<char> {
    match kind {
        DiskKind::Hdd => "HDD"@,
        DiskKind::Ssd => "SSD"@,
        DiskKind::Other => "OTHERS"@,
    }
}

/// One disk's telemetry record.
#[derive(Clone, Debug, PartialEq)]
pub struct DiskInfo {
    pub kind: String,
    pub name: Option<String>,
    pub file_system: Option<String>,
    pub mount_point: Option<String>,
    pub total_space: u64,
    pub available_space: u64,
}

/// One network interface's telemetry record.
#[derive(Clone, Debug, PartialEq)]
pub struct NetworkInfo {
    pub name: String,
    pub total_received: u64,
    pub total_transmitted: u64,
    pub total_packets_received: u64,
    pub total_packets_transmitted: u64,
    pub total_errors_on_received: u64,
    pub total_errors_on_transmitted: u64,
    pub mac_address: String,
    pub ip_networks: Vec<String>,
    pub mtu: u64,
}

/// A memory reading: total and used bytes.
#[derive(Clone, Copy, Debug, PartialEq, Eq, Structural)]
pub struct MemoryInfo {
    pub total: u64,
    pub used: u64,
}

/// Turn a disk kind into its report label.
pub fn disk_kind_label(kind: DiskKind) -> (label: String)
    ensures
        label@ == spec_disk_kind_label(kind),
{
    match kind {
        DiskKind::Hdd => "HDD".to_owned(),
        DiskKind::Ssd => "SSD".to_owned(),
        DiskKind::Other => "OTHERS".to_owned(),
    }
}

/// Shape one disk reading into its record: the kind becomes its label, every
/// other field is carried through unchanged.
pub fn make_disk_info(
    kind: DiskKind,
    name: Option<String>,
    file_system: Option<String>,
    mount_point: Option<String>,
    total_space: u64,
    available_space: u64,
) -> (d: DiskInfo)
    ensures
        d.kind@ == spec_disk_kind_label(kind),
        d.name == name,
        d.file_system == file_system,
        d.mount_point == mount_point,
        d.total_space == total_space,
        d.available_space == available_space,
{
    DiskInfo {
        kind: disk_kind_label(kind),
        name,
        file_system,
        mount_point,
        total_space,
        available_space,
    }
}

/// Shape one network-interface reading into its record: every field is
/// carried through unchanged.
pub fn make_network_info(
    name: String,
    total_received: u64,
    total_transmitted: u64,
    total_packets_received: u64,
    total_packets_transmitted: u64,
    total_errors_on_received: u64,
    total_errors_on_transmitted: u64,
    mac_address: String,
    ip_networks: Vec<String>,
    mtu: u64,
) -> (n: NetworkInfo)
    ensures
        n.name == name,
        n.total_received == total_received,
        n.total_transmitted == total_transmitted,
        n.total_packets_received == total_packets_received,
        n.total_packets_transmitted == total_packets_transmitted,
        n.total_errors_on_received == total_errors_on_received,
        n.total_errors_on_transmitted == total_errors_on_transmitted,
        n.mac_address == mac_address,
        n.ip_networks == ip_networks,
        n.mtu == mtu,
{
    NetworkInfo {
        name,
        total_received,
        total_transmitted,
        total_packets_received,
        total_packets_transmitted,
        total_errors_on_received,
        total_errors_on_transmitted,
        mac_address,
        ip_networks,
        mtu,
    }
}

} // verus!
