//! The records exchanged with the cluster API and the records handed to
//! the metrics scraper.
//!
//! Every record has a view that replaces each string by its characters, so
//! that contracts can speak of what a record says rather than of where its
//! bytes live.
use crate::text::decimal;
use crate::text::decimal_string;
use vstd::prelude::*;

verus! {

/// The views of a sequence of records, element by element.
pub open spec fn views<T: View>(items: Seq<T>) -> Seq<T::V> {
    items.map_values(|item: T| item@)
}

/// The characters of an optional string.
pub open spec fn opt_text(s: Option<String>) -> Option<Seq<char>> {
    match s {
        Some(s) => Some(s@),
        None => None,
    }
}

/// Copies an optional string.
pub fn clone_opt_text(s: &Option<String>) -> (out: Option<String>)
    ensures
        opt_text(out) == opt_text(*s),
{
    match s {
        Some(s) => Some(s.clone()),
        None => None,
    }
}

/// A host of the cluster, as the node list reports it.
#[derive(Debug, PartialEq, Eq)]
pub struct Node {
    /// Reachability, `"online"` for a host that answers.
    pub status: String,
    /// The cluster-wide resource identifier.
    pub id: String,
    /// The short name by which the host is addressed.
    pub node: String,
    /// The resource kind the cluster reports for this entry.
    pub kind: String,
}

pub struct NodeView {
    pub status: Seq<char>,
    pub id: Seq<char>,
    pub node: Seq<char>,
    pub kind: Seq<char>,
}

impl View for Node {
    type V = NodeView;

    open spec fn view(&self) -> NodeView {
        NodeView { status: self.status@, id: self.id@, node: self.node@, kind: self.kind@ }
    }
}

impl Node {
    pub fn new(status: String, id: String, node: String, kind: String) -> (out: Self)
        ensures
            out@ == (NodeView { status: status@, id: id@, node: node@, kind: kind@ }),
    {
        Self { status, id, node, kind }
    }
}

/// The envelope of the node list.
#[derive(Debug, PartialEq, Eq)]
pub struct NodeData {
    pub data: Vec<Node>,
}

pub struct NodeDataView {
    pub data: Seq<NodeView>,
}

impl View for NodeData {
    type V = NodeDataView;

    open spec fn view(&self) -> NodeDataView {
        NodeDataView { data: views(self.data@) }
    }
}

impl NodeData {
    pub fn new(data: Vec<Node>) -> (out: Self)
        ensures
            out@.data == views(data@),
            out.data == data,
    {
        Self { data }
    }
}

/// A virtual machine as the per-node listing reports it, with a numeric
/// identifier.
#[derive(Debug, PartialEq, Eq)]
pub struct Qemu {
    pub status: String,
    pub name: String,
    pub tags: Option<String>,
    pub vmid: u32,
}

pub struct QemuView {
    pub status: Seq<char>,
    pub name: Seq<char>,
    pub tags: Option<Seq<char>>,
    pub vmid: u32,
}

impl View for Qemu {
    type V = QemuView;

    open spec fn view(&self) -> QemuView {
        QemuView {
            status: self.status@,
            name: self.name@,
            tags: opt_text(self.tags),
            vmid: self.vmid,
        }
    }
}

impl Qemu {
    pub fn new(status: String, name: String, tags: Option<String>, vmid: u32) -> (out: Self)
        ensures
            out@ == (QemuView { status: status@, name: name@, tags: opt_text(tags), vmid }),
    {
        Self { status, name, tags, vmid }
    }
}

/// The envelope of a virtual-machine listing.
#[derive(Debug, PartialEq, Eq)]
pub struct QemuData {
    pub data: Vec<Qemu>,
}

pub struct QemuDataView {
    pub data: Seq<QemuView>,
}

impl View for QemuData {
    type V = QemuDataView;

    open spec fn view(&self) -> QemuDataView {
        QemuDataView { data: views(self.data@) }
    }
}

impl QemuData {
    pub fn new(data: Vec<Qemu>) -> (out: Self)
        ensures
            out@.data == views(data@),
            out.data == data,
    {
        Self { data }
    }
}

/// One address that a guest reports on an interface.
#[derive(Debug, PartialEq, Eq)]
pub struct IpAddress {
    /// The family tag, `"ipv4"` or `"ipv6"`.
    pub ip_address_type: String,
    /// The address as the guest wrote it.
    pub ip_address: String,
    /// The prefix length. Discovery carries it and never reads it.
    pub prefix: u32,
}

pub struct IpAddressView {
    pub ip_address_type: Seq<char>,
    pub ip_address: Seq<char>,
    pub prefix: u32,
}

impl View for IpAddress {
    type V = IpAddressView;

    open spec fn view(&self) -> IpAddressView {
        IpAddressView {
            ip_address_type: self.ip_address_type@,
            ip_address: self.ip_address@,
            prefix: self.prefix,
        }
    }
}

impl IpAddress {
    pub fn new(ip_address_type: String, ip_address: String, prefix: u32) -> (out: Self)
        ensures
            out@ == (IpAddressView {
                ip_address_type: ip_address_type@,
                ip_address: ip_address@,
                prefix,
            }),
    {
        Self { ip_address_type, ip_address, prefix }
    }
}

impl Clone for IpAddress {
    fn clone(&self) -> (out: Self)
        ensures
            out@ == self@,
    {
        Self {
            ip_address_type: self.ip_address_type.clone(),
            ip_address: self.ip_address.clone(),
            prefix: self.prefix,
        }
    }
}

/// One network interface of a guest, with the addresses bound to it in
/// the order the guest reports them.
#[derive(Debug, PartialEq, Eq)]
pub struct NetworkInterface {
    pub hardware_address: String,
    pub name: String,
    pub ip_addresses: Vec<IpAddress>,
}

pub struct NetworkInterfaceView {
    pub hardware_address: Seq<char>,
    pub name: Seq<char>,
    pub ip_addresses: Seq<IpAddressView>,
}

impl View for NetworkInterface {
    type V = NetworkInterfaceView;

    open spec fn view(&self) -> NetworkInterfaceView {
        NetworkInterfaceView {
            hardware_address: self.hardware_address@,
            name: self.name@,
            ip_addresses: views(self.ip_addresses@),
        }
    }
}

impl NetworkInterface {
    pub fn new(hardware_address: String, name: String, ip_addresses: Vec<IpAddress>) -> (out: Self)
        ensures
            out@ == (NetworkInterfaceView {
                hardware_address: hardware_address@,
                name: name@,
                ip_addresses: views(ip_addresses@),
            }),
            out.ip_addresses == ip_addresses,
    {
        Self { hardware_address, name, ip_addresses }
    }
}

impl Clone for NetworkInterface {
    fn clone(&self) -> (out: Self)
        ensures
            out@ == self@,
    {
        let mut ip_addresses: Vec<IpAddress> = Vec::new();
        let mut i: usize = 0;
        while i < self.ip_addresses.len()
            invariant
                i <= self.ip_addresses.len(),
                views(ip_addresses@) == views(self.ip_addresses@.take(i as int)),
            decreases self.ip_addresses.len() - i,
        {
            let copy = self.ip_addresses[i].clone();
            proof {
                let f = |item: IpAddress| item@;
                ip_addresses@.lemma_push_map_commute(f, copy);
                let seen = self.ip_addresses@.take(i as int);
                seen.lemma_push_map_commute(f, self.ip_addresses@[i as int]);
                self.ip_addresses@.lemma_take_succ_push(i as int);
            }
            ip_addresses.push(copy);
            i += 1;
        }
        proof {
            self.ip_addresses@.lemma_take_len();
        }
        Self {
            hardware_address: self.hardware_address.clone(),
            name: self.name.clone(),
            ip_addresses,
        }
    }
}

/// The inner envelope of a guest agent's interface report.
#[derive(Debug, PartialEq, Eq)]
pub struct NetworkInterfaceResult {
    pub result: Vec<NetworkInterface>,
}

pub struct NetworkInterfaceResultView {
    pub result: Seq<NetworkInterfaceView>,
}

impl View for NetworkInterfaceResult {
    type V = NetworkInterfaceResultView;

    open spec fn view(&self) -> NetworkInterfaceResultView {
        NetworkInterfaceResultView { result: views(self.result@) }
    }
}

impl NetworkInterfaceResult {
    pub fn new(result: Vec<NetworkInterface>) -> (out: Self)
        ensures
            out@.result == views(result@),
            out.result == result,
    {
        Self { result }
    }
}

/// The outer envelope of a guest agent's interface report.
#[derive(Debug, PartialEq, Eq)]
pub struct NetworkInterfaceData {
    pub data: NetworkInterfaceResult,
}

pub struct NetworkInterfaceDataView {
    pub data: NetworkInterfaceResultView,
}

impl View for NetworkInterfaceData {
    type V = NetworkInterfaceDataView;

    open spec fn view(&self) -> NetworkInterfaceDataView {
        NetworkInterfaceDataView { data: self.data@ }
    }
}

impl NetworkInterfaceData {
    pub fn new(data: NetworkInterfaceResult) -> (out: Self)
        ensures
            out@.data == data@,
            out.data == data,
    {
        Self { data }
    }
}

/// The labels of a target record.
#[derive(Debug, PartialEq, Eq)]
pub struct Labels {
    /// The job name. Every record carries it.
    pub meta_prometheus_job: String,
    /// The workload kind, on records made for one workload.
    pub vm_type: Option<String>,
    /// The workload's fully-qualified name, on records made for one workload.
    pub hostname: Option<String>,
}

pub struct LabelsView {
    pub meta_prometheus_job: Seq<char>,
    pub vm_type: Option<Seq<char>>,
    pub hostname: Option<Seq<char>>,
}

impl View for Labels {
    type V = LabelsView;

    open spec fn view(&self) -> LabelsView {
        LabelsView {
            meta_prometheus_job: self.meta_prometheus_job@,
            vm_type: opt_text(self.vm_type),
            hostname: opt_text(self.hostname),
        }
    }
}

/// What the scraper consumes: `host:port` strings under one label set.
#[derive(Debug, PartialEq, Eq)]
pub struct Target {
    pub targets: Vec<String>,
    pub labels: Labels,
}

pub struct TargetView {
    pub targets: Seq<Seq<char>>,
    pub labels: LabelsView,
}

impl View for Target {
    type V = TargetView;

    open spec fn view(&self) -> TargetView {
        TargetView { targets: views(self.targets@), labels: self.labels@ }
    }
}

/// A container as the per-node listing reports it, with a textual
/// identifier.
#[derive(Debug, PartialEq, Eq)]
pub struct Lxc {
    pub status: String,
    pub tags: Option<String>,
    pub vmid: String,
}

pub struct LxcView {
    pub status: Seq<char>,
    pub tags: Option<Seq<char>>,
    pub vmid: Seq<char>,
}

impl View for Lxc {
    type V = LxcView;

    open spec fn view(&self) -> LxcView {
        LxcView { status: self.status@, tags: opt_text(self.tags), vmid: self.vmid@ }
    }
}

/// The envelope of a container listing.
#[derive(Debug, PartialEq, Eq)]
pub struct LxcData {
    pub data: Vec<Lxc>,
}

pub struct LxcDataView {
    pub data: Seq<LxcView>,
}

impl View for LxcData {
    type V = LxcDataView;

    open spec fn view(&self) -> LxcDataView {
        LxcDataView { data: views(self.data@) }
    }
}

/// One interface of a container, as the host reports it.
#[derive(Debug, PartialEq, Eq)]
pub struct LxcInterface {
    pub name: String,
    pub hwaddr: String,
    pub inet: String,
}

pub struct LxcInterfaceView {
    pub name: Seq<char>,
    pub hwaddr: Seq<char>,
    pub inet: Seq<char>,
}

impl View for LxcInterface {
    type V = LxcInterfaceView;

    open spec fn view(&self) -> LxcInterfaceView {
        LxcInterfaceView { name: self.name@, hwaddr: self.hwaddr@, inet: self.inet@ }
    }
}

/// The envelope of a container's interface list.
#[derive(Debug, PartialEq, Eq)]
pub struct LxcInterfaceData {
    pub data: Vec<LxcInterface>,
}

pub struct LxcInterfaceDataView {
    pub data: Seq<LxcInterfaceView>,
}

impl View for LxcInterfaceData {
    type V = LxcInterfaceDataView;

    open spec fn view(&self) -> LxcInterfaceDataView {
        LxcInterfaceDataView { data: views(self.data@) }
    }
}

/// A workload identifier. The cluster writes it as a number for one kind
/// of workload and as text for another.
#[derive(Debug, PartialEq, Eq)]
pub enum VmId {
    Text(String),
    Int(u32),
}

pub enum VmIdView {
    Text(Seq<char>),
    Int(u32),
}

impl View for VmId {
    type V = VmIdView;

    open spec fn view(&self) -> VmIdView {
        match self {
            VmId::Text(s) => VmIdView::Text(s@),
            VmId::Int(n) => VmIdView::Int(*n),
        }
    }
}

/// The identifier as it is written in a resource path: text as it is, a
/// number in base ten.
pub open spec fn id_text(id: VmIdView) -> Seq<char> {
    match id {
        VmIdView::Text(s) => s,
        VmIdView::Int(n) => decimal(n as nat),
    }
}

impl VmId {
    /// The identifier in the form a resource path needs.
    pub fn to_text(&self) -> (out: String)
        ensures
            out@ == id_text(self@),
    {
        match self {
            VmId::Text(s) => s.clone(),
            VmId::Int(n) => decimal_string(*n),
        }
    }
}

impl Clone for VmId {
    fn clone(&self) -> (out: Self)
        ensures
            out@ == self@,
    {
        match self {
            VmId::Text(s) => VmId::Text(s.clone()),
            VmId::Int(n) => VmId::Int(*n),
        }
    }
}

/// A workload of either kind, as a per-node listing reports it.
#[derive(Debug, PartialEq, Eq)]
pub struct Vm {
    /// Lifecycle status, `"running"` for a workload that runs.
    pub status: String,
    /// The display name.
    pub name: String,
    /// The tag list: labels joined by semicolons. Absent on an untagged
    /// workload.
    pub tags: Option<String>,
    pub vm_id: VmId,
    /// The kind the record itself states. Absent on records that predate
    /// the field.
    pub vm_type: Option<String>,
}

pub struct VmView {
    pub status: Seq<char>,
    pub name: Seq<char>,
    pub tags: Option<Seq<char>>,
    pub vm_id: VmIdView,
    pub vm_type: Option<Seq<char>>,
}

impl View for Vm {
    type V = VmView;

    open spec fn view(&self) -> VmView {
        VmView {
            status: self.status@,
            name: self.name@,
            tags: opt_text(self.tags),
            vm_id: self.vm_id@,
            vm_type: opt_text(self.vm_type),
        }
    }
}

impl Clone for Vm {
    fn clone(&self) -> (out: Self)
        ensures
            out@ == self@,
    {
        Self {
            status: self.status.clone(),
            name: self.name.clone(),
            tags: clone_opt_text(&self.tags),
            vm_id: self.vm_id.clone(),
            vm_type: clone_opt_text(&self.vm_type),
        }
    }
}

/// The envelope of a workload listing.
#[derive(Debug, PartialEq, Eq)]
pub struct VmData {
    pub data: Vec<Vm>,
}

pub struct VmDataView {
    pub data: Seq<VmView>,
}

impl View for VmData {
    type V = VmDataView;

    open spec fn view(&self) -> VmDataView {
        VmDataView { data: views(self.data@) }
    }
}

/// The two kinds of workload. Each has a listing of its own on every node.
#[derive(Debug, Clone, Copy, PartialEq, Eq)]
pub enum VmType {
    LXC,
    QEMU,
}

/// The path segment under which a node lists workloads of a kind.
pub open spec fn kind_name(kind: VmType) -> Seq<char> {
    match kind {
        VmType::LXC => "lxc"@,
        VmType::QEMU => "qemu"@,
    }
}

impl VmType {
    pub fn as_str(&self) -> (out: &'static str)
        ensures
            out@ == kind_name(*self),
    {
        match *self {
            VmType::LXC => "lxc",
            VmType::QEMU => "qemu",
        }
    }
}

} // verus!
