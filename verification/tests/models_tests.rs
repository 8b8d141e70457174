use proxmox_sd::models::IpAddress;
use proxmox_sd::models::Lxc;
use proxmox_sd::models::LxcData;
use proxmox_sd::models::LxcInterface;
use proxmox_sd::models::LxcInterfaceData;
use proxmox_sd::models::NetworkInterface;
use proxmox_sd::models::NetworkInterfaceData;
use proxmox_sd::models::NetworkInterfaceResult;
use proxmox_sd::models::Node;
use proxmox_sd::models::NodeData;
use proxmox_sd::models::Qemu;
use proxmox_sd::models::QemuData;
use proxmox_sd::models::Vm;
use proxmox_sd::models::VmId;
use proxmox_sd::models::VmType;

#[test]
fn node_constructor_keeps_every_field() {
    let node = Node::new("online".to_string(), "node/k4".to_string(), "k4".to_string(), "node".to_string());
    assert_eq!(node.status, "online");
    assert_eq!(node.id, "node/k4");
    assert_eq!(node.node, "k4");
    assert_eq!(node.kind, "node");
    let data = NodeData::new(vec![node]);
    assert_eq!(data.data.len(), 1);
    assert_eq!(data.data[0].node, "k4");
}

#[test]
fn qemu_constructor_keeps_every_field() {
    let vm = Qemu::new("running".to_string(), "db".to_string(), Some("watch;database".to_string()), 101);
    assert_eq!(vm.status, "running");
    assert_eq!(vm.name, "db");
    assert_eq!(vm.tags, Some("watch;database".to_string()));
    assert_eq!(vm.vmid, 101);
    let untagged = Qemu::new("stopped".to_string(), "x".to_string(), None, 0);
    assert_eq!(untagged.tags, None);
    let data = QemuData::new(vec![vm, untagged]);
    assert_eq!(data.data.len(), 2);
    assert_eq!(data.data[1].vmid, 0);
}

#[test]
fn interface_constructors_keep_every_field() {
    let address = IpAddress::new("ipv6".to_string(), "2001:db8::2".to_string(), 64);
    assert_eq!(address.ip_address_type, "ipv6");
    assert_eq!(address.ip_address, "2001:db8::2");
    assert_eq!(address.prefix, 64);
    let interface = NetworkInterface::new("bc:24:11:00:00:01".to_string(), "eth0".to_string(), vec![address]);
    assert_eq!(interface.hardware_address, "bc:24:11:00:00:01");
    assert_eq!(interface.name, "eth0");
    assert_eq!(interface.ip_addresses.len(), 1);
    let data = NetworkInterfaceData::new(NetworkInterfaceResult::new(vec![interface]));
    assert_eq!(data.data.result.len(), 1);
    assert_eq!(data.data.result[0].ip_addresses[0].ip_address, "2001:db8::2");
}

#[test]
fn container_records_hold_text_identifiers() {
    let ct = Lxc { status: "running".to_string(), tags: None, vmid: "200".to_string() };
    let data = LxcData { data: vec![ct] };
    assert_eq!(data.data[0].vmid, "200");
    let interfaces = LxcInterfaceData {
        data: vec![LxcInterface {
            name: "eth0".to_string(),
            hwaddr: "bc:24:11:00:00:02".to_string(),
            inet: "10.0.0.2/24".to_string(),
        }],
    };
    assert_eq!(interfaces.data[0].inet, "10.0.0.2/24");
}

#[test]
fn workload_copy_is_equal_to_the_workload() {
    let vm = Vm {
        status: "running".to_string(),
        name: "vm3".to_string(),
        tags: Some("watch;k8s".to_string()),
        vm_id: VmId::Text("102".to_string()),
        vm_type: None,
    };
    let copy = vm.clone();
    assert_eq!(copy, vm);
    assert_eq!(copy.vm_id.clone(), VmId::Text("102".to_string()));
    assert_eq!(VmId::Int(7).clone(), VmId::Int(7));
}

#[test]
fn kinds_have_their_path_segments() {
    assert_eq!(VmType::LXC.as_str(), "lxc");
    assert_eq!(VmType::QEMU.as_str(), "qemu");
    assert_ne!(VmType::LXC, VmType::QEMU);
}
