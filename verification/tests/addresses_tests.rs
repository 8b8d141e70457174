use proxmox_sd::addresses::eligible_addresses;
use proxmox_sd::addresses::is_physical_adapter;
use proxmox_sd::addresses::is_usable_address;
use proxmox_sd::addresses::usable_addresses;
use proxmox_sd::models::IpAddress;
use proxmox_sd::models::NetworkInterface;

fn address(family: &str, literal: &str, prefix: u32) -> IpAddress {
    IpAddress::new(family.to_string(), literal.to_string(), prefix)
}

fn interface(name: &str, addresses: Vec<IpAddress>) -> NetworkInterface {
    NetworkInterface::new("bc:24:11:00:00:01".to_string(), name.to_string(), addresses)
}

#[test]
fn ethernet_and_hypervisor_adapter_names_are_eligible() {
    assert!(is_physical_adapter("eth0"));
    assert!(is_physical_adapter("eth1"));
    assert!(is_physical_adapter("ens18"));
    assert!(is_physical_adapter("ens3"));
}

#[test]
fn loopback_and_bridges_are_not_eligible() {
    assert!(!is_physical_adapter("lo"));
    assert!(!is_physical_adapter("docker0"));
    assert!(!is_physical_adapter("br-4f2a9c"));
    assert!(!is_physical_adapter("virbr0"));
    assert!(!is_physical_adapter("cni0"));
    assert!(!is_physical_adapter("flannel.1"));
    assert!(!is_physical_adapter(""));
}

#[test]
fn adapter_names_are_matched_as_substrings() {
    assert!(is_physical_adapter("veth1a2b3c"));
    assert!(is_physical_adapter("my-ens"));
    assert!(!is_physical_adapter("ETH0"));
    assert!(!is_physical_adapter("et0h"));
    assert!(!is_physical_adapter("enp3s0"));
}

#[test]
fn usable_means_ipv6_and_not_private() {
    assert!(is_usable_address(&address("ipv6", "2404:6800:4005:815::200e", 64)));
    assert!(!is_usable_address(&address("ipv4", "192.168.1.34", 24)));
    assert!(!is_usable_address(&address("ipv6", "fdbc:81e7:7a9a::", 64)));
    assert!(!is_usable_address(&address("ipv6", "fe80::1", 64)));
    assert!(!is_usable_address(&address("ipv6", "::1", 128)));
    assert!(!is_usable_address(&address("ipv6", "fc00::1", 7)));
}

#[test]
fn family_tag_must_be_exactly_ipv6() {
    assert!(!is_usable_address(&address("IPv6", "2404::1", 64)));
    assert!(!is_usable_address(&address("ipv6 ", "2404::1", 64)));
    assert!(!is_usable_address(&address("", "2404::1", 64)));
    assert!(!is_usable_address(&address("ipv4", "2404::1", 64)));
    assert!(is_usable_address(&address("ipv6", "192.168.1.34", 24)));
}

#[test]
fn prefix_length_plays_no_part() {
    assert!(is_usable_address(&address("ipv6", "2404::1", 0)));
    assert!(is_usable_address(&address("ipv6", "2404::1", 4294967295)));
}

#[test]
fn private_addresses_on_eth0_give_nothing() {
    let eth0 = interface(
        "eth0",
        vec![address("ipv4", "192.168.1.34", 24), address("ipv6", "fdbc:81e7:7a9a::", 64)],
    );
    assert_eq!(usable_addresses(&eth0), Vec::<String>::new());
    assert_eq!(eligible_addresses(&vec![eth0]), Vec::<String>::new());
}

#[test]
fn public_address_on_ens18_is_kept() {
    let ens18 = interface("ens18", vec![address("ipv6", "2404:6800:4005:815::200e", 64)]);
    assert_eq!(usable_addresses(&ens18), vec!["2404:6800:4005:815::200e"]);
    assert_eq!(eligible_addresses(&vec![ens18]), vec!["2404:6800:4005:815::200e"]);
}

#[test]
fn public_address_on_loopback_is_dropped() {
    let lo = interface("lo", vec![address("ipv6", "2404:6800:4005:815::200e", 64)]);
    assert_eq!(usable_addresses(&lo), vec!["2404:6800:4005:815::200e"]);
    assert_eq!(eligible_addresses(&vec![lo]), Vec::<String>::new());
}

#[test]
fn addresses_of_all_eligible_interfaces_are_appended_in_order() {
    let batch = vec![
        interface("lo", vec![address("ipv6", "::1", 128), address("ipv4", "127.0.0.1", 8)]),
        interface(
            "eth0",
            vec![
                address("ipv4", "10.0.0.2", 24),
                address("ipv6", "2001:db8::2", 64),
                address("ipv6", "fe80::2", 64),
                address("ipv6", "2001:db8::3", 64),
            ],
        ),
        interface("docker0", vec![address("ipv6", "2001:db8::99", 64)]),
        interface("ens19", vec![address("ipv6", "fd00::4", 64), address("ipv6", "2001:db8::4", 64)]),
        interface("eth1", vec![]),
        interface("eth2", vec![address("ipv6", "2001:db8::2", 64)]),
    ];
    assert_eq!(
        eligible_addresses(&batch),
        vec!["2001:db8::2", "2001:db8::3", "2001:db8::4", "2001:db8::2"]
    );
}

#[test]
fn empty_batch_gives_nothing() {
    assert_eq!(eligible_addresses(&vec![]), Vec::<String>::new());
    assert_eq!(usable_addresses(&interface("eth0", vec![])), Vec::<String>::new());
}

#[test]
fn copies_of_records_are_equal_to_them() {
    let a = address("ipv6", "2001:db8::2", 64);
    assert_eq!(a.clone(), a);
    let i = interface("eth0", vec![a.clone(), address("ipv4", "10.0.0.2", 24)]);
    assert_eq!(i.clone(), i);
    assert_eq!(i.clone().ip_addresses.len(), 2);
}
