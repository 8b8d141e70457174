use proxmox_sd::utils::generate_fqdn;
use proxmox_sd::utils::is_public_ipv6;

#[test]
fn test_check_ipv6() {
    let ipv6_addr = "2001:0db8:85a3:0000:0000:8a2e:0370:7334"; // Global IPv6 address
    let ipv6_addr2 = "fe80::c8e1:31ff:fe9f:bc77"; // Link-local IPv6 address
    let ipv6_addr3 = "::1"; // Loopback IPv6 address
    let ipv6_addr4 = "fc01:abcd::1";

    assert_eq!(is_public_ipv6(ipv6_addr), true);
    assert_eq!(is_public_ipv6(ipv6_addr2), false);
    assert_eq!(is_public_ipv6(ipv6_addr3), false);
    assert_eq!(is_public_ipv6(ipv6_addr4), false);
}

#[test]
fn test_get_ip() {
    println!("{:?}", generate_fqdn("pihole", "phu.homes."))
}

#[test]
fn fqdn_joins_name_and_domain_with_a_period() {
    assert_eq!(generate_fqdn("pihole", "phu.homes."), "pihole.phu.homes.");
    assert_eq!(generate_fqdn("vm3", "phu.homes"), "vm3.phu.homes");
}

#[test]
fn fqdn_of_empty_parts_is_the_period_between_them() {
    assert_eq!(generate_fqdn("", ""), ".");
    assert_eq!(generate_fqdn("db", ""), "db.");
    assert_eq!(generate_fqdn("", "lan"), ".lan");
}

#[test]
fn fqdn_keeps_characters_outside_ascii() {
    assert_eq!(generate_fqdn("máy-ảo", "nhà.vn"), "máy-ảo.nhà.vn");
}

#[test]
fn unique_local_prefixes_are_private() {
    assert!(!is_public_ipv6("fdbc:81e7:7a9a::"));
    assert!(!is_public_ipv6("fd"));
    assert!(!is_public_ipv6("fc"));
    assert!(!is_public_ipv6("fc00::1"));
}

#[test]
fn link_local_needs_the_whole_prefix() {
    assert!(!is_public_ipv6("fe80"));
    assert!(!is_public_ipv6("fe80::1"));
    assert!(is_public_ipv6("fe8"));
    assert!(is_public_ipv6("fe81::1"));
    assert!(is_public_ipv6("fe90::1"));
}

#[test]
fn loopback_prefix_is_matched_as_text() {
    assert!(!is_public_ipv6("::1"));
    assert!(!is_public_ipv6("::10"));
    assert!(is_public_ipv6("::"));
    assert!(is_public_ipv6("::2"));
    assert!(is_public_ipv6("0::1"));
}

#[test]
fn prefix_match_is_case_sensitive() {
    assert!(is_public_ipv6("FE80::1"));
    assert!(is_public_ipv6("FD00::1"));
    assert!(is_public_ipv6("Fc00::1"));
}

#[test]
fn prefix_must_stand_at_the_start() {
    assert!(is_public_ipv6("2001:fd::1"));
    assert!(is_public_ipv6(" fd00::1"));
    assert!(is_public_ipv6("2404:6800:4005:815::200e"));
}

#[test]
fn text_is_not_parsed_as_an_address() {
    assert!(is_public_ipv6(""));
    assert!(is_public_ipv6("not an address"));
    assert!(!is_public_ipv6("fdsomething"));
}
