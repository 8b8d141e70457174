use proxmox_sd::models::Labels;
use proxmox_sd::models::Target;
use proxmox_sd::models::Vm;
use proxmox_sd::models::VmId;
use proxmox_sd::targets::build_target;
use proxmox_sd::targets::build_vm_targets;
use proxmox_sd::targets::endpoint_of;
use proxmox_sd::targets::labels_of;

fn vm(name: &str, vm_type: Option<&str>) -> Vm {
    Vm {
        status: "running".to_string(),
        name: name.to_string(),
        tags: Some("watch".to_string()),
        vm_id: VmId::Int(101),
        vm_type: vm_type.map(|t| t.to_string()),
    }
}

#[test]
fn ipv6_literal_is_bracketed() {
    assert_eq!(endpoint_of("2404:6800:4005:815::200e"), "[2404:6800:4005:815::200e]:9100");
    assert_eq!(endpoint_of("::"), "[::]:9100");
}

#[test]
fn other_hosts_are_written_bare() {
    assert_eq!(endpoint_of("192.168.1.34"), "192.168.1.34:9100");
    assert_eq!(endpoint_of("pihole.phu.homes"), "pihole.phu.homes:9100");
    assert_eq!(endpoint_of(""), ":9100");
}

#[test]
fn batch_record_lists_every_address_under_the_job_name() {
    let addresses = vec!["2001:db8::2".to_string(), "2001:db8::3".to_string()];
    let expected = Target {
        targets: vec!["[2001:db8::2]:9100".to_string(), "[2001:db8::3]:9100".to_string()],
        labels: Labels { meta_prometheus_job: "proxmox".to_string(), vm_type: None, hostname: None },
    };
    assert_eq!(build_target(&addresses), expected);
}

#[test]
fn batch_record_of_no_address_has_no_targets() {
    let record = build_target(&vec![]);
    assert_eq!(record.targets, Vec::<String>::new());
    assert_eq!(record.labels.meta_prometheus_job, "proxmox");
    assert_eq!(record.labels.vm_type, None);
    assert_eq!(record.labels.hostname, None);
}

#[test]
fn batch_record_keeps_repeated_addresses() {
    let addresses = vec!["2001:db8::2".to_string(), "2001:db8::2".to_string()];
    assert_eq!(build_target(&addresses).targets, vec!["[2001:db8::2]:9100", "[2001:db8::2]:9100"]);
}

#[test]
fn workload_labels_carry_job_kind_and_name() {
    let labels = labels_of(&vm("pihole", Some("lxc")), "phu.homes");
    assert_eq!(
        labels,
        Labels {
            meta_prometheus_job: "proxmox".to_string(),
            vm_type: Some("lxc".to_string()),
            hostname: Some("pihole.phu.homes".to_string()),
        }
    );
}

#[test]
fn workload_without_kind_is_labelled_qemu() {
    let labels = labels_of(&vm("vm3", None), "phu.homes");
    assert_eq!(labels.vm_type, Some("qemu".to_string()));
    assert_eq!(labels.hostname, Some("vm3.phu.homes".to_string()));
}

#[test]
fn one_record_per_address() {
    let addresses = vec!["2001:db8::2".to_string(), "2001:db8::3".to_string()];
    let records = build_vm_targets(&vm("db", Some("qemu")), "lan", &addresses);
    let labels = || Labels {
        meta_prometheus_job: "proxmox".to_string(),
        vm_type: Some("qemu".to_string()),
        hostname: Some("db.lan".to_string()),
    };
    assert_eq!(
        records,
        vec![
            Target { targets: vec!["[2001:db8::2]:9100".to_string()], labels: labels() },
            Target { targets: vec!["[2001:db8::3]:9100".to_string()], labels: labels() },
        ]
    );
}

#[test]
fn workload_without_address_has_no_record() {
    assert_eq!(build_vm_targets(&vm("db", None), "lan", &vec![]), Vec::<Target>::new());
}

#[test]
fn records_are_not_deduplicated() {
    let addresses = vec!["2001:db8::2".to_string(), "2001:db8::2".to_string()];
    let records = build_vm_targets(&vm("db", None), "lan", &addresses);
    assert_eq!(records.len(), 2);
    assert_eq!(records[0], records[1]);
}
