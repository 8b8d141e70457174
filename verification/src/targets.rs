//! Target records: what the scraper is told to scrape, and under which
//! labels.
use crate::models::opt_text;
use crate::models::views;
use crate::models::Labels;
use crate::models::LabelsView;
use crate::models::Target;
use crate::models::TargetView;
use crate::models::Vm;
use crate::models::VmView;
use crate::text::contains;
use crate::text::has_substring;
use crate::utils::fqdn;
use crate::utils::generate_fqdn;
use vstd::prelude::*;

verus! {

/// The job name that every record carries.
pub open spec fn job_name() -> Seq<char> {
    "proxmox"@
}

/// The kind written on the record of a workload that states none.
pub open spec fn default_kind() -> Seq<char> {
    "qemu"@
}

/// The `host:port` string for a host, on the exporter port 9100. A host
/// that holds a colon is an IPv6 literal and is put in square brackets.
pub open spec fn endpoint(host: Seq<char>) -> Seq<char> {
    if has_substring(host, ":"@) {
        "["@ + host + "]:9100"@
    } else {
        host + ":9100"@
    }
}

/// The labels of a record that stands for no single workload.
pub open spec fn job_labels() -> LabelsView {
    LabelsView { meta_prometheus_job: job_name(), vm_type: None, hostname: None }
}

/// The one record that lists every address of a batch.
pub open spec fn batch_target(addresses: Seq<Seq<char>>) -> TargetView {
    TargetView {
        targets: addresses.map_values(|address: Seq<char>| endpoint(address)),
        labels: job_labels(),
    }
}

/// The labels of a workload's records: the job name, the kind the
/// workload states (`qemu` when it states none), and its fully-qualified
/// name.
pub open spec fn vm_labels(vm: VmView, domain: Seq<char>) -> LabelsView {
    LabelsView {
        meta_prometheus_job: job_name(),
        vm_type: Some(
            match vm.vm_type {
                Some(kind) => kind,
                None => default_kind(),
            },
        ),
        hostname: Some(fqdn(vm.name, domain)),
    }
}

/// The record for one address of a workload.
pub open spec fn vm_target(vm: VmView, domain: Seq<char>, address: Seq<char>) -> TargetView {
    TargetView { targets: seq![endpoint(address)], labels: vm_labels(vm, domain) }
}

/// The records of a workload: one for each of its addresses, in order.
pub open spec fn vm_targets(vm: VmView, domain: Seq<char>, addresses: Seq<Seq<char>>) -> Seq<
    TargetView,
> {
    addresses.map_values(|address: Seq<char>| vm_target(vm, domain, address))
}

/// Every record built here carries the job name.
pub proof fn lemma_records_carry_job(
    vm: VmView,
    domain: Seq<char>,
    addresses: Seq<Seq<char>>,
    i: int,
)
    requires
        0 <= i < addresses.len(),
    ensures
        batch_target(addresses).labels.meta_prometheus_job == job_name(),
        vm_targets(vm, domain, addresses).len() == addresses.len(),
        vm_targets(vm, domain, addresses)[i].labels.meta_prometheus_job == job_name(),
        vm_targets(vm, domain, addresses)[i].targets == seq![endpoint(addresses[i])],
        batch_target(addresses).targets.len() == addresses.len(),
        batch_target(addresses).targets[i] == endpoint(addresses[i]),
{
}

/// The `host:port` string for a host.
pub fn endpoint_of(host: &str) -> (out: String)
    ensures
        out@ == endpoint(host@),
{
    if contains(host, ":") {
        let mut out = String::from_str("[");
        out.append(host);
        out.append("]:9100");
        out
    } else {
        let mut out = String::from_str(host);
        out.append(":9100");
        out
    }
}

/// One record for a whole batch of addresses, labelled with the job name
/// alone. An empty batch gives a record with no targets.
pub fn build_target(addresses: &Vec<String>) -> (out: Target)
    ensures
        out@ == batch_target(views(addresses@)),
{
    let ghost all = views(addresses@);
    let mut targets: Vec<String> = Vec::new();
    let mut i: usize = 0;
    while i < addresses.len()
        invariant
            i <= addresses.len(),
            all == views(addresses@),
            targets.len() == i,
            forall|k: int| 0 <= k < i ==> (#[trigger] targets@[k])@ == endpoint(all[k]),
        decreases addresses.len() - i,
    {
        let one = endpoint_of(addresses[i].as_str());
        targets.push(one);
        i += 1;
    }
    proof {
        assert(views(targets@) =~= batch_target(all).targets);
    }
    Target {
        targets,
        labels: Labels {
            meta_prometheus_job: String::from_str("proxmox"),
            vm_type: None,
            hostname: None,
        },
    }
}

/// The labels of a workload's records.
pub fn labels_of(vm: &Vm, domain: &str) -> (out: Labels)
    ensures
        out@ == vm_labels(vm@, domain@),
{
    let kind = match &vm.vm_type {
        Some(kind) => kind.clone(),
        None => String::from_str("qemu"),
    };
    Labels {
        meta_prometheus_job: String::from_str("proxmox"),
        vm_type: Some(kind),
        hostname: Some(generate_fqdn(vm.name.as_str(), domain)),
    }
}

/// The records of a workload: one for each of its addresses, in order.
pub fn build_vm_targets(vm: &Vm, domain: &str, addresses: &Vec<String>) -> (out: Vec<Target>)
    ensures
        views(out@) == vm_targets(vm@, domain@, views(addresses@)),
{
    let ghost all = views(addresses@);
    let mut out: Vec<Target> = Vec::new();
    let mut i: usize = 0;
    while i < addresses.len()
        invariant
            i <= addresses.len(),
            all == views(addresses@),
            out.len() == i,
            forall|k: int| 0 <= k < i ==> (#[trigger] out@[k])@ == vm_target(vm@, domain@, all[k]),
        decreases addresses.len() - i,
    {
        let mut targets: Vec<String> = Vec::new();
        targets.push(endpoint_of(addresses[i].as_str()));
        let record = Target { targets, labels: labels_of(vm, domain) };
        proof {
            assert(record@.targets =~= seq![endpoint(all[i as int])]);
            assert(record@ == vm_target(vm@, domain@, all[i as int]));
        }
        out.push(record);
        i += 1;
    }
    proof {
        assert(views(out@) =~= vm_targets(vm@, domain@, all));
    }
    out
}

} // verus!
