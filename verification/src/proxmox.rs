//! What to ask the cluster for, and what to keep of its answers.
//!
//! The functions here take decoded listings and return the entries that
//! discovery follows further: the names of the hosts that are online and
//! the workloads that are tagged for monitoring and running. The paths
//! under which the listings are found are built here too.
use crate::models::id_text;
use crate::models::kind_name;
use crate::models::views;
use crate::models::NodeData;
use crate::models::NodeView;
use crate::models::Vm;
use crate::models::VmData;
use crate::models::VmId;
use crate::models::VmIdView;
use crate::models::VmType;
use crate::models::VmView;
use crate::text::contains;
use crate::text::has_substring;
use crate::text::same_text;
use vstd::prelude::*;

verus! {

/// A host counts as reachable when its status is exactly `"online"`.
pub open spec fn is_online(node: NodeView) -> bool {
    node.status == "online"@
}

/// The names of the reachable hosts, in listing order.
pub open spec fn online_names(nodes: Seq<NodeView>) -> Seq<Seq<char>> {
    nodes.filter(|node: NodeView| is_online(node)).map_values(|node: NodeView| node.node)
}

/// A workload is followed when its tag list holds the marker `"watch"`
/// and its status holds `"running"`, each as a run of characters anywhere
/// in the string. A workload without a tag list is never followed.
pub open spec fn selected(vm: VmView) -> bool {
    match vm.tags {
        Some(tags) => has_substring(tags, "watch"@) && has_substring(vm.status, "running"@),
        None => false,
    }
}

/// The followed workloads of a listing, in listing order.
pub open spec fn selected_vms(vms: Seq<VmView>) -> Seq<VmView> {
    vms.filter(|vm: VmView| selected(vm))
}

/// The path of the node list.
pub open spec fn nodes_path(base_url: Seq<char>) -> Seq<char> {
    base_url + "/nodes"@
}

/// The path of a node's listing of one kind of workload.
pub open spec fn vm_path(base_url: Seq<char>, node: Seq<char>, kind: VmType) -> Seq<char> {
    base_url + "/nodes/"@ + node + "/"@ + kind_name(kind)
}

/// The path of the guest agent's interface report for one workload.
pub open spec fn interfaces_path(
    base_url: Seq<char>,
    node: Seq<char>,
    kind: VmType,
    id: VmIdView,
) -> Seq<char> {
    vm_path(base_url, node, kind) + "/"@ + id_text(id) + "/agent/network-get-interfaces"@
}

/// A workload without tags is not followed, whatever its status.
pub proof fn lemma_untagged_never_selected(vm: VmView)
    requires
        vm.tags is None,
    ensures
        !selected(vm),
{
}

/// Selection is the conjunction of the two substring tests, and nothing
/// else about the workload enters into it.
pub proof fn lemma_selection_rule(vm: VmView)
    ensures
        selected(vm) <==> (vm.tags is Some && has_substring(vm.tags->0, "watch"@) && has_substring(
            vm.status,
            "running"@,
        )),
{
}

/// Every followed workload of a listing is in the listing and meets the
/// selection rule, and every entry that meets it is followed.
pub proof fn lemma_selected_vms_exact(vms: Seq<VmView>, vm: VmView)
    ensures
        selected_vms(vms).contains(vm) <==> (vms.contains(vm) && selected(vm)),
{
    let keep = |vm: VmView| selected(vm);
    if selected_vms(vms).contains(vm) {
        let i = choose|i: int| 0 <= i < selected_vms(vms).len() && selected_vms(vms)[i] == vm;
        vms.lemma_filter_pred(keep, i);
        vms.lemma_filter_contains_rev(keep, vm);
    }
    if vms.contains(vm) && selected(vm) {
        let j = choose|j: int| 0 <= j < vms.len() && vms[j] == vm;
        vms.lemma_filter_contains(keep, j);
    }
}

/// Listing one more host adds its name when it is online and nothing
/// otherwise.
pub proof fn lemma_online_names_push(seen: Seq<NodeView>, node: NodeView)
    ensures
        online_names(seen.push(node)) == if is_online(node) {
            online_names(seen).push(node.node)
        } else {
            online_names(seen)
        },
{
    let keep = |node: NodeView| is_online(node);
    let name = |node: NodeView| node.node;
    seen.lemma_filter_push(node, keep);
    seen.filter(keep).lemma_push_map_commute(name, node);
}

/// Listing one more workload adds it when it meets the selection rule and
/// nothing otherwise.
pub proof fn lemma_selected_vms_push(seen: Seq<VmView>, vm: VmView)
    ensures
        selected_vms(seen.push(vm)) == if selected(vm) {
            selected_vms(seen).push(vm)
        } else {
            selected_vms(seen)
        },
{
    let keep = |vm: VmView| selected(vm);
    seen.lemma_filter_push(vm, keep);
}

/// The names of the hosts that are online, in listing order.
pub fn get_nodes(resp: &NodeData) -> (names: Vec<String>)
    ensures
        views(names@) == online_names(resp@.data),
{
    let ghost all = resp@.data;
    let mut names: Vec<String> = Vec::new();
    let mut i: usize = 0;
    proof {
        reveal(Seq::filter);
        assert(all.take(0) =~= Seq::<NodeView>::empty());
        assert(views(names@) =~= online_names(all.take(0)));
    }
    while i < resp.data.len()
        invariant
            i <= resp.data.len(),
            all == resp@.data,
            all.len() == resp.data.len(),
            views(names@) == online_names(all.take(i as int)),
        decreases resp.data.len() - i,
    {
        let node = &resp.data[i];
        proof {
            let seen = all.take(i as int);
            assert(all[i as int] == node@);
            all.lemma_take_succ_push(i as int);
            lemma_online_names_push(seen, node@);
        }
        if same_text(node.status.as_str(), "online") {
            let copy = node.node.clone();
            proof {
                assert(views(names@.push(copy)) =~= views(names@).push(copy@));
            }
            names.push(copy);
        }
        i += 1;
    }
    proof {
        all.lemma_take_len();
    }
    names
}

/// Whether a workload is followed.
pub fn is_selected(vm: &Vm) -> (keep: bool)
    ensures
        keep == selected(vm@),
{
    match &vm.tags {
        Some(tags) => contains(tags.as_str(), "watch") && contains(vm.status.as_str(), "running"),
        None => false,
    }
}

/// The followed workloads of a listing, in listing order.
pub fn get_vm(resp: &VmData) -> (vms: Vec<Vm>)
    ensures
        views(vms@) == selected_vms(resp@.data),
{
    let ghost all = resp@.data;
    let mut vms: Vec<Vm> = Vec::new();
    let mut i: usize = 0;
    proof {
        reveal(Seq::filter);
        assert(all.take(0) =~= Seq::<VmView>::empty());
        assert(views(vms@) =~= selected_vms(all.take(0)));
    }
    while i < resp.data.len()
        invariant
            i <= resp.data.len(),
            all == resp@.data,
            all.len() == resp.data.len(),
            views(vms@) == selected_vms(all.take(i as int)),
        decreases resp.data.len() - i,
    {
        let vm = &resp.data[i];
        proof {
            assert(all[i as int] == vm@);
            all.lemma_take_succ_push(i as int);
            lemma_selected_vms_push(all.take(i as int), vm@);
        }
        if is_selected(vm) {
            let copy = vm.clone();
            proof {
                assert(views(vms@.push(copy)) =~= views(vms@).push(copy@));
            }
            vms.push(copy);
        }
        i += 1;
    }
    proof {
        all.lemma_take_len();
    }
    vms
}

/// The path of the node list under a base address.
pub fn nodes_url(base_url: &str) -> (url: String)
    ensures
        url@ == nodes_path(base_url@),
{
    let mut url = String::from_str(base_url);
    url.append("/nodes");
    url
}

/// The path of a node's listing of one kind of workload.
pub fn vm_url(base_url: &str, node: &str, vm_type: VmType) -> (url: String)
    ensures
        url@ == vm_path(base_url@, node@, vm_type),
{
    let mut url = String::from_str(base_url);
    url.append("/nodes/");
    url.append(node);
    url.append("/");
    url.append(vm_type.as_str());
    url
}

/// The path of the guest agent's interface report for one workload.
pub fn interfaces_url(base_url: &str, node: &str, vm_type: VmType, vm_id: &VmId) -> (url: String)
    ensures
        url@ == interfaces_path(base_url@, node@, vm_type, vm_id@),
{
    let mut url = vm_url(base_url, node, vm_type);
    let id = vm_id.to_text();
    url.append("/");
    url.append(id.as_str());
    url.append("/agent/network-get-interfaces");
    url
}

} // verus!
