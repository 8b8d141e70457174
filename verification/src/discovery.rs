//! One discovery run, as a machine that is told what the cluster
//! answered and says what to ask next.
//!
//! A run walks three stages in order. It asks for the node list; then,
//! for every online node, for the node's containers and for its virtual
//! machines; then, for every followed workload, for the interfaces its
//! guest reports. The run ends with the target records of all followed
//! workloads, or fails as a whole: the first request that is not answered
//! with the listing that was asked for ends it, and nothing gathered so
//! far is handed out. A failed run says at which stage it failed and why,
//! and nothing else: there is no retry and no partial result.
//!
//! The machine performs no request itself. [`Discovery::start`] and
//! [`Discovery::advance`] return the request to perform, and the caller
//! comes back with the answer.
use crate::addresses::eligible;
use crate::addresses::eligible_addresses;
use crate::models::views;
use crate::models::NetworkInterfaceData;
use crate::models::NetworkInterfaceDataView;
use crate::models::NodeData;
use crate::models::NodeDataView;
use crate::models::Target;
use crate::models::TargetView;
use crate::models::Vm;
use crate::models::VmData;
use crate::models::VmDataView;
use crate::models::VmType;
use crate::models::VmView;
use crate::proxmox::get_nodes;
use crate::proxmox::get_vm;
use crate::proxmox::interfaces_path;
use crate::proxmox::interfaces_url;
use crate::proxmox::nodes_path;
use crate::proxmox::nodes_url;
use crate::proxmox::online_names;
use crate::proxmox::selected_vms;
use crate::proxmox::vm_path;
use crate::proxmox::vm_url;
use crate::targets::build_vm_targets;
use crate::targets::vm_targets;
use vstd::prelude::*;

verus! {

/// The listing a request asks for, which is also the shape of its answer.
#[derive(Debug, Clone, Copy, PartialEq, Eq)]
pub enum Expect {
    Nodes,
    Vms,
    Interfaces,
}

/// Why a request came to nothing.
#[derive(Debug, Clone, Copy, PartialEq, Eq)]
pub enum Cause {
    /// The request did not succeed: no connection, no answer in time, or
    /// an answer that reports an error.
    Transport,
    /// The answer is not of the shape that was asked for.
    Decode,
}

/// Where and why a run failed.
#[derive(Debug, Clone, Copy, PartialEq, Eq)]
pub struct Failure {
    /// The listing the run was waiting for.
    pub stage: Expect,
    pub cause: Cause,
}

/// A request to perform against the cluster.
#[derive(Debug, PartialEq, Eq)]
pub struct Request {
    pub expect: Expect,
    pub url: String,
}

pub struct RequestView {
    pub expect: Expect,
    pub url: Seq<char>,
}

impl View for Request {
    type V = RequestView;

    open spec fn view(&self) -> RequestView {
        RequestView { expect: self.expect, url: self.url@ }
    }
}

/// What came of a request: a decoded listing, or `Failed` when the
/// request did not succeed or its answer could not be decoded.
#[derive(Debug, PartialEq, Eq)]
pub enum Event {
    Nodes(NodeData),
    Vms(VmData),
    Interfaces(NetworkInterfaceData),
    Failed(Cause),
}

pub enum EventView {
    Nodes(NodeDataView),
    Vms(VmDataView),
    Interfaces(NetworkInterfaceDataView),
    Failed(Cause),
}

impl View for Event {
    type V = EventView;

    open spec fn view(&self) -> EventView {
        match self {
            Event::Nodes(data) => EventView::Nodes(data@),
            Event::Vms(data) => EventView::Vms(data@),
            Event::Interfaces(data) => EventView::Interfaces(data@),
            Event::Failed(cause) => EventView::Failed(*cause),
        }
    }
}

/// A followed workload, with the node and the listing it was found in.
#[derive(Debug)]
pub struct Followed {
    node: String,
    kind: VmType,
    vm: Vm,
}

pub struct FollowedView {
    pub node: Seq<char>,
    pub kind: VmType,
    pub vm: VmView,
}

impl View for Followed {
    type V = FollowedView;

    closed spec fn view(&self) -> FollowedView {
        FollowedView { node: self.node@, kind: self.kind, vm: self.vm@ }
    }
}

/// What a run knows: its configuration and what it has gathered so far.
#[derive(Debug)]
pub struct Gathered {
    base_url: String,
    domain: String,
    nodes: Vec<String>,
    followed: Vec<Followed>,
    targets: Vec<Target>,
}

pub struct GatheredView {
    /// The address under which the cluster API is reached.
    pub base_url: Seq<char>,
    /// The domain suffix of fully-qualified names.
    pub domain: Seq<char>,
    /// The online nodes, in listing order.
    pub nodes: Seq<Seq<char>>,
    /// The followed workloads of the listings answered so far.
    pub followed: Seq<FollowedView>,
    /// The records of the workloads whose interfaces were answered so far.
    pub targets: Seq<TargetView>,
}

impl View for Gathered {
    type V = GatheredView;

    closed spec fn view(&self) -> GatheredView {
        GatheredView {
            base_url: self.base_url@,
            domain: self.domain@,
            nodes: views(self.nodes@),
            followed: views(self.followed@),
            targets: views(self.targets@),
        }
    }
}

/// The answer a run waits for.
#[derive(Debug)]
pub enum Stage {
    /// The node list.
    Nodes,
    /// The listing of one kind on the node at an index of the online nodes.
    Vms { node: usize, kind: VmType },
    /// The interfaces of the workload at an index of the followed workloads.
    Interfaces { vm: usize },
}

pub enum StageView {
    Nodes,
    Vms { node: int, kind: VmType },
    Interfaces { vm: int },
}

impl StageView {
    /// The listing a run at this stage waits for.
    pub open spec fn expect(self) -> Expect {
        match self {
            StageView::Nodes => Expect::Nodes,
            StageView::Vms { .. } => Expect::Vms,
            StageView::Interfaces { .. } => Expect::Interfaces,
        }
    }
}

impl Stage {
    /// The listing a run at this stage waits for.
    fn expect(&self) -> (out: Expect)
        ensures
            out == self@.expect(),
    {
        match self {
            Stage::Nodes => Expect::Nodes,
            Stage::Vms { .. } => Expect::Vms,
            Stage::Interfaces { .. } => Expect::Interfaces,
        }
    }
}

impl View for Stage {
    type V = StageView;

    open spec fn view(&self) -> StageView {
        match self {
            Stage::Nodes => StageView::Nodes,
            Stage::Vms { node, kind } => StageView::Vms { node: *node as int, kind: *kind },
            Stage::Interfaces { vm } => StageView::Interfaces { vm: *vm as int },
        }
    }
}

/// A run that waits for an answer.
#[derive(Debug)]
pub struct Discovery {
    so_far: Gathered,
    stage: Stage,
}

pub struct DiscoveryView {
    pub so_far: GatheredView,
    pub stage: StageView,
}

impl DiscoveryView {
    /// A waiting run waits for something that exists: a listing of a node
    /// it knows, or the interfaces of a workload it follows.
    pub open spec fn wf(self) -> bool {
        match self.stage {
            StageView::Nodes => true,
            StageView::Vms { node, kind } => 0 <= node < self.so_far.nodes.len(),
            StageView::Interfaces { vm } => 0 <= vm < self.so_far.followed.len(),
        }
    }

    /// The request whose answer the run waits for.
    pub open spec fn pending(self) -> RequestView
        recommends
            self.wf(),
    {
        match self.stage {
            StageView::Nodes => RequestView {
                expect: Expect::Nodes,
                url: nodes_path(self.so_far.base_url),
            },
            StageView::Vms { node, kind } => RequestView {
                expect: Expect::Vms,
                url: vm_path(self.so_far.base_url, self.so_far.nodes[node], kind),
            },
            StageView::Interfaces { vm } => RequestView {
                expect: Expect::Interfaces,
                url: interfaces_path(
                    self.so_far.base_url,
                    self.so_far.followed[vm].node,
                    self.so_far.followed[vm].kind,
                    self.so_far.followed[vm].vm.vm_id,
                ),
            },
        }
    }
}

impl View for Discovery {
    type V = DiscoveryView;

    closed spec fn view(&self) -> DiscoveryView {
        DiscoveryView { so_far: self.so_far@, stage: self.stage@ }
    }
}

/// Where a run stands after an answer.
#[derive(Debug)]
pub enum Step {
    /// The run goes on: perform the request and come back with its answer.
    Ask(Discovery, Request),
    /// The run is complete, with these records.
    Done(Vec<Target>),
    /// The run failed. There are no records.
    Failed(Failure),
}

pub enum StepView {
    Ask(DiscoveryView, RequestView),
    Done(Seq<TargetView>),
    Failed(Failure),
}

impl View for Step {
    type V = StepView;

    open spec fn view(&self) -> StepView {
        match self {
            Step::Ask(run, request) => StepView::Ask(run@, request@),
            Step::Done(targets) => StepView::Done(views(targets@)),
            Step::Failed(failure) => StepView::Failed(*failure),
        }
    }
}

/// A run that has gathered nothing yet and waits for the node list.
pub open spec fn fresh(base_url: Seq<char>, domain: Seq<char>) -> DiscoveryView {
    DiscoveryView {
        so_far: GatheredView {
            base_url,
            domain,
            nodes: Seq::empty(),
            followed: Seq::empty(),
            targets: Seq::empty(),
        },
        stage: StageView::Nodes,
    }
}

/// Where a fresh run stands: it asks for the node list.
pub open spec fn begin(base_url: Seq<char>, domain: Seq<char>) -> StepView {
    StepView::Ask(fresh(base_url, domain), fresh(base_url, domain).pending())
}

/// The run waits at a stage, and asks for what that stage waits for.
pub open spec fn ask(so_far: GatheredView, stage: StageView) -> StepView {
    let run = DiscoveryView { so_far, stage };
    StepView::Ask(run, run.pending())
}

/// Goes on to the interfaces of the workload at index `vm`, or completes
/// the run when every followed workload has been resolved.
pub open spec fn resolve_from(so_far: GatheredView, vm: int) -> StepView {
    if vm < so_far.followed.len() {
        ask(so_far, StageView::Interfaces { vm })
    } else {
        StepView::Done(so_far.targets)
    }
}

/// Goes on to the listing of `kind` on the node at index `node`, or to
/// the interfaces of the first followed workload when every node has
/// been listed.
pub open spec fn list_from(so_far: GatheredView, node: int, kind: VmType) -> StepView {
    if node < so_far.nodes.len() {
        ask(so_far, StageView::Vms { node, kind })
    } else {
        resolve_from(so_far, 0)
    }
}

/// The followed workloads of one listing, each with the node and the
/// kind of the listing.
pub open spec fn followed_of(node: Seq<char>, kind: VmType, listing: Seq<VmView>) -> Seq<
    FollowedView,
> {
    selected_vms(listing).map_values(|vm: VmView| FollowedView { node, kind, vm })
}

/// The node list was answered: the run keeps the online nodes and goes
/// on to the containers of the first.
pub open spec fn after_nodes(so_far: GatheredView, data: NodeDataView) -> StepView {
    list_from(GatheredView { nodes: online_names(data.data), ..so_far }, 0, VmType::LXC)
}

/// A listing was answered: the run keeps its followed workloads and goes
/// on to the virtual machines of the same node after its containers, and
/// to the containers of the next node after its virtual machines.
pub open spec fn after_vms(
    so_far: GatheredView,
    node: int,
    kind: VmType,
    data: VmDataView,
) -> StepView {
    let more = followed_of(so_far.nodes[node], kind, data.data);
    let so_far = GatheredView { followed: so_far.followed + more, ..so_far };
    match kind {
        VmType::LXC => list_from(so_far, node, VmType::QEMU),
        VmType::QEMU => list_from(so_far, node + 1, VmType::LXC),
    }
}

/// A workload's interfaces were answered: the run keeps one record for
/// each eligible address and goes on to the next followed workload.
pub open spec fn after_interfaces(
    so_far: GatheredView,
    vm: int,
    data: NetworkInterfaceDataView,
) -> StepView {
    let more = vm_targets(so_far.followed[vm].vm, so_far.domain, eligible(data.data.result));
    resolve_from(GatheredView { targets: so_far.targets + more, ..so_far }, vm + 1)
}

/// The run fails at a stage.
pub open spec fn fail(stage: StageView, cause: Cause) -> StepView {
    StepView::Failed(Failure { stage: stage.expect(), cause })
}

/// Where a waiting run stands after an event. A failed request fails the
/// run with the cause the event names. A listing other than the one the
/// run waits for is an answer of the wrong shape, and fails the run as a
/// decode error.
pub open spec fn next(run: DiscoveryView, event: EventView) -> StepView
    recommends
        run.wf(),
{
    match (run.stage, event) {
        (StageView::Nodes, EventView::Nodes(data)) => after_nodes(run.so_far, data),
        (StageView::Vms { node, kind }, EventView::Vms(data)) => after_vms(
            run.so_far,
            node,
            kind,
            data,
        ),
        (StageView::Interfaces { vm }, EventView::Interfaces(data)) => after_interfaces(
            run.so_far,
            vm,
            data,
        ),
        (stage, EventView::Failed(cause)) => fail(stage, cause),
        (stage, _) => fail(stage, Cause::Decode),
    }
}

/// Where a run stands after a sequence of events, given one at a time.
/// Events that come after the run has ended are not looked at.
pub open spec fn run_on(step: StepView, events: Seq<EventView>) -> StepView
    decreases events.len(),
{
    if events.len() == 0 {
        step
    } else {
        match step {
            StepView::Ask(run, _) => run_on(next(run, events.first()), events.drop_first()),
            _ => step,
        }
    }
}

/// A step that goes on holds a well-formed run and its pending request.
pub open spec fn step_wf(step: StepView) -> bool {
    match step {
        StepView::Ask(run, request) => run.wf() && request == run.pending(),
        _ => true,
    }
}

/// Whatever the answer, a well-formed run goes on well-formed, and asks
/// for exactly what it then waits for.
pub proof fn lemma_next_wf(run: DiscoveryView, event: EventView)
    requires
        run.wf(),
    ensures
        step_wf(next(run, event)),
{
}

/// A failed request fails the run at every stage, with the stage the run
/// was in and the cause of the failure.
pub proof fn lemma_failure_ends_run(run: DiscoveryView, cause: Cause)
    ensures
        next(run, EventView::Failed(cause)) == StepView::Failed(
            Failure { stage: run.stage.expect(), cause },
        ),
        run.wf() ==> run.pending().expect == run.stage.expect(),
{
}

/// Only the listing that was asked for takes a run further: an answer of
/// any other shape fails it.
pub proof fn lemma_only_the_expected_listing_goes_on(run: DiscoveryView, event: EventView)
    requires
        !(next(run, event) is Failed),
    ensures
        run.stage is Nodes <==> event is Nodes,
        run.stage is Vms <==> event is Vms,
        run.stage is Interfaces <==> event is Interfaces,
{
}

/// A run that has ended stays as it is, whatever events follow.
pub proof fn lemma_ended_run_stays(step: StepView, events: Seq<EventView>)
    requires
        !(step is Ask),
    ensures
        run_on(step, events) == step,
{
}

/// Giving events in two batches is the same as giving them in one.
pub proof fn lemma_run_on_concat(step: StepView, first: Seq<EventView>, second: Seq<EventView>)
    ensures
        run_on(step, first + second) == run_on(run_on(step, first), second),
    decreases first.len(),
{
    if first.len() == 0 {
        assert(first + second =~= second);
    } else {
        assert((first + second).first() == first.first());
        assert((first + second).drop_first() =~= first.drop_first() + second);
        match step {
            StepView::Ask(run, _) => {
                lemma_run_on_concat(next(run, first.first()), first.drop_first(), second);
            },
            _ => {
                lemma_ended_run_stays(step, second);
            },
        }
    }
}

impl Discovery {
    #[verifier::type_invariant]
    spec fn inv(self) -> bool {
        self@.wf()
    }

    /// Begins a run against the cluster at `base_url`, with `domain` as
    /// the suffix of fully-qualified names. The step returned asks for
    /// the node list.
    pub fn start(base_url: &str, domain: &str) -> (step: Step)
        ensures
            step@ == begin(base_url@, domain@),
            step_wf(step@),
    {
        let request = Request { expect: Expect::Nodes, url: nodes_url(base_url) };
        let so_far = Gathered {
            base_url: String::from_str(base_url),
            domain: String::from_str(domain),
            nodes: Vec::new(),
            followed: Vec::new(),
            targets: Vec::new(),
        };
        proof {
            assert(so_far@.nodes =~= Seq::<Seq<char>>::empty());
            assert(so_far@.followed =~= Seq::<FollowedView>::empty());
            assert(so_far@.targets =~= Seq::<TargetView>::empty());
        }
        Step::Ask(Discovery { so_far, stage: Stage::Nodes }, request)
    }

    /// Takes the answer to the pending request and says how the run goes
    /// on.
    pub fn advance(self, event: &Event) -> (step: Step)
        ensures
            step@ == next(self@, event@),
            step_wf(step@),
    {
        proof {
            use_type_invariant(&self);
        }
        let Discovery { so_far, stage } = self;
        let failed = Failure {
            stage: stage.expect(),
            cause: match event {
                Event::Failed(cause) => *cause,
                _ => Cause::Decode,
            },
        };
        match stage {
            Stage::Nodes => match event {
                Event::Nodes(data) => {
                    let Gathered { base_url, domain, nodes: _, followed, targets } = so_far;
                    let nodes = get_nodes(data);
                    let so_far = Gathered { base_url, domain, nodes, followed, targets };
                    list_from_exec(so_far, 0, VmType::LXC)
                },
                _ => Step::Failed(failed),
            },
            Stage::Vms { node, kind } => match event {
                Event::Vms(data) => {
                    let Gathered { base_url, domain, nodes, mut followed, targets } = so_far;
                    assert(node < nodes.len()) by {
                        assert(views(nodes@).len() == nodes.len());
                    }
                    let mut more = follow(nodes[node].as_str(), kind, data);
                    proof {
                        assert(views(followed@ + more@) =~= views(followed@) + views(more@));
                    }
                    followed.append(&mut more);
                    let so_far = Gathered { base_url, domain, nodes, followed, targets };
                    match kind {
                        VmType::LXC => list_from_exec(so_far, node, VmType::QEMU),
                        VmType::QEMU => list_from_exec(so_far, node + 1, VmType::LXC),
                    }
                },
                _ => Step::Failed(failed),
            },
            Stage::Interfaces { vm } => match event {
                Event::Interfaces(data) => {
                    let Gathered { base_url, domain, nodes, followed, mut targets } = so_far;
                    assert(vm < followed.len()) by {
                        assert(views(followed@).len() == followed.len());
                    }
                    let addresses = eligible_addresses(&data.data.result);
                    let mut more = build_vm_targets(&followed[vm].vm, domain.as_str(), &addresses);
                    proof {
                        assert(views(targets@ + more@) =~= views(targets@) + views(more@));
                    }
                    targets.append(&mut more);
                    let so_far = Gathered { base_url, domain, nodes, followed, targets };
                    resolve_from_exec(so_far, vm + 1)
                },
                _ => Step::Failed(failed),
            },
        }
    }
}

/// The followed workloads of one listing, each with the node and the
/// kind of the listing.
fn follow(node: &str, kind: VmType, data: &VmData) -> (out: Vec<Followed>)
    ensures
        views(out@) == followed_of(node@, kind, data@.data),
{
    let vms = get_vm(data);
    let ghost kept = vms@;
    let mut out: Vec<Followed> = Vec::new();
    for vm in it: vms
        invariant
            it.seq() == kept,
            out.len() == it.index(),
            forall|k: int|
                0 <= k < it.index() ==> (#[trigger] out@[k])@ == (FollowedView {
                    node: node@,
                    kind,
                    vm: kept[k]@,
                }),
    {
        out.push(Followed { node: String::from_str(node), kind, vm });
    }
    proof {
        assert(views(out@) =~= followed_of(node@, kind, data@.data));
    }
    out
}

/// Goes on to the interfaces of the workload at index `vm`, or completes
/// the run.
fn resolve_from_exec(so_far: Gathered, vm: usize) -> (step: Step)
    ensures
        step@ == resolve_from(so_far@, vm as int),
{
    if vm < so_far.followed.len() {
        let at = &so_far.followed[vm];
        let url = interfaces_url(so_far.base_url.as_str(), at.node.as_str(), at.kind, &at.vm.vm_id);
        let request = Request { expect: Expect::Interfaces, url };
        Step::Ask(Discovery { so_far, stage: Stage::Interfaces { vm } }, request)
    } else {
        let Gathered { base_url: _, domain: _, nodes: _, followed: _, targets } = so_far;
        Step::Done(targets)
    }
}

/// Goes on to the listing of `kind` on the node at index `node`, or to
/// the interfaces of the first followed workload.
fn list_from_exec(so_far: Gathered, node: usize, kind: VmType) -> (step: Step)
    ensures
        step@ == list_from(so_far@, node as int, kind),
{
    if node < so_far.nodes.len() {
        let url = vm_url(so_far.base_url.as_str(), so_far.nodes[node].as_str(), kind);
        let request = Request { expect: Expect::Vms, url };
        Step::Ask(Discovery { so_far, stage: Stage::Vms { node, kind } }, request)
    } else {
        resolve_from_exec(so_far, 0)
    }
}

/// Runs a discovery from its start over recorded answers, given in the
/// order in which the run asks for them. The outcome is a function of
/// the configuration and the answers alone: the same answers always give
/// the same step, be it the records, a failure, or the request that the
/// run would perform next if the answers end before the run does.
pub fn replay(base_url: &str, domain: &str, events: &Vec<Event>) -> (step: Step)
    ensures
        step@ == run_on(begin(base_url@, domain@), views(events@)),
        step_wf(step@),
{
    let ghost all = views(events@);
    let mut step = Discovery::start(base_url, domain);
    let mut i: usize = 0;
    proof {
        assert(all.skip(0) =~= all);
    }
    while i < events.len()
        invariant
            i <= events.len(),
            all == views(events@),
            run_on(step@, all.skip(i as int)) == run_on(begin(base_url@, domain@), all),
            step_wf(step@),
        decreases events.len() - i,
    {
        proof {
            assert(all.skip(i as int).first() == events@[i as int]@);
            assert(all.skip(i as int).drop_first() =~= all.skip(i + 1));
        }
        match step {
            Step::Ask(run, _) => {
                step = run.advance(&events[i]);
            },
            ended => {
                proof {
                    lemma_ended_run_stays(ended@, all.skip(i as int));
                    lemma_ended_run_stays(ended@, all.skip(i + 1));
                }
                step = ended;
            },
        }
        i += 1;
    }
    step
}

} // verus!
