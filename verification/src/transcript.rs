//! What a run yields when every request is answered.
//!
//! The machine in [`crate::discovery`] is defined one answer at a time.
//! This module says what the answers add up to: the records of a
//! complete run, written as one expression over the node list, the
//! listings and the interface reports, and a proof that the machine
//! arrives at exactly that.
use crate::addresses::eligible;
use crate::discovery::after_interfaces;
use crate::discovery::after_vms;
use crate::discovery::ask;
use crate::discovery::begin;
use crate::discovery::followed_of;
use crate::discovery::fresh;
use crate::discovery::lemma_ended_run_stays;
use crate::discovery::lemma_run_on_concat;
use crate::discovery::list_from;
use crate::discovery::next;
use crate::discovery::resolve_from;
use crate::discovery::run_on;
use crate::discovery::Cause;
use crate::discovery::DiscoveryView;
use crate::discovery::EventView;
use crate::discovery::Failure;
use crate::discovery::FollowedView;
use crate::discovery::GatheredView;
use crate::discovery::StageView;
use crate::discovery::StepView;
use crate::models::NetworkInterfaceDataView;
use crate::models::NodeDataView;
use crate::models::TargetView;
use crate::models::VmDataView;
use crate::models::VmType;
use crate::proxmox::online_names;
use crate::targets::vm_targets;
use vstd::prelude::*;

verus! {

/// The answers of a cluster to one run, stage by stage.
pub struct Answers {
    /// The node list.
    pub nodes: NodeDataView,
    /// The workload listings in the order they are asked for: for each
    /// online node in turn, its containers and then its virtual machines.
    pub listings: Seq<VmDataView>,
    /// The interface reports, one for each followed workload in order.
    pub reports: Seq<NetworkInterfaceDataView>,
}

/// The kind of the listing at a position among the listings.
pub open spec fn kind_at(k: int) -> VmType {
    if k % 2 == 0 {
        VmType::LXC
    } else {
        VmType::QEMU
    }
}

/// The followed workloads of the first `k` listings.
pub open spec fn followed_before(nodes: Seq<Seq<char>>, listings: Seq<VmDataView>, k: int) -> Seq<
    FollowedView,
> {
    Seq::new(k as nat, |i: int| followed_of(nodes[i / 2], kind_at(i), listings[i].data)).flatten()
}

/// The records of the first `j` followed workloads.
pub open spec fn targets_before(
    followed: Seq<FollowedView>,
    domain: Seq<char>,
    reports: Seq<NetworkInterfaceDataView>,
    j: int,
) -> Seq<TargetView> {
    Seq::new(
        j as nat,
        |i: int| vm_targets(followed[i].vm, domain, eligible(reports[i].data.result)),
    ).flatten()
}

impl Answers {
    /// The online nodes.
    pub open spec fn nodes_online(self) -> Seq<Seq<char>> {
        online_names(self.nodes.data)
    }

    /// Every followed workload, in the order of the listings.
    pub open spec fn followed(self) -> Seq<FollowedView> {
        followed_before(self.nodes_online(), self.listings, self.listings.len() as int)
    }

    /// The records of every followed workload: for each in turn, one
    /// record for each eligible address its guest reports.
    pub open spec fn targets(self, domain: Seq<char>) -> Seq<TargetView> {
        targets_before(self.followed(), domain, self.reports, self.reports.len() as int)
    }

    /// There is a listing of each kind for every online node, and a
    /// report for every followed workload.
    pub open spec fn complete(self) -> bool {
        &&& self.listings.len() == 2 * self.nodes_online().len()
        &&& self.reports.len() == self.followed().len()
    }

    /// The answers as events, in the order a run asks for them.
    pub open spec fn events(self) -> Seq<EventView> {
        seq![EventView::Nodes(self.nodes)] + self.listing_events() + self.report_events()
    }

    pub open spec fn listing_events(self) -> Seq<EventView> {
        self.listings.map_values(|data: VmDataView| EventView::Vms(data))
    }

    pub open spec fn report_events(self) -> Seq<EventView> {
        self.reports.map_values(|data: NetworkInterfaceDataView| EventView::Interfaces(data))
    }

    /// What a run has gathered when `k` listings are answered.
    pub open spec fn listed(self, base_url: Seq<char>, domain: Seq<char>, k: int) -> GatheredView {
        GatheredView {
            base_url,
            domain,
            nodes: self.nodes_online(),
            followed: followed_before(self.nodes_online(), self.listings, k),
            targets: Seq::empty(),
        }
    }

    /// What a run has gathered when every listing and `j` reports are
    /// answered.
    pub open spec fn resolved(
        self,
        base_url: Seq<char>,
        domain: Seq<char>,
        j: int,
    ) -> GatheredView {
        GatheredView {
            base_url,
            domain,
            nodes: self.nodes_online(),
            followed: self.followed(),
            targets: targets_before(self.followed(), domain, self.reports, j),
        }
    }
}

/// The first listings with one more are the first listings and the
/// followed workloads of that one.
proof fn lemma_followed_before_succ(nodes: Seq<Seq<char>>, listings: Seq<VmDataView>, k: int)
    requires
        0 <= k,
    ensures
        followed_before(nodes, listings, k + 1) == followed_before(nodes, listings, k)
            + followed_of(nodes[k / 2], kind_at(k), listings[k].data),
        followed_before(nodes, listings, 0) == Seq::<FollowedView>::empty(),
{
    let f = |i: int| followed_of(nodes[i / 2], kind_at(i), listings[i].data);
    let shorter = Seq::new(k as nat, f);
    assert(Seq::new((k + 1) as nat, f) =~= shorter.push(f(k)));
    shorter.lemma_flatten_push(f(k));
    assert(Seq::new(0, f) =~= Seq::<Seq<FollowedView>>::empty());
}

/// The first workloads with one more have the records of the first and
/// the records of that one.
proof fn lemma_targets_before_succ(
    followed: Seq<FollowedView>,
    domain: Seq<char>,
    reports: Seq<NetworkInterfaceDataView>,
    j: int,
)
    requires
        0 <= j,
    ensures
        targets_before(followed, domain, reports, j + 1) == targets_before(
            followed,
            domain,
            reports,
            j,
        ) + vm_targets(followed[j].vm, domain, eligible(reports[j].data.result)),
        targets_before(followed, domain, reports, 0) == Seq::<TargetView>::empty(),
{
    let f = |i: int| vm_targets(followed[i].vm, domain, eligible(reports[i].data.result));
    let shorter = Seq::new(j as nat, f);
    assert(Seq::new((j + 1) as nat, f) =~= shorter.push(f(j)));
    shorter.lemma_flatten_push(f(j));
    assert(Seq::new(0, f) =~= Seq::<Seq<TargetView>>::empty());
}

/// Once `k` listings are answered, the listings that remain take the run
/// to the point where it turns to the first followed workload.
proof fn lemma_listings_run(answers: Answers, base_url: Seq<char>, domain: Seq<char>, k: int)
    requires
        answers.listings.len() == 2 * answers.nodes_online().len(),
        0 <= k <= answers.listings.len(),
    ensures
        run_on(
            list_from(answers.listed(base_url, domain, k), k / 2, kind_at(k)),
            answers.listing_events().skip(k),
        ) == resolve_from(answers.listed(base_url, domain, answers.listings.len() as int), 0),
    decreases answers.listings.len() - k,
{
    let so_far = answers.listed(base_url, domain, k);
    let events = answers.listing_events().skip(k);
    let here = list_from(so_far, k / 2, kind_at(k));
    if k == answers.listings.len() {
        assert(events.len() == 0);
    } else {
        let stage = StageView::Vms { node: k / 2, kind: kind_at(k) };
        let run = DiscoveryView { so_far, stage };
        assert(here == ask(so_far, stage));
        assert(events.first() == EventView::Vms(answers.listings[k]));
        assert(events.drop_first() =~= answers.listing_events().skip(k + 1));
        lemma_followed_before_succ(answers.nodes_online(), answers.listings, k);
        let after = after_vms(so_far, k / 2, kind_at(k), answers.listings[k]);
        assert(next(run, events.first()) == after);
        assert(after == list_from(
            answers.listed(base_url, domain, k + 1),
            (k + 1) / 2,
            kind_at(k + 1),
        ));
        lemma_listings_run(answers, base_url, domain, k + 1);
    }
}

/// Once every listing and `j` reports are answered, the reports that
/// remain complete the run with the records of every followed workload.
proof fn lemma_reports_run(answers: Answers, base_url: Seq<char>, domain: Seq<char>, j: int)
    requires
        answers.reports.len() == answers.followed().len(),
        0 <= j <= answers.reports.len(),
    ensures
        run_on(
            resolve_from(answers.resolved(base_url, domain, j), j),
            answers.report_events().skip(j),
        ) == StepView::Done(answers.targets(domain)),
    decreases answers.reports.len() - j,
{
    let so_far = answers.resolved(base_url, domain, j);
    let events = answers.report_events().skip(j);
    if j == answers.reports.len() {
        assert(events.len() == 0);
    } else {
        let stage = StageView::Interfaces { vm: j };
        let run = DiscoveryView { so_far, stage };
        assert(resolve_from(so_far, j) == ask(so_far, stage));
        assert(events.first() == EventView::Interfaces(answers.reports[j]));
        assert(events.drop_first() =~= answers.report_events().skip(j + 1));
        lemma_targets_before_succ(answers.followed(), domain, answers.reports, j);
        let after = after_interfaces(so_far, j, answers.reports[j]);
        assert(next(run, events.first()) == after);
        assert(after == resolve_from(answers.resolved(base_url, domain, j + 1), j + 1));
        lemma_reports_run(answers, base_url, domain, j + 1);
    }
}

/// A run whose every request is answered completes, and its records are
/// those of every followed workload of every online node: the outcome is
/// a function of the answers and of nothing else.
pub proof fn theorem_complete_run(answers: Answers, base_url: Seq<char>, domain: Seq<char>)
    requires
        answers.complete(),
    ensures
        run_on(begin(base_url, domain), answers.events()) == StepView::Done(answers.targets(domain)),
{
    let first = seq![EventView::Nodes(answers.nodes)];
    let listings = answers.listing_events();
    let reports = answers.report_events();
    let count = answers.listings.len() as int;
    // The node list takes the run to its first listing.
    let listing = list_from(answers.listed(base_url, domain, 0), 0, VmType::LXC);
    assert(run_on(begin(base_url, domain), first) == listing) by {
        lemma_followed_before_succ(answers.nodes_online(), answers.listings, 0);
        assert(first.drop_first() =~= Seq::<EventView>::empty());
        assert(next(fresh(base_url, domain), first.first()) == listing);
        reveal_with_fuel(run_on, 2);
    }
    // The listings take it to its first followed workload.
    let resolving = resolve_from(answers.resolved(base_url, domain, 0), 0);
    assert(run_on(listing, listings) == resolving) by {
        lemma_listings_run(answers, base_url, domain, 0);
        assert(listings.skip(0) =~= listings);
        lemma_targets_before_succ(answers.followed(), domain, answers.reports, 0);
        assert(answers.listed(base_url, domain, count) == answers.resolved(base_url, domain, 0));
    }
    // The reports complete it.
    assert(run_on(resolving, reports) == StepView::Done(answers.targets(domain))) by {
        lemma_reports_run(answers, base_url, domain, 0);
        assert(reports.skip(0) =~= reports);
    }
    lemma_run_on_concat(begin(base_url, domain), first + listings, reports);
    lemma_run_on_concat(begin(base_url, domain), first, listings);
}

/// A request that fails while a run is going fails the run, whatever was
/// answered before and whatever would have been answered after: no
/// records come of it, and the failure names the request that failed.
pub proof fn theorem_failure_is_final(
    base_url: Seq<char>,
    domain: Seq<char>,
    before: Seq<EventView>,
    cause: Cause,
    after: Seq<EventView>,
)
    requires
        run_on(begin(base_url, domain), before) is Ask,
    ensures
        run_on(begin(base_url, domain), before + seq![EventView::Failed(cause)] + after)
            == StepView::Failed(
            Failure { stage: run_on(begin(base_url, domain), before)->Ask_0.stage.expect(), cause },
        ),
{
    let failed = seq![EventView::Failed(cause)];
    let start = begin(base_url, domain);
    let reached = run_on(start, before);
    let ended = StepView::Failed(Failure { stage: reached->Ask_0.stage.expect(), cause });
    lemma_run_on_concat(start, before + failed, after);
    lemma_run_on_concat(start, before, failed);
    assert(run_on(reached, failed) == ended) by {
        assert(failed.drop_first() =~= Seq::<EventView>::empty());
        reveal_with_fuel(run_on, 2);
    }
    lemma_ended_run_stays(ended, after);
}

} // verus!
