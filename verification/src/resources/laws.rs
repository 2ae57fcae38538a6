//! What the protocol guarantees, proved from the transition relation.

use vstd::prelude::*;
use crate::configuration::ResourcePool;
use crate::resources::cpu_demand;
use crate::resources::cpu_list::named_together;
use crate::resources::engine::eligible;
use crate::resources::engine::follows;
use crate::resources::engine::Attempt;
use crate::resources::engine::Command;
use crate::resources::engine::Reply;
use crate::resources::engine::Step;
use crate::resources::huge_pages;
use crate::resources::Error;
use crate::resources::UNCONSTRAINED;

verus! {

/// A step that ends an attempt in failure hands back every huge-page
/// reservation that is held: none is held afterwards, and as many have been
/// released as the provider ever confirmed.
pub proof fn lemma_failure_releases_everything(
    pre: Attempt,
    reply: Reply,
    post: Attempt,
    step: Step,
)
    requires
        pre.wf(),
        pre.expects(&reply),
        follows(&pre, &reply, &post, &step),
        step.failed(),
    ensures
        step.release@ == pre.held@,
        post.held@.len() == 0,
        post.created@ == post.released@,
{
    assert(step.release@ =~= pre.held@);
}

/// A step that ends an attempt in success releases nothing, and the
/// allocation holds one huge-page reservation for each request, in request
/// order, all on the allocation's node, each confirmed by the provider.
pub proof fn lemma_success_bundles_every_request(
    pre: Attempt,
    reply: Reply,
    post: Attempt,
    step: Step,
)
    requires
        pre.wf(),
        pre.expects(&reply),
        follows(&pre, &reply, &post, &step),
        step.succeeded(),
        !(pre.strategy is Reset),
    ensures
        step.release@.len() == 0,
        step.command matches Command::Finish { result: Ok(allocation) } && {
            &&& allocation.huge_pages_allocation@.len() == pre.memory@.len()
            &&& forall|i: int|
                0 <= i < pre.memory@.len() ==> #[trigger] allocation.huge_pages_allocation@[i]
                    == (huge_pages::Allocation {
                    numa_node: allocation.numa_node,
                    memory_mib: pre.memory@[i],
                })
            &&& post.created@ - post.released@ == pre.memory@.len()
        },
{
}

/// Requests that give no core count, or only counts of zero, demand no
/// core.
pub proof fn lemma_zero_counts_demand_nothing(pool: Seq<ResourcePool>)
    requires
        forall|i: int|
            0 <= i < pool.len() ==> (#[trigger] pool[i]).cpu_count.is_none() || pool[i].cpu_count
                == Some(0usize),
    ensures
        cpu_demand(pool) == 0,
    decreases pool.len(),
{
    if pool.len() > 0 {
        let rest = pool.drop_last();
        assert forall|i: int| 0 <= i < rest.len() implies (#[trigger] rest[i]).cpu_count.is_none()
            || rest[i].cpu_count == Some(0usize) by {
            assert(rest[i] == pool[i]);
        }
        lemma_zero_counts_demand_nothing(rest);
        assert(pool.last() == pool[pool.len() - 1]);
    }
}

/// An attempt that is over takes no further reply, so nothing more is
/// asked of the provider.
pub proof fn lemma_finished_is_final(attempt: Attempt, reply: Reply)
    requires
        attempt.phase is Finished,
    ensures
        !attempt.expects(&reply),
{
}

/// When a pinned request's cores turn out to lie on another node than the
/// requests before it, the attempt ends with `NumaDifference`, and no
/// reservation has been asked for.
pub proof fn lemma_cross_numa_reserves_nothing(
    pre: Attempt,
    numa_node: usize,
    post: Attempt,
    step: Step,
)
    requires
        pre.wf(),
        pre.strategy is Pinned,
        pre.phase is NumaNode,
        pre.numa_node != UNCONSTRAINED,
        pre.numa_node != numa_node,
        follows(&pre, &(Reply::NumaNode { numa_node }), &post, &step),
    ensures
        step.command == (Command::Finish { result: Err(Error::NumaDifference) }),
        step.release@.len() == 0,
        post.asked@ == 0,
        post.created@ == 0,
{
}

/// The first candidate tried is the first one offered that the restriction
/// admits.
pub proof fn lemma_first_trial_is_first_eligible(
    pre: Attempt,
    reply: Reply,
    post: Attempt,
    step: Step,
)
    requires
        pre.wf(),
        pre.phase is Candidates,
        reply is CpuSets,
        follows(&pre, &reply, &post, &step),
        !step.failed(),
    ensures
        post.candidates@ == reply->candidates@,
        post.current < post.candidates@.len(),
        eligible(post.candidates@[post.current as int], post.target_numa),
        forall|k: int|
            0 <= k < post.current ==> !eligible(#[trigger] post.candidates@[k], post.target_numa),
        step.command == (Command::ReserveHugePages {
            numa_node: post.candidates@[post.current as int].numa_node,
            memory_mib: pre.memory@[0],
        }),
{
}

/// When a node is short of memory the search moves on to the next candidate
/// offered that the restriction admits, and passes over none that it
/// admits: the candidates are tried in the order offered. Where the
/// provider offers them by ascending node, the nodes tried ascend.
pub proof fn lemma_candidates_tried_in_order(pre: Attempt, post: Attempt, step: Step)
    requires
        pre.wf(),
        pre.searches(),
        pre.phase is HugePages,
        follows(
            &pre,
            &(Reply::HugePagesFailed { error: huge_pages::Error::InsufficientMemory }),
            &post,
            &step,
        ),
        !step.failed(),
    ensures
        post.candidates@ == pre.candidates@,
        pre.current < post.current < post.candidates@.len(),
        eligible(post.candidates@[post.current as int], post.target_numa),
        forall|k: int|
            pre.current < k < post.current ==> !eligible(
                #[trigger] post.candidates@[k],
                post.target_numa,
            ),
        (forall|i: int, j: int|
            0 <= i < j < pre.candidates@.len() ==> (#[trigger] pre.candidates@[i]).numa_node < (
            #[trigger] pre.candidates@[j]).numa_node) ==> pre.numa_node < post.numa_node,
{
}

/// An attempt succeeds on a candidate only after the provider has reported
/// every candidate offered before it that the restriction admits short of
/// memory. So of two nodes that can both serve, the one offered first is
/// chosen: the lower, where the provider offers them by ascending node.
pub proof fn lemma_success_passes_over_no_candidate(pre: Attempt, post: Attempt, step: Step)
    requires
        pre.wf(),
        pre.searches(),
        pre.phase is Cpus,
        follows(&pre, &Reply::Done, &post, &step),
    ensures
        step.succeeded(),
        step.command matches Command::Finish { result: Ok(allocation) } && {
            &&& allocation.numa_node == pre.candidates@[pre.current as int].numa_node
            &&& allocation.cpu_set_allocation@ == pre.candidates@[pre.current as int].cpu_set@
        },
        forall|k: int|
            0 <= k < pre.current && eligible(#[trigger] pre.candidates@[k], pre.target_numa)
                ==> pre.refused@.contains(k),
{
}

/// A candidate counts as short of memory only from the step on which the
/// provider says so of the candidate in trial.
pub proof fn lemma_refusals_come_from_the_provider(
    pre: Attempt,
    reply: Reply,
    post: Attempt,
    step: Step,
    position: int,
)
    requires
        pre.wf(),
        pre.expects(&reply),
        follows(&pre, &reply, &post, &step),
        post.refused@.contains(position),
        !pre.refused@.contains(position),
    ensures
        position == pre.current,
        pre.phase is HugePages,
        reply == (Reply::HugePagesFailed { error: huge_pages::Error::InsufficientMemory }),
{
}

/// The cores that a successful attempt for pinned requests reserves are
/// the union of the cores that the requests' CPU lists name, and its node
/// is the one that the attempt has resolved.
pub proof fn lemma_pinned_success_reserves_the_union(pre: Attempt, post: Attempt, step: Step)
    requires
        pre.wf(),
        pre.strategy is Pinned,
        pre.phase is Cpus,
        follows(&pre, &Reply::Done, &post, &step),
    ensures
        step.command matches Command::Finish { result: Ok(allocation) } && {
            &&& allocation.cpu_set_allocation.members() == named_together(pre.texts@)
            &&& allocation.numa_node == pre.numa_node
        },
{
}

/// A reset with a reserved pool whose lowest core lies on `numa_node`
/// asks for the release of every huge page of that node, then for the
/// return of the whole pool, whether the release of the pages succeeded or
/// failed.
pub proof fn lemma_reset_releases_node_and_pool(
    start: Attempt,
    numa_node: usize,
    middle: Attempt,
    first: Step,
    released: Reply,
    end: Attempt,
    second: Step,
)
    requires
        start.wf(),
        start.strategy is Reset,
        start.phase is NumaNode,
        follows(&start, &(Reply::NumaNode { numa_node }), &middle, &first),
        released is Done || released is HugePagesFailed,
        follows(&middle, &released, &end, &second),
    ensures
        first.command == (Command::ReleaseAllHugePages { numa_node }),
        second.command matches Command::DeallocateCpuSet { cpu_set } && cpu_set@ == start.cpu_set@,
        first.release@.len() == 0 && second.release@.len() == 0,
{
}

/// A reset reports how the release of the huge pages went, once the pool
/// has been returned and whatever the return of the pool reported: the
/// failure of the release, or success where there was none.
pub proof fn lemma_reset_reports_the_release(
    start: Attempt,
    numa_node: usize,
    middle: Attempt,
    first: Step,
    released: Reply,
    late: Attempt,
    second: Step,
    returned: Reply,
    end: Attempt,
    last: Step,
)
    requires
        start.wf(),
        start.strategy is Reset,
        start.phase is NumaNode,
        start.failure is None,
        follows(&start, &(Reply::NumaNode { numa_node }), &middle, &first),
        released is Done || released is HugePagesFailed,
        follows(&middle, &released, &late, &second),
        returned is Done || returned is CpuFailed,
        follows(&late, &returned, &end, &last),
    ensures
        released matches Reply::HugePagesFailed { error } ==> last.command == (Command::Finish {
            result: Err(Error::HugePage(error)),
        }),
        released is Done ==> last.succeeded(),
{
}

} // verus!
