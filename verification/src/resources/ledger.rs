//! The engine beside a provider that grants only the memory it has: what is
//! reserved never exceeds what the nodes had when the attempt began.

use vstd::prelude::*;
use crate::resources::engine::follows;
use crate::resources::engine::reserving;
use crate::resources::engine::Attempt;
use crate::resources::engine::Command;
use crate::resources::engine::Reply;
use crate::resources::engine::Step;
use crate::resources::huge_pages;
use crate::resources::laws::lemma_success_bundles_every_request;

verus! {

/// The memory, in MiB, that the reservations hold on `node`.
pub open spec fn mib_on(held: Seq<huge_pages::Allocation>, node: usize) -> nat
    decreases held.len(),
{
    if held.len() == 0 {
        0
    } else {
        mib_on(held.drop_last(), node) + (if held.last().numa_node == node {
            held.last().memory_mib as nat
        } else {
            0
        })
    }
}

/// The memory that carrying out `step` takes from `node` when the provider
/// answers `reply`.
pub open spec fn granted(step: &Step, reply: &Reply, node: usize) -> nat {
    match step.command {
        Command::ReserveHugePages { numa_node, memory_mib } => if numa_node == node
            && reply is Done {
            memory_mib as nat
        } else {
            0
        },
        _ => 0,
    }
}

/// The provider's part in carrying out `step`, with `free` MiB on each
/// node before and `left` after: it takes back what the step releases, and
/// it confirms a reservation of huge pages only where the node has them.
pub open spec fn honest(
    free: spec_fn(usize) -> nat,
    step: &Step,
    reply: &Reply,
    left: spec_fn(usize) -> nat,
) -> bool {
    forall|node: usize|
        {
            &&& free(node) + mib_on(step.release@, node) >= granted(step, reply, node)
            &&& #[trigger] left(node) == free(node) + mib_on(step.release@, node) - granted(
                step,
                reply,
                node,
            )
        }
}

/// Between two steps: `step` is what the attempt asked for last and has not
/// been carried out. On every node, what is free, what the attempt holds
/// and what the step hands back make up what the node had at the start.
pub open spec fn balanced(
    attempt: &Attempt,
    step: &Step,
    free: spec_fn(usize) -> nat,
    capacity: spec_fn(usize) -> nat,
) -> bool {
    &&& attempt.phase is HugePages ==> reserving(attempt, &step.command)
    &&& !(attempt.phase is HugePages) ==> !(step.command is ReserveHugePages)
    &&& forall|node: usize|
        #[trigger] capacity(node) == free(node) + mib_on(attempt.held@, node) + mib_on(
            step.release@,
            node,
        )
}

/// An attempt that has just begun is in balance with what the nodes have.
pub proof fn lemma_start_is_balanced(attempt: Attempt, step: Step, free: spec_fn(usize) -> nat)
    requires
        attempt.untouched(),
        !(attempt.phase is HugePages),
        step.release@.len() == 0,
        !(step.command is ReserveHugePages),
    ensures
        balanced(&attempt, &step, free, free),
{
}

/// Carrying out a step with a provider that grants only what it has, and
/// taking the engine's next step on its reply, keeps the balance.
pub proof fn lemma_step_keeps_balance(
    pre: Attempt,
    pending: Step,
    free: spec_fn(usize) -> nat,
    capacity: spec_fn(usize) -> nat,
    reply: Reply,
    left: spec_fn(usize) -> nat,
    post: Attempt,
    next: Step,
)
    requires
        pre.wf(),
        pre.expects(&reply),
        balanced(&pre, &pending, free, capacity),
        honest(free, &pending, &reply, left),
        follows(&pre, &reply, &post, &next),
    ensures
        balanced(&post, &next, left, capacity),
{
    assert forall|node: usize|
        #[trigger] capacity(node) == left(node) + mib_on(post.held@, node) + mib_on(
            next.release@,
            node,
        ) by {
        assert(capacity(node) == free(node) + mib_on(pre.held@, node) + mib_on(
            pending.release@,
            node,
        ));
        assert(left(node) == free(node) + mib_on(pending.release@, node) - granted(
            &pending,
            &reply,
            node,
        ));
        if pre.phase is HugePages && reply is Done {
            assert(post.held@.drop_last() =~= pre.held@);
        } else {
            assert(granted(&pending, &reply, node) == 0);
        }
    }
}

/// With a provider that grants only what it has, the memory that a
/// successful attempt holds on a node is within what the node had when the
/// attempt began.
pub proof fn lemma_no_over_reservation(
    pre: Attempt,
    pending: Step,
    free: spec_fn(usize) -> nat,
    capacity: spec_fn(usize) -> nat,
    reply: Reply,
    left: spec_fn(usize) -> nat,
    post: Attempt,
    next: Step,
    node: usize,
)
    requires
        pre.wf(),
        pre.expects(&reply),
        !(pre.strategy is Reset),
        balanced(&pre, &pending, free, capacity),
        honest(free, &pending, &reply, left),
        follows(&pre, &reply, &post, &next),
        next.succeeded(),
    ensures
        next.command matches Command::Finish { result: Ok(allocation) } && mib_on(
            allocation.huge_pages_allocation@,
            node,
        ) <= capacity(node),
{
    lemma_step_keeps_balance(pre, pending, free, capacity, reply, left, post, next);
    assert(capacity(node) == left(node) + mib_on(post.held@, node) + mib_on(
        next.release@,
        node,
    ));
}

/// A run of an attempt from its start: before reply `i` the attempt is
/// `attempts[i]`, the step to carry out is `steps[i]` and the nodes have
/// `free[i]`; the provider is honest throughout, and each reply is
/// answered by the engine's next step.
pub open spec fn runs(
    attempts: Seq<Attempt>,
    steps: Seq<Step>,
    replies: Seq<Reply>,
    free: Seq<spec_fn(usize) -> nat>,
) -> bool {
    &&& attempts.len() == replies.len() + 1
    &&& steps.len() == attempts.len()
    &&& free.len() == attempts.len()
    &&& attempts[0].wf()
    &&& attempts[0].untouched()
    &&& !(attempts[0].phase is HugePages)
    &&& steps[0].release@.len() == 0
    &&& !(steps[0].command is ReserveHugePages)
    &&& forall|i: int|
        0 <= i < replies.len() ==> {
            &&& attempts[i].expects(&#[trigger] replies[i])
            &&& honest(free[i], &steps[i], &replies[i], free[i + 1])
            &&& follows(&attempts[i], &replies[i], &attempts[i + 1], &steps[i + 1])
            &&& attempts[i + 1].wf()
        }
}

/// At every point of a run the attempt is in balance with what the nodes
/// had at the start, and it runs the strategy that it began with.
pub proof fn lemma_run_stays_balanced(
    attempts: Seq<Attempt>,
    steps: Seq<Step>,
    replies: Seq<Reply>,
    free: Seq<spec_fn(usize) -> nat>,
    at: int,
)
    requires
        runs(attempts, steps, replies, free),
        0 <= at < attempts.len(),
    ensures
        attempts[at].wf(),
        attempts[at].strategy == attempts[0].strategy,
        attempts[at].memory@ == attempts[0].memory@,
        balanced(&attempts[at], &steps[at], free[at], free[0]),
    decreases at,
{
    if at == 0 {
        lemma_start_is_balanced(attempts[0], steps[0], free[0]);
    } else {
        lemma_run_stays_balanced(attempts, steps, replies, free, at - 1);
        let before = replies[at - 1];
        assert(attempts[at - 1].expects(&before));
        lemma_step_keeps_balance(
            attempts[at - 1],
            steps[at - 1],
            free[at - 1],
            free[0],
            before,
            free[at],
            attempts[at],
            steps[at],
        );
    }
}

/// Reservations that all lie on one node hold nothing on another.
pub proof fn lemma_nothing_on_another_node(
    held: Seq<huge_pages::Allocation>,
    home: usize,
    node: usize,
)
    requires
        forall|i: int| 0 <= i < held.len() ==> (#[trigger] held[i]).numa_node == home,
        node != home,
    ensures
        mib_on(held, node) == 0,
    decreases held.len(),
{
    if held.len() > 0 {
        let rest = held.drop_last();
        assert forall|i: int| 0 <= i < rest.len() implies (#[trigger] rest[i]).numa_node
            == home by {
            assert(rest[i] == held[i]);
        }
        lemma_nothing_on_another_node(rest, home, node);
        assert(held.last() == held[held.len() - 1]);
    }
}

/// Whatever the replies of a provider that grants only what it has, an
/// allocation that an attempt ends with holds one reservation for each
/// request, in request order and of the request's size, all on the
/// allocation's node; it holds nothing on any other node, and on no node
/// more memory than the node had free when the attempt began.
pub proof fn lemma_no_run_over_reserves(
    attempts: Seq<Attempt>,
    steps: Seq<Step>,
    replies: Seq<Reply>,
    free: Seq<spec_fn(usize) -> nat>,
    node: usize,
)
    requires
        runs(attempts, steps, replies, free),
        replies.len() > 0,
        !(attempts[0].strategy is Reset),
        steps.last().succeeded(),
    ensures
        steps.last().command matches Command::Finish { result: Ok(allocation) } && {
            &&& allocation.huge_pages_allocation@.len() == attempts[0].memory@.len()
            &&& forall|i: int|
                0 <= i < attempts[0].memory@.len() ==> #[trigger] allocation.huge_pages_allocation@[i]
                    == (huge_pages::Allocation {
                    numa_node: allocation.numa_node,
                    memory_mib: attempts[0].memory@[i],
                })
            &&& node != allocation.numa_node ==> mib_on(allocation.huge_pages_allocation@, node)
                == 0
            &&& mib_on(allocation.huge_pages_allocation@, node) <= (free[0])(node)
        },
{
    let n = replies.len() as int;
    lemma_run_stays_balanced(attempts, steps, replies, free, n - 1);
    let before = replies[n - 1];
    assert(attempts[n - 1].expects(&before));
    lemma_no_over_reservation(
        attempts[n - 1],
        steps[n - 1],
        free[n - 1],
        free[0],
        before,
        free[n],
        attempts[n],
        steps[n],
        node,
    );
    lemma_success_bundles_every_request(attempts[n - 1], before, attempts[n], steps[n]);
    if let Command::Finish { result: Ok(allocation) } = steps[n].command {
        if node != allocation.numa_node {
            lemma_nothing_on_another_node(
                allocation.huge_pages_allocation@,
                allocation.numa_node,
                node,
            );
        }
    }
}

} // verus!
