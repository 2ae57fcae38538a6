//! The allocation engine: search over NUMA nodes, ordered reservation of
//! memory and cores, and rollback.

use vstd::prelude::*;
use crate::configuration::ResourcePool;
use crate::resources::cpu::CpuSet;
use crate::resources::cpu_list::named_cores;
use crate::resources::engine::gives_up;
use crate::resources::engine::nothing_to_do;
use crate::resources::engine::Attempt;
use crate::resources::engine::Command;
use crate::resources::engine::Phase;
use crate::resources::engine::Step;
use crate::resources::engine::Strategy;

pub mod cpu;
pub mod cpu_list;
pub mod engine;
pub mod huge_pages;
pub mod laws;
pub mod ledger;

verus! {

/// The NUMA node that stands for "no specific node".
pub const UNCONSTRAINED: usize = usize::MAX;

/// What a successful attempt has reserved, as one unit: the cores, the
/// huge pages of each request in request order, and the node they are on.
#[derive(Debug)]
pub struct Allocation {
    pub cpu_set_allocation: cpu::CpuSet,
    pub huge_pages_allocation: Vec<huge_pages::Allocation>,
    pub numa_node: usize,
}

/// Why an allocation attempt failed.
#[derive(Clone, Copy, Debug, PartialEq, Eq, Structural)]
pub enum Error {
    /// The provider failed on cores.
    Cpu(cpu::Error),
    /// The provider failed on huge pages.
    HugePage(huge_pages::Error),
    /// No NUMA node offers the cores and the memory together.
    Allocation,
    /// The pinned requests name cores of more than one NUMA node.
    NumaDifference,
}

impl Error {
    pub open spec fn spec_message(&self) -> Seq<char> {
        match *self {
            Error::Cpu(cpu::Error::InsufficientCpuPool) => "insufficient CPU pool"@,
            Error::Cpu(cpu::Error::MalformedCpuList) => "malformed CPU list"@,
            Error::Cpu(cpu::Error::UnknownCpu) => "unknown CPU"@,
            Error::Cpu(cpu::Error::Io { .. }) => "CPU provider failure"@,
            Error::HugePage(huge_pages::Error::InsufficientMemory) => "insufficient memory"@,
            Error::HugePage(huge_pages::Error::Io { .. }) => "huge page provider failure"@,
            Error::Allocation => "failed to find suitable combination of CPUs and memory"@,
            Error::NumaDifference => "Config file cannot include cpus from different numa nodes"@,
        }
    }

    /// The message shown to the operator.
    pub fn message(&self) -> (text: String)
        ensures
            text@ == self.spec_message(),
    {
        match self {
            Error::Cpu(cpu::Error::InsufficientCpuPool) => "insufficient CPU pool".to_owned(),
            Error::Cpu(cpu::Error::MalformedCpuList) => "malformed CPU list".to_owned(),
            Error::Cpu(cpu::Error::UnknownCpu) => "unknown CPU".to_owned(),
            Error::Cpu(cpu::Error::Io { .. }) => "CPU provider failure".to_owned(),
            Error::HugePage(huge_pages::Error::InsufficientMemory) => "insufficient memory".to_owned(),
            Error::HugePage(huge_pages::Error::Io { .. }) => "huge page provider failure".to_owned(),
            Error::Allocation => "failed to find suitable combination of CPUs and memory".to_owned(),
            Error::NumaDifference => "Config file cannot include cpus from different numa nodes".to_owned(),
        }
    }
}

/// The memory of each request that gives a core count, in request order.
pub open spec fn counted_memory(pool: Seq<ResourcePool>) -> Seq<usize>
    decreases pool.len(),
{
    if pool.len() == 0 {
        Seq::empty()
    } else if pool.last().cpu_count.is_some() {
        counted_memory(pool.drop_last()).push(pool.last().memory_mib)
    } else {
        counted_memory(pool.drop_last())
    }
}

/// The sum of the core counts that the requests give.
pub open spec fn cpu_demand(pool: Seq<ResourcePool>) -> nat
    decreases pool.len(),
{
    if pool.len() == 0 {
        0
    } else {
        cpu_demand(pool.drop_last()) + (match pool.last().cpu_count {
            Some(count) => count as nat,
            None => 0,
        })
    }
}

/// The memory of each request that names its cores, in request order.
pub open spec fn pinned_memory(pool: Seq<ResourcePool>) -> Seq<usize>
    decreases pool.len(),
{
    if pool.len() == 0 {
        Seq::empty()
    } else if pool.last().cpu_pool.is_some() {
        pinned_memory(pool.drop_last()).push(pool.last().memory_mib)
    } else {
        pinned_memory(pool.drop_last())
    }
}

/// The CPU list of each request that names its cores, in request order.
pub open spec fn pinned_texts(pool: Seq<ResourcePool>) -> Seq<String>
    decreases pool.len(),
{
    if pool.len() == 0 {
        Seq::empty()
    } else {
        match pool.last().cpu_pool {
            Some(text) => pinned_texts(pool.drop_last()).push(text),
            None => pinned_texts(pool.drop_last()),
        }
    }
}

/// An attempt of `strategy` over these requests that has asked for nothing.
fn fresh(strategy: Strategy, phase: Phase, target_numa: usize, memory: Vec<usize>, texts: Vec<
    String,
>, cpu_set: CpuSet) -> (attempt: Attempt)
    ensures
        attempt.strategy == strategy,
        attempt.phase == phase,
        attempt.target_numa == target_numa,
        attempt.memory == memory,
        attempt.texts == texts,
        attempt.cpu_set == cpu_set,
        attempt.parsed == 0,
        attempt.candidates@.len() == 0,
        attempt.numa_node == UNCONSTRAINED,
        attempt.untouched(),
        attempt.released@ == 0,
        attempt.refused@ == Set::<int>::empty(),
        attempt.failure is None,
{
    Attempt {
        strategy,
        phase,
        target_numa,
        memory,
        texts,
        parsed: 0,
        candidates: Vec::new(),
        current: 0,
        numa_node: UNCONSTRAINED,
        cpu_set,
        held: Vec::new(),
        failure: None,
        refused: Ghost(Set::empty()),
        asked: Ghost(0),
        created: Ghost(0),
        released: Ghost(0),
    }
}

impl Allocation {
    /// Begins the attempt for one request of `cpu_count` cores and
    /// `memory_mib` MiB on any one node: the candidates are asked for.
    pub fn new(cpu_count: usize, memory_mib: usize) -> (start: (Attempt, Step))
        ensures
            start.0.wf(),
            start.0.strategy is Single,
            start.0.phase is Candidates,
            start.0.target_numa == UNCONSTRAINED,
            start.0.memory@ == seq![memory_mib],
            start.0.untouched(),
            start.0.released@ == 0,
            start.0.refused@ == Set::<int>::empty(),
            start.0.failure is None,
            start.1.release@.len() == 0,
            start.1.command == (Command::FindCpuSets { count: cpu_count }),
    {
        let mut memory: Vec<usize> = Vec::new();
        memory.push(memory_mib);
        let attempt = fresh(
            Strategy::Single,
            Phase::Candidates,
            UNCONSTRAINED,
            memory,
            Vec::new(),
            CpuSet::new(),
        );
        (attempt, Step { release: Vec::new(), command: Command::FindCpuSets { count: cpu_count } })
    }

    /// Begins the attempt for the requests of `pool` that give a core
    /// count, together on one node, which is `target_numa` unless that is
    /// `UNCONSTRAINED`. With no core to reserve the attempt is over at once,
    /// in success; a demand that no `usize` holds is infeasible.
    pub fn find_n_allocate(pool: Vec<ResourcePool>, target_numa: usize) -> (start: (Attempt, Step))
        ensures
            start.0.wf(),
            start.0.strategy is Counted,
            start.0.target_numa == target_numa,
            start.0.memory@ == counted_memory(pool@),
            start.0.untouched(),
            start.0.released@ == 0,
            start.0.refused@ == Set::<int>::empty(),
            start.0.failure is None,
            start.1.release@.len() == 0,
            cpu_demand(pool@) == 0 ==> nothing_to_do(&start.0, &start.1.command),
            cpu_demand(pool@) > usize::MAX ==> gives_up(
                &start.0,
                &start.1.command,
                Error::Allocation,
            ),
            0 < cpu_demand(pool@) <= usize::MAX ==> start.0.phase is Candidates && start.1.command
                == (Command::FindCpuSets { count: cpu_demand(pool@) as usize }),
    {
        let mut memory: Vec<usize> = Vec::new();
        let mut total: usize = 0;
        let mut overflow = false;
        let mut i: usize = 0;
        while i < pool.len()
            invariant
                i <= pool@.len(),
                memory@ == counted_memory(pool@.take(i as int)),
                !overflow ==> total == cpu_demand(pool@.take(i as int)),
                overflow ==> cpu_demand(pool@.take(i as int)) > usize::MAX,
                cpu_demand(pool@.take(i as int)) > 0 ==> memory@.len() > 0,
            decreases pool@.len() - i,
        {
            proof {
                assert(pool@.take(i + 1).drop_last() =~= pool@.take(i as int));
            }
            match pool[i].cpu_count {
                Some(count) => {
                    memory.push(pool[i].memory_mib);
                    if !overflow {
                        match total.checked_add(count) {
                            Some(sum) => {
                                total = sum;
                            },
                            None => {
                                overflow = true;
                            },
                        }
                    }
                },
                None => {},
            }
            i += 1;
        }
        proof {
            assert(pool@.take(i as int) =~= pool@);
        }
        if overflow {
            let attempt = fresh(
                Strategy::Counted,
                Phase::Finished,
                target_numa,
                memory,
                Vec::new(),
                CpuSet::new(),
            );
            (
                attempt,
                Step { release: Vec::new(), command: Command::Finish { result: Err(Error::Allocation) } },
            )
        } else if total == 0 {
            let attempt = fresh(
                Strategy::Counted,
                Phase::Finished,
                target_numa,
                memory,
                Vec::new(),
                CpuSet::new(),
            );
            (
                attempt,
                Step {
                    release: Vec::new(),
                    command: Command::Finish { result: Ok(engine::empty_allocation()) },
                },
            )
        } else {
            let attempt = fresh(
                Strategy::Counted,
                Phase::Candidates,
                target_numa,
                memory,
                Vec::new(),
                CpuSet::new(),
            );
            (attempt, Step { release: Vec::new(), command: Command::FindCpuSets { count: total } })
        }
    }

    /// Begins the attempt for the requests of `pools` that name their
    /// cores. With none the attempt is over at once, in success, on the
    /// node `UNCONSTRAINED`. Else the first CPU list is parsed: malformed, it
    /// ends the attempt; well formed, the node of its lowest core is asked
    /// for.
    pub fn allocate_by_cpu_pools(pools: Vec<ResourcePool>) -> (start: (Attempt, Step))
        ensures
            start.0.wf(),
            start.0.strategy is Pinned,
            start.0.memory@ == pinned_memory(pools@),
            start.0.texts@ == pinned_texts(pools@),
            start.0.parsed == 0,
            start.0.numa_node == UNCONSTRAINED,
            start.0.untouched(),
            start.0.released@ == 0,
            start.0.refused@ == Set::<int>::empty(),
            start.0.failure is None,
            start.1.release@.len() == 0,
            pinned_texts(pools@).len() == 0 ==> nothing_to_do(&start.0, &start.1.command),
            pinned_texts(pools@).len() > 0 ==> (match named_cores(pinned_texts(pools@)[0]@) {
                None => gives_up(
                    &start.0,
                    &start.1.command,
                    Error::Cpu(cpu::Error::MalformedCpuList),
                ),
                Some(cores) => {
                    &&& start.0.phase is NumaNode
                    &&& start.0.cpu_set.members() == cores
                    &&& start.1.command matches Command::NumaNodeOf { cpu }
                    &&& cores.contains(cpu)
                    &&& forall|core: usize| cores.contains(core) ==> cpu <= core
                },
            }),
    {
        let mut memory: Vec<usize> = Vec::new();
        let mut texts: Vec<String> = Vec::new();
        let mut i: usize = 0;
        while i < pools.len()
            invariant
                i <= pools@.len(),
                memory@ == pinned_memory(pools@.take(i as int)),
                texts@ == pinned_texts(pools@.take(i as int)),
                texts@.len() == memory@.len(),
            decreases pools@.len() - i,
        {
            proof {
                assert(pools@.take(i + 1).drop_last() =~= pools@.take(i as int));
            }
            match &pools[i].cpu_pool {
                Some(text) => {
                    texts.push(text.clone());
                    memory.push(pools[i].memory_mib);
                },
                None => {},
            }
            i += 1;
        }
        proof {
            assert(pools@.take(i as int) =~= pools@);
        }
        if texts.len() == 0 {
            let attempt = fresh(
                Strategy::Pinned,
                Phase::Finished,
                UNCONSTRAINED,
                memory,
                texts,
                CpuSet::new(),
            );
            (
                attempt,
                Step {
                    release: Vec::new(),
                    command: Command::Finish { result: Ok(engine::empty_allocation()) },
                },
            )
        } else {
            let mut attempt = fresh(
                Strategy::Pinned,
                Phase::Finished,
                UNCONSTRAINED,
                memory,
                texts,
                CpuSet::new(),
            );
            proof {
                assert(attempt.cpu_set.members() =~= Set::<usize>::empty());
                assert(attempt.texts@.take(0).len() == 0);
            }
            let step = attempt.resolve();
            proof {
                let cores = named_cores(pinned_texts(pools@)[0]@);
                if cores is Some {
                    assert(attempt.cpu_set.members() =~= cores.unwrap());
                }
            }
            (attempt, step)
        }
    }

    /// The number of cores reserved.
    pub fn cpu_count(&self) -> (count: usize)
        ensures
            count == self.cpu_set_allocation@.len(),
    {
        self.cpu_set_allocation.len()
    }
}

} // verus!
