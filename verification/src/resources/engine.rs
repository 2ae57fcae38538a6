//! The search-and-reserve protocol as a state machine.
//!
//! An `Attempt` holds what has been decided and reserved so far. Each `Step`
//! names the reservations to release, in full, and then one `Command` for the
//! provider; the provider's `Reply` drives the next step. `follows` is the
//! whole transition relation, and `Attempt::step` implements it.

use vstd::prelude::*;
use crate::resources::cpu;
use crate::resources::cpu::Candidate;
use crate::resources::cpu::CpuSet;
use crate::resources::cpu_list::named_cores;
use crate::resources::cpu_list::named_together;
use crate::resources::cpu_list::parse_cpu_list;
use crate::resources::huge_pages;
use crate::resources::Allocation;
use crate::resources::Error;
use crate::resources::UNCONSTRAINED;

verus! {

/// Which protocol an attempt runs.
#[derive(Clone, Copy, Debug, PartialEq, Eq, Structural)]
pub enum Strategy {
    /// One request for a number of cores, on any node.
    Single,
    /// Every request that gives a core count, on one node.
    Counted,
    /// Every request that names its cores.
    Pinned,
    /// Release of whatever a previous run left reserved.
    Reset,
}

/// What the attempt is waiting for.
#[derive(Clone, Copy, Debug, PartialEq, Eq, Structural)]
pub enum Phase {
    /// The candidate CPU sets, one per NUMA node.
    Candidates,
    /// The NUMA node of one core.
    NumaNode,
    /// The outcome of a huge-page reservation.
    HugePages,
    /// The outcome of the CPU set reservation.
    Cpus,
    /// The outcome of releasing a node's huge pages.
    ReleasePages,
    /// The outcome of returning the reserved cores.
    ReleaseCpus,
    /// Nothing: the attempt is over.
    Finished,
}

/// One call that the caller makes on the provider for the engine.
#[derive(Debug)]
pub enum Command {
    FindCpuSets { count: usize },
    NumaNodeOf { cpu: usize },
    ReserveHugePages { numa_node: usize, memory_mib: usize },
    ReserveCpuSet { cpu_set: CpuSet },
    ReleaseAllHugePages { numa_node: usize },
    DeallocateCpuSet { cpu_set: CpuSet },
    /// No call: the attempt is over, with this result.
    Finish { result: Result<Allocation, Error> },
}

/// What the provider answered.
#[derive(Debug)]
#[allow(inconsistent_fields)]
pub enum Reply {
    CpuSets { candidates: Vec<Candidate> },
    NumaNode { numa_node: usize },
    /// A reservation or a release succeeded.
    Done,
    CpuFailed { error: cpu::Error },
    HugePagesFailed { error: huge_pages::Error },
}

/// Release everything in `release`, whatever each release reports; then
/// carry out `command`.
#[derive(Debug)]
pub struct Step {
    pub release: Vec<huge_pages::Allocation>,
    pub command: Command,
}

pub struct Attempt {
    pub strategy: Strategy,
    pub phase: Phase,
    /// The node that a counted search is restricted to, or `UNCONSTRAINED`.
    pub target_numa: usize,
    /// The memory of each request, in request order.
    pub memory: Vec<usize>,
    /// The CPU list of each pinned request, in request order.
    pub texts: Vec<String>,
    /// How many CPU lists have been resolved to their node.
    pub parsed: usize,
    pub candidates: Vec<Candidate>,
    /// The candidate in trial.
    pub current: usize,
    /// The node in trial.
    pub numa_node: usize,
    /// The union of the pinned requests' cores, or the pool to reset.
    pub cpu_set: CpuSet,
    /// The huge-page reservations made and not released, oldest first.
    pub held: Vec<huge_pages::Allocation>,
    /// What went wrong while a reset released the node's huge pages; it is
    /// reported once the pool has been returned.
    pub failure: Option<Error>,
    /// The positions of the candidates that the provider found short of
    /// memory.
    pub refused: Ghost<Set<int>>,
    /// How many reservations, of memory or of cores, the engine has asked for.
    pub asked: Ghost<nat>,
    /// How many huge-page reservations the provider has confirmed.
    pub created: Ghost<nat>,
    /// How many of them the engine has handed back for release.
    pub released: Ghost<nat>,
}

/// The candidate may be tried under this restriction.
pub open spec fn eligible(candidate: Candidate, target_numa: usize) -> bool {
    target_numa == UNCONSTRAINED || candidate.numa_node == target_numa
}

/// `at` is the first position from `from` on whose candidate may be tried,
/// or the length if there is none.
pub open spec fn next_eligible(
    candidates: Seq<Candidate>,
    from: int,
    target_numa: usize,
    at: int,
) -> bool {
    &&& from <= at <= candidates.len()
    &&& forall|k: int| from <= k < at ==> !eligible(#[trigger] candidates[k], target_numa)
    &&& at < candidates.len() ==> eligible(candidates[at], target_numa)
}

impl Step {
    /// The step ends the attempt in failure.
    pub open spec fn failed(&self) -> bool {
        self.command matches Command::Finish { result: Err(_) }
    }

    /// The step ends the attempt in success.
    pub open spec fn succeeded(&self) -> bool {
        self.command matches Command::Finish { result: Ok(_) }
    }

    /// The step asks the provider to reserve something.
    pub open spec fn reserves(&self) -> bool {
        self.command is ReserveHugePages || self.command is ReserveCpuSet
    }
}

impl Attempt {
    /// The strategy searches the candidates that the provider offers.
    pub open spec fn searches(&self) -> bool {
        self.strategy is Single || self.strategy is Counted
    }

    /// Every candidate before `position` that may be tried has been found
    /// short of memory.
    pub open spec fn passed(&self, position: int) -> bool {
        forall|k: int|
            0 <= k < position && eligible(#[trigger] self.candidates@[k], self.target_numa)
                ==> self.refused@.contains(k)
    }

    /// The node in trial is known and may be tried, and no candidate before
    /// it was passed over.
    pub open spec fn placed(&self) -> bool {
        self.searches() ==> {
            &&& self.current < self.candidates@.len()
            &&& self.candidates@[self.current as int].numa_node == self.numa_node
            &&& eligible(self.candidates@[self.current as int], self.target_numa)
            &&& self.passed(self.current as int)
        }
    }

    /// The provider reports the candidate in trial short of memory.
    pub open spec fn refuses(&self, reply: &Reply) -> bool {
        &&& self.searches()
        &&& self.phase is HugePages
        &&& *reply == (Reply::HugePagesFailed { error: huge_pages::Error::InsufficientMemory })
    }

    /// The union holds the cores of every pinned request.
    pub open spec fn united(&self) -> bool {
        self.strategy is Pinned ==> self.cpu_set.members() == named_together(self.texts@)
    }

    /// The cores to reserve once the memory is secured.
    pub open spec fn chosen_cpus(&self) -> Seq<usize> {
        if self.searches() {
            self.candidates@[self.current as int].cpu_set@
        } else {
            self.cpu_set@
        }
    }

    /// Nothing has been asked of the provider's reserving side yet.
    pub open spec fn untouched(&self) -> bool {
        self.held@.len() == 0 && self.asked@ == 0 && self.created@ == 0
    }

    pub open spec fn wf(&self) -> bool {
        &&& self.strategy is Pinned ==> self.cpu_set.wf()
        &&& self.created@ == self.released@ + self.held@.len()
        &&& self.held@.len() <= self.memory@.len()
        &&& forall|i: int|
            0 <= i < self.held@.len() ==> #[trigger] self.held@[i] == (huge_pages::Allocation {
                numa_node: self.numa_node,
                memory_mib: self.memory@[i],
            })
        &&& match self.phase {
            Phase::Candidates => self.searches() && self.untouched() && self.memory@.len() > 0,
            Phase::NumaNode => self.untouched() && (if self.strategy is Pinned {
                self.parsed < self.texts@.len() && self.texts@.len() == self.memory@.len()
                    && self.cpu_set.members() == named_together(
                    self.texts@.take(self.parsed + 1),
                )
            } else {
                self.strategy is Reset && self.cpu_set@.len() > 0
            }),
            Phase::HugePages => !(self.strategy is Reset) && self.held@.len()
                < self.memory@.len() && self.placed() && self.united(),
            Phase::Cpus => !(self.strategy is Reset) && self.held@.len() == self.memory@.len()
                && self.placed() && self.united(),
            Phase::ReleasePages => self.strategy is Reset && self.untouched(),
            Phase::ReleaseCpus => self.strategy is Reset && self.untouched(),
            Phase::Finished => true,
        }
    }

    /// The reply answers the command that the attempt issued last.
    pub open spec fn expects(&self, reply: &Reply) -> bool {
        match self.phase {
            Phase::Candidates => reply is CpuSets || reply is CpuFailed,
            Phase::NumaNode => reply is NumaNode || reply is CpuFailed,
            Phase::HugePages => reply is Done || reply is HugePagesFailed,
            Phase::Cpus => reply is Done || reply is CpuFailed,
            Phase::ReleasePages => reply is Done || reply is HugePagesFailed,
            Phase::ReleaseCpus => reply is Done || reply is CpuFailed,
            Phase::Finished => false,
        }
    }
}

/// What no step changes.
pub open spec fn frame(pre: &Attempt, post: &Attempt) -> bool {
    &&& post.strategy == pre.strategy
    &&& post.target_numa == pre.target_numa
    &&& post.memory@ == pre.memory@
    &&& post.texts@ == pre.texts@
}

/// The step releases nothing and the reservations held stay as they were.
pub open spec fn keeps(pre: &Attempt, post: &Attempt, step: &Step) -> bool {
    &&& step.release@.len() == 0
    &&& post.held@ == pre.held@
    &&& post.created@ == pre.created@
    &&& post.released@ == pre.released@
}

/// The step releases every reservation held.
pub open spec fn undoes(pre: &Attempt, post: &Attempt, step: &Step) -> bool {
    &&& step.release@ == pre.held@
    &&& post.held@.len() == 0
    &&& post.created@ == pre.created@
    &&& post.released@ == pre.released@ + pre.held@.len()
}

/// The attempt ends with this error.
pub open spec fn gives_up(post: &Attempt, command: &Command, error: Error) -> bool {
    &&& post.phase is Finished
    &&& *command == (Command::Finish { result: Err(error) })
}

/// The attempt ends in success with nothing reserved.
pub open spec fn nothing_to_do(post: &Attempt, command: &Command) -> bool {
    &&& post.phase is Finished
    &&& *command matches Command::Finish { result: Ok(allocation) }
    &&& allocation.cpu_set_allocation@.len() == 0
    &&& allocation.huge_pages_allocation@.len() == 0
    &&& allocation.numa_node == UNCONSTRAINED
}

/// The step asks for the next request's memory on the node in trial.
pub open spec fn reserving(post: &Attempt, command: &Command) -> bool {
    &&& post.phase is HugePages
    &&& post.held@.len() < post.memory@.len()
    &&& *command == (Command::ReserveHugePages {
        numa_node: post.numa_node,
        memory_mib: post.memory@[post.held@.len() as int],
    })
}

/// The search goes on at the first eligible candidate from `from` on, whose
/// first request's memory is asked for; with none left the attempt is
/// infeasible.
pub open spec fn trying(post: &Attempt, command: &Command, from: int) -> bool {
    let candidates = post.candidates@;
    if forall|k: int|
        from <= k < candidates.len() ==> !eligible(#[trigger] candidates[k], post.target_numa) {
        gives_up(post, command, Error::Allocation)
    } else {
        &&& next_eligible(candidates, from, post.target_numa, post.current as int)
        &&& post.current < candidates.len()
        &&& post.numa_node == candidates[post.current as int].numa_node
        &&& reserving(post, command)
    }
}

/// The attempt turns to the pinned request at `index`. Where its CPU list
/// is malformed the attempt ends with that error. Else the cores it names
/// join the union, and the node of the lowest of them is asked for.
pub open spec fn resolving(pre: &Attempt, post: &Attempt, step: &Step, index: int) -> bool {
    match named_cores(pre.texts@[index]@) {
        None => undoes(pre, post, step) && gives_up(
            post,
            &step.command,
            Error::Cpu(cpu::Error::MalformedCpuList),
        ),
        Some(cores) => {
            &&& keeps(pre, post, step)
            &&& post.phase is NumaNode
            &&& post.cpu_set.wf()
            &&& post.cpu_set.members() == pre.cpu_set.members().union(cores)
            &&& step.command matches Command::NumaNodeOf { cpu }
            &&& cores.contains(cpu)
            &&& forall|core: usize| cores.contains(core) ==> cpu <= core
        },
    }
}

/// The transition relation: `post` and `step` are what follows from `pre`
/// on `reply`.
pub open spec fn follows(pre: &Attempt, reply: &Reply, post: &Attempt, step: &Step) -> bool {
    &&& frame(pre, post)
    &&& pre.expects(reply) && !(pre.phase is ReleasePages && reply is HugePagesFailed)
        ==> post.failure == pre.failure
    &&& pre.expects(reply) ==> post.refused@ == (if pre.refuses(reply) {
        pre.refused@.insert(pre.current as int)
    } else {
        pre.refused@
    })
    &&& pre.expects(reply) ==> post.asked@ == pre.asked@ + (if step.reserves() {
        1nat
    } else {
        0nat
    })
    &&& match pre.phase {
        Phase::Candidates => match *reply {
            Reply::CpuSets { candidates } => {
                &&& keeps(pre, post, step)
                &&& post.candidates@ == candidates@
                &&& trying(post, &step.command, 0)
            },
            Reply::CpuFailed { error } => undoes(pre, post, step) && gives_up(post, &step.command,
                Error::Cpu(error),
            ),
            _ => true,
        },
        Phase::NumaNode => match *reply {
            Reply::NumaNode { numa_node } => {
                &&& if pre.strategy is Reset {
                    &&& keeps(pre, post, step)
                    &&& post.cpu_set@ == pre.cpu_set@
                    &&& post.phase is ReleasePages
                    &&& step.command == (Command::ReleaseAllHugePages { numa_node })
                } else if pre.numa_node != UNCONSTRAINED && pre.numa_node != numa_node {
                    undoes(pre, post, step) && gives_up(post, &step.command, Error::NumaDifference)
                } else if pre.parsed + 1 < pre.texts@.len() {
                    &&& post.numa_node == numa_node
                    &&& post.parsed == pre.parsed + 1
                    &&& resolving(pre, post, step, pre.parsed + 1)
                } else {
                    &&& keeps(pre, post, step)
                    &&& post.cpu_set@ == pre.cpu_set@
                    &&& post.numa_node == numa_node
                    &&& reserving(post, &step.command)
                }
            },
            Reply::CpuFailed { error } => undoes(pre, post, step) && gives_up(post, &step.command,
                Error::Cpu(error),
            ),
            _ => true,
        },
        Phase::HugePages => match *reply {
            Reply::Done => {
                &&& step.release@.len() == 0
                &&& post.held@ == pre.held@.push(
                    huge_pages::Allocation {
                        numa_node: pre.numa_node,
                        memory_mib: pre.memory@[pre.held@.len() as int],
                    },
                )
                &&& post.created@ == pre.created@ + 1
                &&& post.released@ == pre.released@
                &&& post.numa_node == pre.numa_node
                &&& post.current == pre.current
                &&& post.candidates@ == pre.candidates@
                &&& post.cpu_set@ == pre.cpu_set@
                &&& if post.held@.len() < post.memory@.len() {
                    reserving(post, &step.command)
                } else {
                    &&& post.phase is Cpus
                    &&& step.command matches Command::ReserveCpuSet { cpu_set }
                    &&& cpu_set@ == pre.chosen_cpus()
                }
            },
            Reply::HugePagesFailed { error } => {
                &&& undoes(pre, post, step)
                &&& if !(error is InsufficientMemory) {
                    gives_up(post, &step.command, Error::HugePage(error))
                } else if pre.searches() {
                    post.candidates@ == pre.candidates@ && trying(post, &step.command, pre.current + 1)
                } else {
                    gives_up(post, &step.command, Error::Allocation)
                }
            },
            _ => true,
        },
        Phase::Cpus => match *reply {
            Reply::Done => {
                &&& keeps(pre, post, step)
                &&& post.phase is Finished
                &&& step.command matches Command::Finish { result: Ok(allocation) }
                &&& allocation.cpu_set_allocation@ == pre.chosen_cpus()
                &&& allocation.huge_pages_allocation@ == pre.held@
                &&& allocation.numa_node == pre.numa_node
            },
            Reply::CpuFailed { error } => undoes(pre, post, step) && gives_up(post, &step.command,
                Error::Cpu(
                    if pre.strategy is Single {
                        error
                    } else {
                        cpu::Error::InsufficientCpuPool
                    },
                ),
            ),
            _ => true,
        },
        Phase::ReleasePages => match *reply {
            Reply::Done => {
                &&& keeps(pre, post, step)
                &&& post.phase is ReleaseCpus
                &&& step.command matches Command::DeallocateCpuSet { cpu_set }
                &&& cpu_set@ == pre.cpu_set@
            },
            Reply::HugePagesFailed { error } => {
                &&& keeps(pre, post, step)
                &&& post.phase is ReleaseCpus
                &&& post.failure == Some(Error::HugePage(error))
                &&& step.command matches Command::DeallocateCpuSet { cpu_set }
                &&& cpu_set@ == pre.cpu_set@
            },
            _ => true,
        },
        Phase::ReleaseCpus => match pre.failure {
            Some(error) => undoes(pre, post, step) && gives_up(post, &step.command, error),
            None => keeps(pre, post, step) && nothing_to_do(post, &step.command),
        },
        Phase::Finished => true,
    }
}

/// The first position from `from` on whose candidate may be tried.
fn seek(candidates: &Vec<Candidate>, from: usize, target_numa: usize) -> (at: usize)
    requires
        from <= candidates@.len(),
    ensures
        next_eligible(candidates@, from as int, target_numa, at as int),
{
    let mut at: usize = from;
    while at < candidates.len() && !(target_numa == UNCONSTRAINED || candidates[at].numa_node
        == target_numa)
        invariant
            from <= at <= candidates@.len(),
            forall|k: int| from <= k < at ==> !eligible(#[trigger] candidates@[k], target_numa),
        decreases candidates@.len() - at,
    {
        at += 1;
    }
    at
}

fn copy_of(held: &Vec<huge_pages::Allocation>) -> (copy: Vec<huge_pages::Allocation>)
    ensures
        copy@ == held@,
{
    let mut copy: Vec<huge_pages::Allocation> = Vec::new();
    let mut i: usize = 0;
    while i < held.len()
        invariant
            i <= held@.len(),
            copy@ == held@.take(i as int),
        decreases held@.len() - i,
    {
        copy.push(held[i]);
        proof {
            assert(held@.take(i + 1) =~= held@.take(i as int).push(held@[i as int]));
        }
        i += 1;
    }
    proof {
        assert(held@.take(i as int) =~= held@);
    }
    copy
}

/// An allocation that holds nothing.
pub fn empty_allocation() -> (allocation: Allocation)
    ensures
        allocation.cpu_set_allocation@.len() == 0,
        allocation.cpu_set_allocation.wf(),
        allocation.huge_pages_allocation@.len() == 0,
        allocation.numa_node == UNCONSTRAINED,
{
    Allocation {
        cpu_set_allocation: CpuSet::new(),
        huge_pages_allocation: Vec::new(),
        numa_node: UNCONSTRAINED,
    }
}

impl Attempt {
    /// Whether `reply` answers the command that the attempt issued last.
    pub fn accepts(&self, reply: &Reply) -> (yes: bool)
        ensures
            yes == self.expects(reply),
    {
        match self.phase {
            Phase::Candidates => match reply {
                Reply::CpuSets { .. } => true,
                Reply::CpuFailed { .. } => true,
                _ => false,
            },
            Phase::NumaNode => match reply {
                Reply::NumaNode { .. } => true,
                Reply::CpuFailed { .. } => true,
                _ => false,
            },
            Phase::HugePages => match reply {
                Reply::Done => true,
                Reply::HugePagesFailed { .. } => true,
                _ => false,
            },
            Phase::Cpus => match reply {
                Reply::Done => true,
                Reply::CpuFailed { .. } => true,
                _ => false,
            },
            Phase::ReleasePages => match reply {
                Reply::Done => true,
                Reply::HugePagesFailed { .. } => true,
                _ => false,
            },
            Phase::ReleaseCpus => match reply {
                Reply::Done => true,
                Reply::CpuFailed { .. } => true,
                _ => false,
            },
            Phase::Finished => false,
        }
    }

    /// Whether the attempt is over.
    pub fn is_finished(&self) -> (yes: bool)
        ensures
            yes == (self.phase is Finished),
    {
        self.phase == Phase::Finished
    }

    /// Ends the attempt with `error`, handing back everything held.
    fn abandon(&mut self, error: Error) -> (step: Step)
        ensures
            undoes(old(self), final(self), &step),
            gives_up(final(self), &step.command, error),
            *final(self) == (Attempt {
                phase: final(self).phase,
                held: final(self).held,
                released: final(self).released,
                ..*old(self)
            }),
    {
        let mut release: Vec<huge_pages::Allocation> = Vec::new();
        core::mem::swap(&mut release, &mut self.held);
        self.released = Ghost((self.released@ + release@.len()) as nat);
        self.phase = Phase::Finished;
        Step { release, command: Command::Finish { result: Err(error) } }
    }

    /// Starts on the first eligible candidate from `from` on, with nothing
    /// held, or ends the attempt as infeasible.
    fn advance(&mut self, from: usize) -> (command: Command)
        requires
            old(self).searches(),
            old(self).memory@.len() > 0,
            old(self).held@.len() == 0,
            from <= old(self).candidates@.len(),
            old(self).passed(from as int),
        ensures
            trying(final(self), &command, from as int),
            final(self).placed() || final(self).phase is Finished,
            final(self).asked@ == old(self).asked@ + (if final(self).phase is Finished {
                0nat
            } else {
                1nat
            }),
            *final(self) == (Attempt {
                asked: final(self).asked,
                phase: final(self).phase,
                current: final(self).current,
                numa_node: final(self).numa_node,
                ..*old(self)
            }),
    {
        let at: usize = seek(&self.candidates, from, self.target_numa);
        if at >= self.candidates.len() {
            self.phase = Phase::Finished;
            Command::Finish { result: Err(Error::Allocation) }
        } else {
            self.current = at;
            self.numa_node = self.candidates[at].numa_node;
            self.phase = Phase::HugePages;
            self.asked = Ghost(self.asked@ + 1);
            Command::ReserveHugePages { numa_node: self.numa_node, memory_mib: self.memory[0] }
        }
    }

    /// Turns to the pinned request at `parsed`.
    pub(crate) fn resolve(&mut self) -> (step: Step)
        requires
            old(self).strategy is Pinned,
            old(self).cpu_set.wf(),
            old(self).parsed < old(self).texts@.len(),
            old(self).texts@.len() == old(self).memory@.len(),
            old(self).untouched(),
            old(self).released@ == 0,
            old(self).cpu_set.members() == named_together(
                old(self).texts@.take(old(self).parsed as int),
            ),
        ensures
            final(self).wf(),
            resolving(old(self), final(self), &step, old(self).parsed as int),
            *final(self) == (Attempt {
                phase: final(self).phase,
                cpu_set: final(self).cpu_set,
                held: final(self).held,
                released: final(self).released,
                ..*old(self)
            }),
    {
        proof {
            let upto = self.texts@.take(self.parsed + 1);
            assert(upto.drop_last() =~= self.texts@.take(self.parsed as int));
            assert(upto.last() == self.texts@[self.parsed as int]);
        }
        match parse_cpu_list(self.texts[self.parsed].as_str()) {
            Ok(named) => {
                let lowest = named.first();
                self.cpu_set.extend(&named);
                self.phase = Phase::NumaNode;
                match lowest {
                    Some(cpu) => Step {
                        release: Vec::new(),
                        command: Command::NumaNodeOf { cpu },
                    },
                    None => self.abandon(Error::Cpu(cpu::Error::MalformedCpuList)),
                }
            },
            Err(error) => self.abandon(Error::Cpu(error)),
        }
    }

    /// Takes the provider's reply to the last command and decides what
    /// comes next. The reply must answer that command; `accepts` tells.
    pub fn step(&mut self, reply: Reply) -> (step: Step)
        requires
            old(self).wf(),
            old(self).expects(&reply),
        ensures
            final(self).wf(),
            follows(old(self), &reply, final(self), &step),
    {
        match self.phase {
            Phase::Candidates => match reply {
                Reply::CpuSets { candidates } => {
                    self.candidates = candidates;
                    let command = self.advance(0);
                    Step { release: Vec::new(), command }
                },
                Reply::CpuFailed { error } => self.abandon(Error::Cpu(error)),
                _ => self.abandon(Error::Allocation),
            },
            Phase::NumaNode => match reply {
                Reply::NumaNode { numa_node } => {
                    let requests: usize = self.texts.len();
                    if self.strategy == Strategy::Reset {
                        self.phase = Phase::ReleasePages;
                        Step {
                            release: Vec::new(),
                            command: Command::ReleaseAllHugePages { numa_node },
                        }
                    } else if self.numa_node != UNCONSTRAINED && self.numa_node != numa_node {
                        self.abandon(Error::NumaDifference)
                    } else if self.parsed + 1 < requests {
                        self.numa_node = numa_node;
                        self.parsed = self.parsed + 1;
                        self.resolve()
                    } else {
                        proof {
                            assert(self.texts@.take(self.parsed + 1) =~= self.texts@);
                        }
                        self.numa_node = numa_node;
                        self.phase = Phase::HugePages;
                        self.asked = Ghost(self.asked@ + 1);
                        Step {
                            release: Vec::new(),
                            command: Command::ReserveHugePages {
                                numa_node,
                                memory_mib: self.memory[0],
                            },
                        }
                    }
                },
                Reply::CpuFailed { error } => self.abandon(Error::Cpu(error)),
                _ => self.abandon(Error::Allocation),
            },
            Phase::HugePages => match reply {
                Reply::Done => {
                    let request: usize = self.held.len();
                    self.held.push(
                        huge_pages::Allocation {
                            numa_node: self.numa_node,
                            memory_mib: self.memory[request],
                        },
                    );
                    self.created = Ghost(self.created@ + 1);
                    self.asked = Ghost(self.asked@ + 1);
                    if self.held.len() < self.memory.len() {
                        Step {
                            release: Vec::new(),
                            command: Command::ReserveHugePages {
                                numa_node: self.numa_node,
                                memory_mib: self.memory[request + 1],
                            },
                        }
                    } else {
                        self.phase = Phase::Cpus;
                        let cpu_set = self.cpus_in_trial();
                        Step { release: Vec::new(), command: Command::ReserveCpuSet { cpu_set } }
                    }
                },
                Reply::HugePagesFailed { error } => {
                    if error != huge_pages::Error::InsufficientMemory {
                        self.abandon(Error::HugePage(error))
                    } else if self.strategy == Strategy::Single || self.strategy == Strategy::Counted {
                        let mut release: Vec<huge_pages::Allocation> = Vec::new();
                        core::mem::swap(&mut release, &mut self.held);
                        self.released = Ghost((self.released@ + release@.len()) as nat);
                        let offered: usize = self.candidates.len();
                        let next: usize = if self.current < offered {
                            self.current + 1
                        } else {
                            offered
                        };
                        self.refused = Ghost(self.refused@.insert(self.current as int));
                        let command = self.advance(next);
                        Step { release, command }
                    } else {
                        self.abandon(Error::Allocation)
                    }
                },
                _ => self.abandon(Error::Allocation),
            },
            Phase::Cpus => match reply {
                Reply::Done => {
                    self.phase = Phase::Finished;
                    let allocation = Allocation {
                        cpu_set_allocation: self.cpus_in_trial(),
                        huge_pages_allocation: copy_of(&self.held),
                        numa_node: self.numa_node,
                    };
                    Step { release: Vec::new(), command: Command::Finish { result: Ok(allocation) } }
                },
                Reply::CpuFailed { error } => {
                    if self.strategy == Strategy::Single {
                        self.abandon(Error::Cpu(error))
                    } else {
                        self.abandon(Error::Cpu(cpu::Error::InsufficientCpuPool))
                    }
                },
                _ => self.abandon(Error::Allocation),
            },
            Phase::ReleasePages => match reply {
                Reply::Done => {
                    self.phase = Phase::ReleaseCpus;
                    Step {
                        release: Vec::new(),
                        command: Command::DeallocateCpuSet { cpu_set: self.cpu_set.duplicate() },
                    }
                },
                Reply::HugePagesFailed { error } => {
                    self.failure = Some(Error::HugePage(error));
                    self.phase = Phase::ReleaseCpus;
                    Step {
                        release: Vec::new(),
                        command: Command::DeallocateCpuSet { cpu_set: self.cpu_set.duplicate() },
                    }
                },
                _ => self.abandon(Error::Allocation),
            },
            Phase::ReleaseCpus => match self.failure {
                Some(error) => self.abandon(error),
                None => {
                    self.phase = Phase::Finished;
                    Step {
                        release: Vec::new(),
                        command: Command::Finish { result: Ok(empty_allocation()) },
                    }
                },
            },
            Phase::Finished => self.abandon(Error::Allocation),
        }
    }

    /// The cores to reserve once the memory is secured.
    fn cpus_in_trial(&self) -> (cpu_set: CpuSet)
        requires
            self.placed(),
        ensures
            cpu_set@ == self.chosen_cpus(),
    {
        if self.strategy == Strategy::Single || self.strategy == Strategy::Counted {
            self.candidates[self.current].cpu_set.duplicate()
        } else {
            self.cpu_set.duplicate()
        }
    }
}

} // verus!
