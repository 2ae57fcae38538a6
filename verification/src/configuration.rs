//! The request model and its validation.

use vstd::prelude::*;
use vstd::string::StrSliceExecFns;
use crate::resources::cpu;
use crate::resources::cpu_list::named_cores;
use crate::resources::cpu_list::parse_cpu_list;
use crate::error::Error;
use crate::resources::cpu::CpuSet;
use crate::resources::engine::nothing_to_do;
use crate::resources::engine::Attempt;
use crate::resources::engine::Command;
use crate::resources::engine::Phase;
use crate::resources::engine::Step;
use crate::resources::engine::Strategy;
use crate::resources::UNCONSTRAINED;

verus! {

/// One enclave's request: memory, and cores either by number or by name.
#[derive(Debug, Clone, PartialEq)]
pub struct ResourcePool {
    pub memory_mib: usize,
    pub cpu_count: Option<usize>,
    pub cpu_pool: Option<String>,
}

impl ResourcePool {
    /// The request names its cores both ways, which no request may.
    pub open spec fn ambiguous(&self) -> bool {
        self.cpu_pool.is_some() && self.cpu_count.is_some()
    }
}

/// Takes the requests as they were read and hands them on unchanged if each
/// names its cores in at most one way.
pub fn get_resource_pool(pool: Vec<ResourcePool>) -> (checked: Result<Vec<ResourcePool>, Error>)
    ensures
        checked.is_err() <==> exists|i: int| 0 <= i < pool@.len() && (#[trigger] pool@[i]).ambiguous(),
        checked matches Err(e) ==> e is BothOptionsForCpu,
        checked matches Ok(list) ==> list == pool,
{
    let mut i: usize = 0;
    while i < pool.len()
        invariant
            i <= pool.len(),
            forall|k: int| 0 <= k < i ==> !(#[trigger] pool@[k]).ambiguous(),
        decreases pool.len() - i,
    {
        if pool[i].cpu_pool.is_some() && pool[i].cpu_count.is_some() {
            return Err(Error::BothOptionsForCpu);
        }
        i += 1;
    }
    Ok(pool)
}

/// The character is white space as Unicode defines it: what trimming a
/// text takes away.
pub open spec fn is_space(c: char) -> bool {
    let code = c as u32;
    ||| 0x09 <= code <= 0x0d
    ||| code == 0x20
    ||| code == 0x85
    ||| code == 0xa0
    ||| code == 0x1680
    ||| 0x2000 <= code <= 0x200a
    ||| code == 0x2028
    ||| code == 0x2029
    ||| code == 0x202f
    ||| code == 0x205f
    ||| code == 0x3000
}

/// The text holds nothing but white space.
pub open spec fn is_blank(text: Seq<char>) -> bool {
    forall|i: int| 0 <= i < text.len() ==> is_space(#[trigger] text[i])
}

/// Whether the character is white space.
fn white_space(c: char) -> (yes: bool)
    ensures
        yes == is_space(c),
{
    let code: u32 = c as u32;
    (0x09 <= code && code <= 0x0d) || code == 0x20 || code == 0x85 || code == 0xa0 || code
        == 0x1680 || (0x2000 <= code && code <= 0x200a) || code == 0x2028 || code == 0x2029
        || code == 0x202f || code == 0x205f || code == 0x3000
}

/// The pool of reserved cores, given what the host's file of reserved cores
/// holds: none where the file is blank, else the cores that its CPU list
/// names.
pub fn get_cpu_pool(contents: &str) -> (pool: Result<Option<CpuSet>, Error>)
    ensures
        is_blank(contents@) ==> pool matches Ok(None),
        !is_blank(contents@) ==> (match named_cores(contents@) {
            Some(cores) => pool matches Ok(Some(reserved)) && reserved.wf() && reserved.members()
                == cores && reserved@.len() > 0,
            None => pool matches Err(Error::Allocation(inner)) && inner == crate::resources::Error::Cpu(
                cpu::Error::MalformedCpuList,
            ),
        }),
{
    let length: usize = contents.unicode_len();
    let mut i: usize = 0;
    while i < length
        invariant
            i <= length,
            length == contents@.len(),
            forall|k: int| 0 <= k < i ==> is_space(#[trigger] contents@[k]),
        decreases length - i,
    {
        if !white_space(contents.get_char(i)) {
            return match parse_cpu_list(contents) {
                Ok(reserved) => Ok(Some(reserved)),
                Err(error) => Err(Error::Allocation(crate::resources::Error::Cpu(error))),
            };
        }
        i += 1;
    }
    Ok(None)
}

/// Begins the release of whatever a previous run left reserved, given the
/// pool of cores that the host reports as reserved. With no pool there is
/// nothing to release and the attempt is over at once. Else the node of the
/// pool's lowest core is asked for, that node's huge pages are released,
/// and the pool is returned, whether or not the pages could be released; a
/// failed release of the pages is reported once the pool has been returned.
pub fn crystal_clear(cpu_pool: Option<CpuSet>) -> (start: (Attempt, Step))
    requires
        cpu_pool matches Some(reserved) ==> reserved@.len() > 0,
    ensures
        start.0.wf(),
        start.0.strategy is Reset,
        start.0.untouched(),
        start.0.released@ == 0,
        start.0.refused@ == Set::<int>::empty(),
        start.0.failure is None,
        start.1.release@.len() == 0,
        cpu_pool is None ==> nothing_to_do(&start.0, &start.1.command),
        cpu_pool matches Some(reserved) ==> {
            &&& start.0.phase is NumaNode
            &&& start.0.cpu_set@ == reserved@
            &&& start.1.command == (Command::NumaNodeOf { cpu: reserved@[0] })
        },
{
    match cpu_pool {
        Some(reserved) => {
            let cpu: usize = reserved.first().unwrap();
            let attempt = Attempt {
                strategy: Strategy::Reset,
                phase: Phase::NumaNode,
                target_numa: UNCONSTRAINED,
                memory: Vec::new(),
                texts: Vec::new(),
                parsed: 0,
                candidates: Vec::new(),
                current: 0,
                numa_node: UNCONSTRAINED,
                cpu_set: reserved,
                held: Vec::new(),
                failure: None,
        refused: Ghost(Set::empty()),
        asked: Ghost(0),
                created: Ghost(0),
                released: Ghost(0),
            };
            (attempt, Step { release: Vec::new(), command: Command::NumaNodeOf { cpu } })
        },
        None => {
            let attempt = Attempt {
                strategy: Strategy::Reset,
                phase: Phase::Finished,
                target_numa: UNCONSTRAINED,
                memory: Vec::new(),
                texts: Vec::new(),
                parsed: 0,
                candidates: Vec::new(),
                current: 0,
                numa_node: UNCONSTRAINED,
                cpu_set: CpuSet::new(),
                held: Vec::new(),
                failure: None,
        refused: Ghost(Set::empty()),
        asked: Ghost(0),
                created: Ghost(0),
                released: Ghost(0),
            };
            (
                attempt,
                Step {
                    release: Vec::new(),
                    command: Command::Finish { result: Ok(crate::resources::engine::empty_allocation()) },
                },
            )
        },
    }
}

} // verus!
