//! CPU sets: ordered sets of core IDs.

use vstd::prelude::*;

verus! {

/// Why the provider could not answer a question about cores or reserve them.
#[derive(Clone, Copy, Debug, PartialEq, Eq, Structural)]
pub enum Error {
    /// A requested core is not available.
    InsufficientCpuPool,
    /// A CPU list is not a comma-separated list of IDs and inclusive ranges.
    MalformedCpuList,
    /// The core ID does not exist on this host.
    UnknownCpu,
    /// Any other failure of the provider, with the operating system's code.
    Io { code: i32 },
}

/// A set of core IDs, kept in ascending order without repetition.
#[derive(Debug)]
pub struct CpuSet {
    ids: Vec<usize>,
}

/// One NUMA node's offer: a set of free cores of the size asked for.
#[derive(Debug)]
pub struct Candidate {
    pub numa_node: usize,
    pub cpu_set: CpuSet,
}

impl View for CpuSet {
    type V = Seq<usize>;

    /// The core IDs in iteration order.
    closed spec fn view(&self) -> Seq<usize> {
        self.ids@
    }
}

/// The first `i + 1` IDs of a list are, as a set, its first `i` with the
/// one at `i` added.
proof fn lemma_one_more(ids: Seq<usize>, i: int)
    requires
        0 <= i < ids.len(),
    ensures
        ids.take(i + 1).to_set() == ids.take(i).to_set().insert(ids[i]),
{
    let before = ids.take(i);
    let after = ids.take(i + 1);
    assert(after =~= before.push(ids[i]));
    assert forall|c: usize| after.contains(c) <==> (before.contains(c) || c == ids[i]) by {
        if before.contains(c) {
            let k = choose|k: int| 0 <= k < before.len() && before[k] == c;
            assert(after[k] == c);
        }
        if c == ids[i] {
            assert(after[i] == c);
        }
    }
    assert(after.to_set() =~= before.to_set().insert(ids[i]));
}

impl CpuSet {
    /// The IDs ascend strictly, so none occurs twice.
    pub open spec fn wf(&self) -> bool {
        forall|i: int, j: int| 0 <= i < j < self@.len() ==> self@[i] < self@[j]
    }

    /// The cores as a set.
    pub open spec fn members(&self) -> Set<usize> {
        self@.to_set()
    }

    pub fn new() -> (set: CpuSet)
        ensures
            set.wf(),
            set@ == Seq::<usize>::empty(),
    {
        CpuSet { ids: Vec::new() }
    }

    pub fn len(&self) -> (n: usize)
        ensures
            n == self@.len(),
    {
        self.ids.len()
    }

    /// The lowest core ID, if there is any.
    pub fn first(&self) -> (cpu: Option<usize>)
        ensures
            self@.len() == 0 ==> cpu.is_none(),
            self@.len() > 0 ==> cpu == Some(self@[0]),
            self.wf() ==> (cpu matches Some(lowest) ==> self.members().contains(lowest)
                && forall|core: usize| self.members().contains(core) ==> lowest <= core),
    {
        if self.ids.len() == 0 {
            None
        } else {
            proof {
                assert(self@.contains(self@[0]));
                if self.wf() {
                    assert forall|core: usize| self.members().contains(core) implies self@[0]
                        <= core by {
                        let k = choose|k: int| 0 <= k < self@.len() && self@[k] == core;
                        if k > 0 {
                            assert(self@[0] < self@[k]);
                        }
                    }
                }
            }
            Some(self.ids[0])
        }
    }

    /// Adds one core; a core that is already a member changes nothing.
    pub fn insert(&mut self, cpu: usize)
        requires
            old(self).wf(),
        ensures
            final(self).wf(),
            final(self).members() == old(self).members().insert(cpu),
            old(self).members().contains(cpu) ==> final(self)@ == old(self)@,
            !old(self).members().contains(cpu) ==> final(self)@.len() == old(self)@.len() + 1,
    {
        let mut i: usize = 0;
        while i < self.ids.len() && self.ids[i] < cpu
            invariant
                i <= self.ids.len(),
                self.ids@ == old(self).ids@,
                forall|k: int| 0 <= k < i ==> self.ids@[k] < cpu,
            decreases self.ids.len() - i,
        {
            i += 1;
        }
        if i < self.ids.len() && self.ids[i] == cpu {
            proof {
                assert(self.ids@[i as int] == cpu);
                assert(self.ids@.contains(cpu));
                assert(self.ids@.to_set() =~= self.ids@.to_set().insert(cpu));
            }
            return ;
        }
        self.ids.insert(i, cpu);
        proof {
            let o = old(self)@;
            let n = self@;
            assert forall|c: usize| n.contains(c) <==> (o.contains(c) || c == cpu) by {
                if o.contains(c) {
                    let k = choose|k: int| 0 <= k < o.len() && o[k] == c;
                    if k < i {
                        assert(n[k] == c);
                    } else {
                        assert(n[k + 1] == c);
                    }
                }
                if c == cpu {
                    assert(n[i as int] == c);
                }
                if n.contains(c) {
                    let k = choose|k: int| 0 <= k < n.len() && n[k] == c;
                    if k < i {
                        assert(o[k] == c);
                    } else if k > i {
                        assert(o[k - 1] == c);
                    }
                }
            }
            assert(old(self).wf());
            assert(i < o.len() ==> cpu < o[i as int]);
            if o.contains(cpu) {
                let k = choose|k: int| 0 <= k < o.len() && o[k] == cpu;
                if k < i {
                    assert(o[k] < cpu);
                } else if k > i {
                    assert(o[i as int] < o[k]);
                }
                assert(false);
            }
            assert forall|a: int, b: int| 0 <= a < b < n.len() implies n[a] < n[b] by {
                if b < i {
                    assert(o[a] < o[b]);
                } else if b == i {
                    assert(o[a] < cpu);
                } else if a < i {
                    assert(n[b] == o[b - 1]);
                    assert(o[a] < cpu);
                    if b - 1 > i {
                        assert(o[i as int] < o[b - 1]);
                    }
                } else if a == i {
                    assert(n[b] == o[b - 1]);
                    if b - 1 > i {
                        assert(o[i as int] < o[b - 1]);
                    }
                } else {
                    assert(n[a] == o[a - 1]);
                    assert(n[b] == o[b - 1]);
                    assert(o[a - 1] < o[b - 1]);
                }
            }
            assert(n.to_set() =~= o.to_set().insert(cpu));
        }
    }

    /// Adds every core of `other`: set union.
    pub fn extend(&mut self, other: &CpuSet)
        requires
            old(self).wf(),
        ensures
            final(self).wf(),
            final(self).members() == old(self).members().union(other.members()),
    {
        let mut i: usize = 0;
        proof {
            assert(other.ids@.take(0).to_set() =~= Set::<usize>::empty());
            assert(self.members() =~= self.members().union(Set::<usize>::empty()));
        }
        while i < other.ids.len()
            invariant
                i <= other.ids.len(),
                self.wf(),
                self.members() == old(self).members().union(other.ids@.take(i as int).to_set()),
            decreases other.ids.len() - i,
        {
            let cpu: usize = other.ids[i];
            self.insert(cpu);
            proof {
                lemma_one_more(other.ids@, i as int);
                assert(self.members() =~= old(self).members().union(
                    other.ids@.take(i + 1).to_set(),
                ));
            }
            i += 1;
        }
        proof {
            assert(other.ids@.take(i as int) =~= other.ids@);
        }
    }

    /// The set of the cores listed in `ids`, in whatever order they come.
    pub fn from_ids(ids: &Vec<usize>) -> (set: CpuSet)
        ensures
            set.wf(),
            set.members() == ids@.to_set(),
    {
        let mut set = CpuSet::new();
        let mut i: usize = 0;
        proof {
            assert(set.members() =~= ids@.take(0).to_set());
        }
        while i < ids.len()
            invariant
                i <= ids.len(),
                set.wf(),
                set.members() == ids@.take(i as int).to_set(),
            decreases ids.len() - i,
        {
            let cpu: usize = ids[i];
            set.insert(cpu);
            proof {
                lemma_one_more(ids@, i as int);
            }
            i += 1;
        }
        proof {
            assert(ids@.take(i as int) =~= ids@);
        }
        set
    }

    /// The core IDs in ascending order.
    pub fn ids(&self) -> (ids: Vec<usize>)
        ensures
            ids@ == self@,
    {
        let mut ids: Vec<usize> = Vec::new();
        let mut i: usize = 0;
        while i < self.ids.len()
            invariant
                i <= self.ids.len(),
                ids@ == self.ids@.take(i as int),
            decreases self.ids.len() - i,
        {
            ids.push(self.ids[i]);
            proof {
                assert(self.ids@.take(i + 1) =~= self.ids@.take(i as int).push(self.ids@[i as int]));
            }
            i += 1;
        }
        proof {
            assert(self.ids@.take(i as int) =~= self.ids@);
        }
        ids
    }

    /// A second set with the same members.
    pub fn duplicate(&self) -> (set: CpuSet)
        ensures
            set@ == self@,
            self.wf() ==> set.wf(),
    {
        CpuSet { ids: self.ids() }
    }
}

} // verus!
