use enclave_allocator::configuration::crystal_clear;
use enclave_allocator::configuration::get_cpu_pool;
use enclave_allocator::configuration::get_resource_pool;
use enclave_allocator::configuration::ResourcePool;
use enclave_allocator::resources::cpu;
use enclave_allocator::resources::cpu::Candidate;
use enclave_allocator::resources::cpu::CpuSet;
use enclave_allocator::resources::cpu_list::parse_cpu_list;
use enclave_allocator::resources::engine::Attempt;
use enclave_allocator::resources::engine::Command;
use enclave_allocator::resources::engine::Reply;
use enclave_allocator::resources::engine::Step;
use enclave_allocator::resources::huge_pages;
use enclave_allocator::resources::Allocation;
use enclave_allocator::resources::Error;
use enclave_allocator::resources::UNCONSTRAINED;

/// One NUMA node of a host that exists only in memory.
struct Node {
    id: usize,
    free_cpus: Vec<usize>,
    free_mib: usize,
}

/// A provider that keeps its books in memory and counts its calls.
struct Host {
    nodes: Vec<Node>,
    reserved_cpus: Vec<usize>,
    memory_failure: Option<huge_pages::Error>,
    cpu_failure: Option<cpu::Error>,
    page_reserve_calls: usize,
    pages_created: usize,
    pages_released: usize,
    cpu_reserve_calls: usize,
    release_all_calls: Vec<usize>,
    deallocated: Vec<Vec<usize>>,
    trials: Vec<usize>,
}

fn host(nodes: Vec<(usize, Vec<usize>, usize)>) -> Host {
    Host {
        nodes: nodes
            .into_iter()
            .map(|(id, free_cpus, free_mib)| Node { id, free_cpus, free_mib })
            .collect(),
        reserved_cpus: Vec::new(),
        memory_failure: None,
        cpu_failure: None,
        page_reserve_calls: 0,
        pages_created: 0,
        pages_released: 0,
        cpu_reserve_calls: 0,
        release_all_calls: Vec::new(),
        deallocated: Vec::new(),
        trials: Vec::new(),
    }
}

impl Host {
    fn node_of(&self, cpu_id: usize) -> Option<usize> {
        self.nodes.iter().find(|n| n.free_cpus.contains(&cpu_id)).map(|n| n.id)
    }

    fn answer(&mut self, command: Command) -> Reply {
        match command {
            Command::FindCpuSets { count } => Reply::CpuSets {
                candidates: self
                    .nodes
                    .iter()
                    .filter(|n| n.free_cpus.len() >= count)
                    .map(|n| Candidate {
                        numa_node: n.id,
                        cpu_set: CpuSet::from_ids(&n.free_cpus[..count].to_vec()),
                    })
                    .collect(),
            },
            Command::NumaNodeOf { cpu } => match self.node_of(cpu) {
                Some(numa_node) => Reply::NumaNode { numa_node },
                None => Reply::CpuFailed { error: cpu::Error::UnknownCpu },
            },
            Command::ReserveHugePages { numa_node, memory_mib } => {
                self.page_reserve_calls += 1;
                if self.trials.last() != Some(&numa_node) {
                    self.trials.push(numa_node);
                }
                if let Some(error) = self.memory_failure {
                    return Reply::HugePagesFailed { error };
                }
                let node = self.nodes.iter_mut().find(|n| n.id == numa_node).unwrap();
                if node.free_mib < memory_mib {
                    Reply::HugePagesFailed { error: huge_pages::Error::InsufficientMemory }
                } else {
                    node.free_mib -= memory_mib;
                    self.pages_created += 1;
                    Reply::Done
                }
            }
            Command::ReserveCpuSet { cpu_set } => {
                self.cpu_reserve_calls += 1;
                match self.cpu_failure {
                    Some(error) => Reply::CpuFailed { error },
                    None => {
                        self.reserved_cpus = cpu_set.ids();
                        Reply::Done
                    }
                }
            }
            Command::ReleaseAllHugePages { numa_node } => {
                self.release_all_calls.push(numa_node);
                match self.memory_failure {
                    Some(error) => Reply::HugePagesFailed { error },
                    None => Reply::Done,
                }
            }
            Command::DeallocateCpuSet { cpu_set } => {
                self.deallocated.push(cpu_set.ids());
                Reply::Done
            }
            Command::Finish { .. } => unreachable!(),
        }
    }

    fn run(&mut self, start: (Attempt, Step)) -> Result<Allocation, Error> {
        let (mut attempt, mut step) = start;
        loop {
            for reservation in step.release {
                let node = self.nodes.iter_mut().find(|n| n.id == reservation.numa_node).unwrap();
                node.free_mib += reservation.memory_mib;
                self.pages_released += 1;
            }
            if let Command::Finish { result } = step.command {
                assert!(attempt.is_finished());
                return result;
            }
            let reply = self.answer(step.command);
            assert!(attempt.accepts(&reply));
            step = attempt.step(reply);
        }
    }

    fn reservation_calls(&self) -> usize {
        self.page_reserve_calls + self.cpu_reserve_calls
    }
}

fn counted(memory_mib: usize, cpu_count: usize) -> ResourcePool {
    ResourcePool { memory_mib, cpu_count: Some(cpu_count), cpu_pool: None }
}

fn pinned(memory_mib: usize, cpu_pool: &str) -> ResourcePool {
    ResourcePool { memory_mib, cpu_count: None, cpu_pool: Some(cpu_pool.to_string()) }
}

fn two_nodes() -> Host {
    host(vec![(0, vec![0, 1, 2, 3], 4096), (1, vec![4, 5, 6, 7], 4096)])
}

#[test]
fn second_node_is_taken_when_the_first_is_short_of_memory() {
    let mut provider = host(vec![(0, vec![0, 1, 2], 1000), (1, vec![3, 4, 5], 1 << 20)]);
    let pool = vec![counted(512, 2), counted(1024, 1)];
    let allocation = provider.run(Allocation::find_n_allocate(pool, UNCONSTRAINED)).unwrap();
    assert_eq!(allocation.numa_node, 1);
    assert_eq!(provider.trials, vec![0, 1]);
    assert_eq!(allocation.cpu_set_allocation.ids(), vec![3, 4, 5]);
    assert_eq!(allocation.cpu_count(), 3);
    assert_eq!(
        allocation.huge_pages_allocation,
        vec![
            huge_pages::Allocation { numa_node: 1, memory_mib: 512 },
            huge_pages::Allocation { numa_node: 1, memory_mib: 1024 },
        ]
    );
    assert_eq!(provider.page_reserve_calls, 4);
    assert_eq!(provider.pages_created, 3);
    assert_eq!(provider.pages_released, 1);
    assert_eq!(provider.nodes[0].free_mib, 1000);
    assert_eq!(provider.reserved_cpus, vec![3, 4, 5]);
}

#[test]
fn request_with_both_cpu_options_is_rejected_before_the_engine() {
    let pool = vec![
        counted(512, 2),
        ResourcePool { memory_mib: 256, cpu_count: Some(1), cpu_pool: Some("0-1".to_string()) },
    ];
    let checked = get_resource_pool(pool);
    assert!(matches!(checked, Err(enclave_allocator::error::Error::BothOptionsForCpu)));
}

#[test]
fn valid_requests_pass_validation_unchanged() {
    let checked = get_resource_pool(vec![counted(512, 2), pinned(256, "0-1")]).unwrap();
    assert_eq!(checked.len(), 2);
    assert_eq!(checked[0].memory_mib, 512);
    assert_eq!(checked[0].cpu_count, Some(2));
    assert_eq!(checked[1].cpu_pool, Some("0-1".to_string()));
    assert!(get_resource_pool(Vec::new()).unwrap().is_empty());
}

#[test]
fn find_n_allocate_without_counted_requests_reserves_nothing() {
    let mut provider = two_nodes();
    let allocation = provider.run(Allocation::find_n_allocate(Vec::new(), UNCONSTRAINED)).unwrap();
    assert_eq!(allocation.cpu_count(), 0);
    assert_eq!(allocation.numa_node, UNCONSTRAINED);
    assert_eq!(provider.reservation_calls(), 0);
    let only_pinned = vec![pinned(512, "0-1")];
    assert!(provider.run(Allocation::find_n_allocate(only_pinned, UNCONSTRAINED)).is_ok());
    assert_eq!(provider.reservation_calls(), 0);
}

#[test]
fn find_n_allocate_with_zero_counts_reserves_nothing() {
    let mut provider = two_nodes();
    let pool = vec![counted(512, 0), counted(1024, 0)];
    let allocation = provider.run(Allocation::find_n_allocate(pool, UNCONSTRAINED)).unwrap();
    assert!(allocation.huge_pages_allocation.is_empty());
    assert_eq!(provider.reservation_calls(), 0);
    assert_eq!(provider.pages_released, 0);
}

#[test]
fn pools_on_two_nodes_are_refused_without_any_reservation() {
    let mut provider = two_nodes();
    let pools = vec![pinned(512, "0-1"), pinned(512, "4,5")];
    let outcome = provider.run(Allocation::allocate_by_cpu_pools(pools));
    assert_eq!(outcome.err(), Some(Error::NumaDifference));
    assert_eq!(provider.reservation_calls(), 0);
    assert_eq!(provider.pages_released, 0);
}

#[test]
fn lower_node_is_chosen_when_both_can_serve() {
    let mut provider = two_nodes();
    let allocation =
        provider.run(Allocation::find_n_allocate(vec![counted(512, 2)], UNCONSTRAINED)).unwrap();
    assert_eq!(allocation.numa_node, 0);
    assert_eq!(provider.trials, vec![0]);
    assert_eq!(allocation.cpu_set_allocation.ids(), vec![0, 1]);
    let mut single = two_nodes();
    let allocation = single.run(Allocation::new(3, 100)).unwrap();
    assert_eq!(allocation.numa_node, 0);
    assert_eq!(allocation.cpu_count(), 3);
}

#[test]
fn target_node_restricts_the_search() {
    let mut provider = two_nodes();
    let allocation = provider.run(Allocation::find_n_allocate(vec![counted(512, 2)], 1)).unwrap();
    assert_eq!(allocation.numa_node, 1);
    assert_eq!(provider.trials, vec![1]);
    let mut other = two_nodes();
    let outcome = other.run(Allocation::find_n_allocate(vec![counted(512, 2)], 7));
    assert_eq!(outcome.err(), Some(Error::Allocation));
    assert_eq!(other.reservation_calls(), 0);
}

#[test]
fn reset_without_a_reserved_pool_releases_nothing() {
    let mut provider = two_nodes();
    assert!(provider.run(crystal_clear(None)).is_ok());
    assert!(provider.release_all_calls.is_empty());
    assert!(provider.deallocated.is_empty());
}

#[test]
fn reset_releases_the_node_and_the_whole_pool() {
    let mut provider = two_nodes();
    let reserved = CpuSet::from_ids(&vec![6, 5]);
    assert!(provider.run(crystal_clear(Some(reserved))).is_ok());
    assert_eq!(provider.release_all_calls, vec![1]);
    assert_eq!(provider.deallocated, vec![vec![5, 6]]);
}

#[test]
fn reset_returns_the_pool_though_the_pages_cannot_be_released() {
    let mut provider = two_nodes();
    provider.memory_failure = Some(huge_pages::Error::Io { code: 13 });
    let outcome = provider.run(crystal_clear(Some(CpuSet::from_ids(&vec![1, 3]))));
    assert_eq!(outcome.err(), Some(Error::HugePage(huge_pages::Error::Io { code: 13 })));
    assert_eq!(provider.release_all_calls, vec![0]);
    assert_eq!(provider.deallocated, vec![vec![1, 3]]);
}

#[test]
fn reset_reports_the_failed_release_step_by_step() {
    let (mut attempt, step) = crystal_clear(Some(CpuSet::from_ids(&vec![5, 4])));
    assert!(matches!(step.command, Command::NumaNodeOf { cpu: 4 }));
    let step = attempt.step(Reply::NumaNode { numa_node: 1 });
    assert!(matches!(step.command, Command::ReleaseAllHugePages { numa_node: 1 }));
    let failure = huge_pages::Error::Io { code: 5 };
    assert!(attempt.accepts(&Reply::HugePagesFailed { error: failure }));
    let step = attempt.step(Reply::HugePagesFailed { error: failure });
    match step.command {
        Command::DeallocateCpuSet { cpu_set } => assert_eq!(cpu_set.ids(), vec![4, 5]),
        other => panic!("{:?}", other),
    }
    assert!(!attempt.is_finished());
    let step = attempt.step(Reply::CpuFailed { error: cpu::Error::Io { code: 1 } });
    assert!(attempt.is_finished());
    assert!(step.release.is_empty());
    match step.command {
        Command::Finish { result } => assert_eq!(result.err(), Some(Error::HugePage(failure))),
        other => panic!("{:?}", other),
    }
}

#[test]
fn reset_passes_on_an_unknown_core() {
    let mut provider = two_nodes();
    let outcome = provider.run(crystal_clear(Some(CpuSet::from_ids(&vec![99]))));
    assert_eq!(outcome.err(), Some(Error::Cpu(cpu::Error::UnknownCpu)));
    assert!(provider.release_all_calls.is_empty());
}

#[test]
fn cpu_failure_releases_every_page_of_the_attempt() {
    let mut provider = two_nodes();
    provider.cpu_failure = Some(cpu::Error::Io { code: 5 });
    let pool = vec![counted(512, 1), counted(256, 1), counted(128, 1)];
    let outcome = provider.run(Allocation::find_n_allocate(pool, UNCONSTRAINED));
    assert_eq!(outcome.err(), Some(Error::Cpu(cpu::Error::InsufficientCpuPool)));
    assert_eq!(provider.pages_created, 3);
    assert_eq!(provider.pages_released, 3);
    assert_eq!(provider.cpu_reserve_calls, 1);
    assert_eq!(provider.trials, vec![0]);
    assert_eq!(provider.nodes[0].free_mib, 4096);
}

#[test]
fn single_request_passes_the_cpu_failure_on() {
    let mut provider = two_nodes();
    provider.cpu_failure = Some(cpu::Error::Io { code: 5 });
    let outcome = provider.run(Allocation::new(2, 512));
    assert_eq!(outcome.err(), Some(Error::Cpu(cpu::Error::Io { code: 5 })));
    assert_eq!(provider.pages_created, 1);
    assert_eq!(provider.pages_released, 1);
}

#[test]
fn fatal_memory_failure_ends_the_search() {
    let mut provider = two_nodes();
    provider.memory_failure = Some(huge_pages::Error::Io { code: 2 });
    let outcome = provider.run(Allocation::find_n_allocate(vec![counted(512, 1)], UNCONSTRAINED));
    assert_eq!(outcome.err(), Some(Error::HugePage(huge_pages::Error::Io { code: 2 })));
    assert_eq!(provider.trials, vec![0]);
    assert_eq!(provider.pages_created, provider.pages_released);
}

#[test]
fn no_node_with_enough_memory_is_infeasible() {
    let mut provider = host(vec![(0, vec![0, 1], 600), (1, vec![2, 3], 700)]);
    let pool = vec![counted(512, 1), counted(512, 1)];
    let outcome = provider.run(Allocation::find_n_allocate(pool, UNCONSTRAINED));
    assert_eq!(outcome.err(), Some(Error::Allocation));
    assert_eq!(provider.trials, vec![0, 1]);
    assert_eq!(provider.pages_created, 2);
    assert_eq!(provider.pages_released, 2);
    assert_eq!(provider.cpu_reserve_calls, 0);
}

#[test]
fn no_node_with_enough_cores_is_infeasible() {
    let mut provider = two_nodes();
    let outcome = provider.run(Allocation::new(5, 512));
    assert_eq!(outcome.err(), Some(Error::Allocation));
    assert_eq!(provider.reservation_calls(), 0);
}

#[test]
fn demand_beyond_the_machine_word_is_infeasible() {
    let mut provider = two_nodes();
    let pool = vec![counted(1, usize::MAX), counted(1, 1)];
    let outcome = provider.run(Allocation::find_n_allocate(pool, UNCONSTRAINED));
    assert_eq!(outcome.err(), Some(Error::Allocation));
    assert_eq!(provider.reservation_calls(), 0);
}

#[test]
fn pinned_requests_reserve_the_union_on_their_node() {
    let mut provider = two_nodes();
    let pools = vec![pinned(512, "6-7"), counted(64, 1), pinned(256, "4,6")];
    let allocation = provider.run(Allocation::allocate_by_cpu_pools(pools)).unwrap();
    assert_eq!(allocation.numa_node, 1);
    assert_eq!(allocation.cpu_set_allocation.ids(), vec![4, 6, 7]);
    assert_eq!(provider.reserved_cpus, vec![4, 6, 7]);
    assert_eq!(
        allocation.huge_pages_allocation,
        vec![
            huge_pages::Allocation { numa_node: 1, memory_mib: 512 },
            huge_pages::Allocation { numa_node: 1, memory_mib: 256 },
        ]
    );
    assert_eq!(provider.pages_released, 0);
}

#[test]
fn no_pinned_request_gives_the_unconstrained_node() {
    let mut provider = two_nodes();
    let allocation = provider.run(Allocation::allocate_by_cpu_pools(vec![counted(64, 1)])).unwrap();
    assert_eq!(allocation.numa_node, UNCONSTRAINED);
    assert_eq!(UNCONSTRAINED, usize::MAX);
    assert_eq!(provider.reservation_calls(), 0);
}

#[test]
fn pinned_requests_do_not_move_to_another_node() {
    let mut provider = host(vec![(0, vec![0, 1], 600), (1, vec![2, 3], 4096)]);
    let pools = vec![pinned(512, "0"), pinned(512, "1")];
    let outcome = provider.run(Allocation::allocate_by_cpu_pools(pools));
    assert_eq!(outcome.err(), Some(Error::Allocation));
    assert_eq!(provider.trials, vec![0]);
    assert_eq!(provider.pages_created, 1);
    assert_eq!(provider.pages_released, 1);
}

#[test]
fn pinned_cpu_failure_is_an_insufficient_pool() {
    let mut provider = two_nodes();
    provider.cpu_failure = Some(cpu::Error::UnknownCpu);
    let outcome = provider.run(Allocation::allocate_by_cpu_pools(vec![pinned(512, "0-1")]));
    assert_eq!(outcome.err(), Some(Error::Cpu(cpu::Error::InsufficientCpuPool)));
    assert_eq!(provider.pages_created, 1);
    assert_eq!(provider.pages_released, 1);
}

#[test]
fn malformed_list_and_unknown_core_are_passed_on() {
    let mut provider = two_nodes();
    let outcome = provider.run(Allocation::allocate_by_cpu_pools(vec![pinned(512, "0-x")]));
    assert_eq!(outcome.err(), Some(Error::Cpu(cpu::Error::MalformedCpuList)));
    let outcome = provider.run(Allocation::allocate_by_cpu_pools(vec![pinned(512, "40")]));
    assert_eq!(outcome.err(), Some(Error::Cpu(cpu::Error::UnknownCpu)));
    assert_eq!(provider.reservation_calls(), 0);
}

#[test]
fn resolved_node_scopes_the_counted_requests() {
    let mut provider = two_nodes();
    let pool = vec![pinned(512, "6-7"), counted(256, 2)];
    let copy = vec![pinned(512, "6-7"), counted(256, 2)];
    let node = provider.run(Allocation::allocate_by_cpu_pools(pool)).unwrap().numa_node;
    let allocation = provider.run(Allocation::find_n_allocate(copy, node)).unwrap();
    assert_eq!(allocation.numa_node, 1);
    assert_eq!(provider.nodes[1].free_mib, 4096 - 512 - 256);
}

#[test]
fn replies_out_of_turn_are_not_accepted() {
    let (attempt, step) = Allocation::new(2, 512);
    assert!(matches!(step.command, Command::FindCpuSets { count: 2 }));
    assert!(step.release.is_empty());
    assert!(!attempt.is_finished());
    assert!(!attempt.accepts(&Reply::Done));
    assert!(!attempt.accepts(&Reply::NumaNode { numa_node: 0 }));
    assert!(attempt.accepts(&Reply::CpuFailed { error: cpu::Error::UnknownCpu }));
    let (attempt, step) = Allocation::allocate_by_cpu_pools(vec![pinned(1, "7,3-5")]);
    assert!(matches!(step.command, Command::NumaNodeOf { cpu: 3 }));
    assert!(!attempt.accepts(&Reply::Done));
    assert!(attempt.accepts(&Reply::NumaNode { numa_node: 0 }));
    let (attempt, _) = crystal_clear(None);
    assert!(attempt.is_finished());
    assert!(!attempt.accepts(&Reply::Done));
}

#[test]
fn cpu_sets_are_ordered_and_without_repetition() {
    let mut set = CpuSet::new();
    assert_eq!(set.first(), None);
    assert_eq!(set.len(), 0);
    set.insert(8);
    set.insert(2);
    set.insert(5);
    set.insert(2);
    assert_eq!(set.ids(), vec![2, 5, 8]);
    assert_eq!(set.first(), Some(2));
    assert_eq!(set.len(), 3);
    set.extend(&CpuSet::from_ids(&vec![9, 5, 0]));
    assert_eq!(set.ids(), vec![0, 2, 5, 8, 9]);
    assert_eq!(set.duplicate().ids(), set.ids());
    assert_eq!(CpuSet::from_ids(&vec![3, 1, 3, 2, 1]).ids(), vec![1, 2, 3]);
}

#[test]
fn errors_have_their_messages() {
    assert_eq!(
        Error::Allocation.message(),
        "failed to find suitable combination of CPUs and memory"
    );
    assert_eq!(
        Error::NumaDifference.message(),
        "Config file cannot include cpus from different numa nodes"
    );
    assert_eq!(
        enclave_allocator::error::Error::Allocation(Error::NumaDifference).message(),
        "Config file cannot include cpus from different numa nodes"
    );
    assert_eq!(
        enclave_allocator::error::Error::BothOptionsForCpu.message(),
        "Config file cannot include cpu_count and cpu_pool tag at the same time"
    );
    assert_eq!(
        enclave_allocator::error::Error::NitroCli("down".to_string()).message(),
        "Nitro CLI error: down"
    );
}

fn cores(text: &str) -> Option<Vec<usize>> {
    parse_cpu_list(text).ok().map(|set| set.ids())
}

#[test]
fn cpu_lists_name_ids_and_ranges() {
    assert_eq!(cores("0-3,8"), Some(vec![0, 1, 2, 3, 8]));
    assert_eq!(cores("5"), Some(vec![5]));
    assert_eq!(cores("8,0-3"), Some(vec![0, 1, 2, 3, 8]));
    assert_eq!(cores("2-4,3-6,2"), Some(vec![2, 3, 4, 5, 6]));
    assert_eq!(cores("7-7"), Some(vec![7]));
    assert_eq!(cores("007"), Some(vec![7]));
    assert_eq!(cores("1,3\n"), Some(vec![1, 3]));
    assert_eq!(cores("18446744073709551615"), Some(vec![usize::MAX]));
}

#[test]
fn malformed_cpu_lists_are_refused() {
    for text in [
        "", "\n", ",", "1,", ",1", "1,,2", "-", "1-", "-1", "1-2-3", "3-1", "a", "1 ,2", " 1",
        "1\n\n", "1;2", "18446744073709551616", "0-18446744073709551616", "1\n2",
    ] {
        assert_eq!(parse_cpu_list(text).err(), Some(cpu::Error::MalformedCpuList), "{:?}", text);
    }
}

#[test]
fn insert_range_adds_both_ends() {
    let mut set = CpuSet::from_ids(&vec![4, 10]);
    set.insert_range(3, 5);
    assert_eq!(set.ids(), vec![3, 4, 5, 10]);
    set.insert_range(9, 8);
    assert_eq!(set.ids(), vec![3, 4, 5, 10]);
    set.insert_range(usize::MAX - 1, usize::MAX);
    assert_eq!(set.ids(), vec![3, 4, 5, 10, usize::MAX - 1, usize::MAX]);
}

#[test]
fn reserved_pool_is_read_from_the_hosts_text() {
    assert!(matches!(get_cpu_pool(""), Ok(None)));
    assert!(matches!(get_cpu_pool(" \n"), Ok(None)));
    assert!(matches!(get_cpu_pool("\u{a0}"), Ok(None)));
    assert!(matches!(get_cpu_pool("\t\u{3000}\u{2003}\u{85}\r\n"), Ok(None)));
    assert!(get_cpu_pool("\u{a0}1").is_err());
    assert!(get_cpu_pool("\u{200b}").is_err());
    assert_eq!(get_cpu_pool("1,3\n").unwrap().unwrap().ids(), vec![1, 3]);
    assert!(matches!(
        get_cpu_pool("1,x\n"),
        Err(enclave_allocator::error::Error::Allocation(Error::Cpu(
            cpu::Error::MalformedCpuList
        )))
    ));
}

#[test]
fn reset_follows_the_pool_that_the_host_reports() {
    let mut provider = two_nodes();
    let reserved = get_cpu_pool("4-5\n").unwrap();
    assert!(provider.run(crystal_clear(reserved)).is_ok());
    assert_eq!(provider.release_all_calls, vec![1]);
    assert_eq!(provider.deallocated, vec![vec![4, 5]]);
}

#[test]
fn later_malformed_list_ends_the_attempt_without_reservation() {
    let mut provider = two_nodes();
    let pools = vec![pinned(512, "0-1"), pinned(512, "2-")];
    let outcome = provider.run(Allocation::allocate_by_cpu_pools(pools));
    assert_eq!(outcome.err(), Some(Error::Cpu(cpu::Error::MalformedCpuList)));
    assert_eq!(provider.reservation_calls(), 0);
}

#[test]
fn reserved_memory_stays_within_the_node() {
    let mut exact = host(vec![(0, vec![0, 1, 2], 1536), (1, vec![3, 4, 5], 4096)]);
    let pool = vec![counted(512, 2), counted(1024, 1)];
    let allocation = exact.run(Allocation::find_n_allocate(pool.clone(), UNCONSTRAINED)).unwrap();
    assert_eq!(allocation.numa_node, 0);
    assert_eq!(exact.nodes[0].free_mib, 0);
    assert_eq!(exact.nodes[1].free_mib, 4096);
    let held: usize = allocation.huge_pages_allocation.iter().map(|r| r.memory_mib).sum();
    assert_eq!(held, 1536);

    let mut short = host(vec![(0, vec![0, 1, 2], 1535), (1, vec![3, 4, 5], 4096)]);
    let allocation = short.run(Allocation::find_n_allocate(pool, UNCONSTRAINED)).unwrap();
    assert_eq!(allocation.numa_node, 1);
    assert_eq!(short.nodes[0].free_mib, 1535);
    assert_eq!(short.nodes[1].free_mib, 4096 - 1536);
    assert_eq!(short.pages_created - short.pages_released, 2);
}

#[test]
fn every_failure_has_a_message() {
    assert_eq!(
        enclave_allocator::error::Error::ConfigFileCorruption.message(),
        "Invalid config file: This might happened due to old config file or config file corruption. See release notes :"
    );
    assert_eq!(
        enclave_allocator::error::Error::ParseInt.message(),
        "invalid digit found in string"
    );
    assert_eq!(
        enclave_allocator::error::Error::TryFromInt.message(),
        "out of range integral type conversion attempted"
    );
    assert_eq!(Error::Cpu(cpu::Error::InsufficientCpuPool).message(), "insufficient CPU pool");
    assert_eq!(Error::Cpu(cpu::Error::MalformedCpuList).message(), "malformed CPU list");
    assert_eq!(Error::Cpu(cpu::Error::UnknownCpu).message(), "unknown CPU");
    assert_eq!(Error::Cpu(cpu::Error::Io { code: 1 }).message(), "CPU provider failure");
    assert_eq!(
        Error::HugePage(huge_pages::Error::InsufficientMemory).message(),
        "insufficient memory"
    );
    assert_eq!(
        Error::HugePage(huge_pages::Error::Io { code: 1 }).message(),
        "huge page provider failure"
    );
}
