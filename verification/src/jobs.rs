//! The jobs that the runner keeps going, and what follows each of them.

use vstd::prelude::*;
use rand::seq::SliceRandom;
use crate::chain::Chain;
use crate::delay::{
    job_error_delay, recalculate_delay, remove_data_delay, rescan_delay, spec_rescan_delay,
};

verus! {

/// What the program is asked to do.
#[derive(Debug, Copy, Clone, PartialEq, Eq, Structural)]
pub enum Command {
    /// Import, calculate and remove.
    Run,
    Import,
    Calculate,
    Remove,
}

/// A unit of work. Imports run one per chain; calculation and removal take
/// all chains in one job.
#[derive(Debug, Clone, PartialEq, Eq)]
pub enum Job {
    Import(Chain),
    Calculate(Vec<Chain>),
    Remove(Vec<Chain>),
}

/// A [`Job`] as a mathematical value.
pub enum JobView {
    Import(Chain),
    Calculate(Seq<Chain>),
    Remove(Seq<Chain>),
}

impl View for Job {
    type V = JobView;

    open spec fn view(&self) -> JobView {
        match *self {
            Job::Import(chain) => JobView::Import(chain),
            Job::Calculate(chains) => JobView::Calculate(chains@),
            Job::Remove(chains) => JobView::Remove(chains@),
        }
    }
}

/// The views of a list of jobs.
pub open spec fn job_views(jobs: Seq<Job>) -> Seq<JobView> {
    jobs.map_values(|job: Job| job@)
}

/// The chains to work on: the one that was chosen, or all that are listed.
pub fn get_chains(maybe_chain: Option<Chain>) -> (chains: Vec<Chain>)
    ensures
        chains@ == match maybe_chain {
            Some(chain) => seq![chain],
            None => Chain::spec_all_chains(),
        },
{
    match maybe_chain {
        Some(chain) => {
            let chains = vec![chain];
            assert(chains@ =~= seq![chain]);
            chains
        },
        None => Chain::all_chains(),
    }
}

/// The jobs that a command starts with: one import per chain, in the order
/// of `chains`; one calculation over all chains; one removal over all
/// chains; and for `Run` all of these, in this order.
pub open spec fn initial_jobs(chains: Seq<Chain>, cmd: Command) -> Seq<JobView> {
    match cmd {
        Command::Run => chains.map_values(|chain: Chain| JobView::Import(chain)) + seq![
            JobView::Calculate(chains),
            JobView::Remove(chains),
        ],
        Command::Import => chains.map_values(|chain: Chain| JobView::Import(chain)),
        Command::Calculate => seq![JobView::Calculate(chains)],
        Command::Remove => seq![JobView::Remove(chains)],
    }
}

fn import_jobs(chains: &Vec<Chain>) -> (jobs: Vec<Job>)
    ensures
        job_views(jobs@) == initial_jobs(chains@, Command::Import),
{
    let mut jobs: Vec<Job> = Vec::new();
    let mut at: usize = 0;
    while at < chains.len()
        invariant
            at <= chains.len(),
            jobs@.len() == at,
            forall|i: int| 0 <= i < at ==> (#[trigger] jobs@[i])@ == JobView::Import(chains@[i]),
        decreases chains.len() - at,
    {
        jobs.push(Job::Import(chains[at]));
        at += 1;
    }
    assert(job_views(jobs@) =~= initial_jobs(chains@, Command::Import));
    jobs
}

fn copy_of(chains: &Vec<Chain>) -> (copy: Vec<Chain>)
    ensures
        copy@ == chains@,
{
    let mut copy: Vec<Chain> = Vec::new();
    let mut at: usize = 0;
    while at < chains.len()
        invariant
            at <= chains.len(),
            copy@ == chains@.take(at as int),
        decreases chains.len() - at,
    {
        copy.push(chains[at]);
        assert(chains@.take(at + 1) =~= chains@.take(at as int).push(chains@[at as int]));
        at += 1;
    }
    assert(chains@.take(chains.len() as int) =~= chains@);
    copy
}

/// The jobs that the runner is seeded with.
pub fn init_jobs(chains: &Vec<Chain>, cmd: Command) -> (jobs: Vec<Job>)
    ensures
        job_views(jobs@) == initial_jobs(chains@, cmd),
{
    match cmd {
        Command::Run => {
            let mut jobs = import_jobs(chains);
            let ghost imports = jobs@;
            jobs.push(Job::Calculate(copy_of(chains)));
            jobs.push(Job::Remove(copy_of(chains)));
            assert(job_views(jobs@) =~= job_views(imports) + seq![
                JobView::Calculate(chains@),
                JobView::Remove(chains@),
            ]);
            jobs
        },
        Command::Import => import_jobs(chains),
        Command::Calculate => {
            let jobs = vec![Job::Calculate(copy_of(chains))];
            assert(job_views(jobs@) =~= seq![JobView::Calculate(chains@)]);
            jobs
        },
        Command::Remove => {
            let jobs = vec![Job::Remove(copy_of(chains))];
            assert(job_views(jobs@) =~= seq![JobView::Remove(chains@)]);
            jobs
        },
    }
}

/// `rand::seq::SliceRandom::shuffle` with the generator of the thread: the
/// elements are swapped among themselves, so the list holds afterwards what
/// it held before, each chain as often. In which order is left open.
#[verifier::external_body]
fn shuffle(chains: &mut Vec<Chain>)
    ensures
        final(chains)@.to_multiset() == old(chains)@.to_multiset(),
{
    chains.shuffle(&mut rand::thread_rng());
}

/// The order in which a removal job takes its chains: a random one, each
/// chain once for each time it is named.
pub fn removal_order(chains: Vec<Chain>) -> (order: Vec<Chain>)
    ensures
        order@.to_multiset() == chains@.to_multiset(),
        order@.len() == chains@.len(),
{
    let mut order = chains;
    shuffle(&mut order);
    proof {
        order@.to_multiset_ensures();
        chains@.to_multiset_ensures();
    }
    order
}

/// How long to wait once a job has ended, before what follows it is run,
/// in ms and before jitter: after a failure the retry delay; after an
/// import the rescan delay of its chain; after a calculation or a removal
/// the gap between two rounds.
pub open spec fn wait_after(job: JobView, succeeded: bool) -> u64 {
    if !succeeded {
        1000
    } else {
        match job {
            JobView::Import(chain) => spec_rescan_delay(chain),
            JobView::Calculate(_) => 5000,
            JobView::Remove(_) => 86_400_000,
        }
    }
}

impl Job {
    /// The wait between the end of this job and what follows it.
    pub fn delay_after(&self, succeeded: bool) -> (delay: u64)
        ensures
            delay == wait_after(self@, succeeded),
    {
        if !succeeded {
            job_error_delay()
        } else {
            match self {
                Job::Import(chain) => rescan_delay(*chain),
                Job::Calculate(_) => recalculate_delay(),
                Job::Remove(_) => remove_data_delay(),
            }
        }
    }

    /// The jobs that follow this one: the job itself, whether it succeeded
    /// or failed, so that each kind of work goes on for ever and each chain
    /// has one import job at any time.
    pub fn successors(self, succeeded: bool) -> (new_jobs: Vec<Job>)
        ensures
            new_jobs@.len() == 1,
            new_jobs@[0] == self,
    {
        vec![self]
    }
}

/// The addresses of the remote nodes, as configured: a map from chain to
/// address, kept as a list of entries in which no chain occurs twice.
#[derive(Debug, Clone, PartialEq, Eq)]
pub struct RpcConfig {
    pub chains: Vec<(Chain, String)>,
}

/// The index of the first entry for `chain`, or the number of entries
/// where there is none.
pub open spec fn entry_of(entries: Seq<(Chain, String)>, chain: Chain) -> int
    decreases entries.len(),
{
    if entries.len() == 0 {
        0
    } else if entries[0].0 == chain {
        0
    } else {
        1 + entry_of(entries.drop_first(), chain)
    }
}

/// No chain has two entries.
pub open spec fn distinct_chains(entries: Seq<(Chain, String)>) -> bool {
    forall|i: int, j: int|
        0 <= i < j < entries.len() ==> (#[trigger] entries[i]).0 != (#[trigger] entries[j]).0
}

proof fn lemma_entry_of(entries: Seq<(Chain, String)>, chain: Chain, at: int)
    requires
        0 <= at <= entries.len(),
        forall|i: int| 0 <= i < at ==> (#[trigger] entries[i]).0 != chain,
        at < entries.len() ==> entries[at].0 == chain,
    ensures
        entry_of(entries, chain) == at,
    decreases entries.len(),
{
    if entries.len() > 0 && at > 0 {
        let rest = entries.drop_first();
        assert(entries[0].0 != chain);
        assert forall|i: int| 0 <= i < at - 1 implies (#[trigger] rest[i]).0 != chain by {
            assert(rest[i] == entries[i + 1]);
        }
        lemma_entry_of(rest, chain, at - 1);
    }
}

/// The entry that is found for a chain is the first for it.
proof fn lemma_entry_is_first(entries: Seq<(Chain, String)>, chain: Chain)
    ensures
        0 <= entry_of(entries, chain) <= entries.len(),
        forall|i: int| 0 <= i < entry_of(entries, chain) ==> (#[trigger] entries[i]).0 != chain,
        entry_of(entries, chain) < entries.len() ==> entries[entry_of(entries, chain)].0
            == chain,
    decreases entries.len(),
{
    if entries.len() > 0 && entries[0].0 != chain {
        let rest = entries.drop_first();
        lemma_entry_is_first(rest, chain);
        assert forall|i: int| 0 <= i < entry_of(entries, chain) implies (#[trigger] entries[i]).0
            != chain by {
            if i > 0 {
                assert(rest[i - 1] == entries[i]);
            }
        }
    }
}

impl View for RpcConfig {
    type V = Map<Chain, Seq<char>>;

    /// The map that the entries stand for: each chain with an entry, and
    /// the address of its first entry.
    open spec fn view(&self) -> Map<Chain, Seq<char>> {
        Map::new(
            |chain: Chain| entry_of(self.chains@, chain) < self.chains@.len(),
            |chain: Chain| self.chains@[entry_of(self.chains@, chain)].1@,
        )
    }
}

impl RpcConfig {
    /// The list is a map: no chain has two entries.
    pub open spec fn wf(&self) -> bool {
        distinct_chains(self.chains@)
    }

    /// A configuration without entries.
    pub fn new() -> (rpc_config: RpcConfig)
        ensures
            rpc_config.wf(),
            rpc_config@ == Map::<Chain, Seq<char>>::empty(),
            rpc_config.chains@.len() == 0,
    {
        let rpc_config = RpcConfig { chains: Vec::new() };
        assert(rpc_config@ =~= Map::<Chain, Seq<char>>::empty());
        rpc_config
    }

    /// Sets the address of `chain`, in place of the one it had if it had
    /// one. No other chain is touched, and no chain comes to have two
    /// entries.
    pub fn insert(&mut self, chain: Chain, url: String)
        ensures
            final(self)@ == old(self)@.insert(chain, url@),
            old(self).wf() ==> final(self).wf(),
    {
        let ghost before = self.chains@;
        let mut at: usize = 0;
        while at < self.chains.len() && !(self.chains[at].0 == chain)
            invariant
                self.chains@ == before,
                at <= before.len(),
                forall|i: int| 0 <= i < at ==> (#[trigger] before[i]).0 != chain,
            decreases before.len() - at,
        {
            at += 1;
        }
        proof {
            lemma_entry_of(before, chain, at as int);
        }
        if at < self.chains.len() {
            self.chains.set(at, (chain, url));
        } else {
            self.chains.push((chain, url));
        }
        proof {
            let after = self.chains@;
            lemma_entry_of(after, chain, at as int);
            assert forall|other: Chain| other != chain implies entry_of(after, other) == (if entry_of(
                before,
                other,
            ) < before.len() {
                entry_of(before, other)
            } else {
                after.len() as int
            }) by {
                lemma_entry_is_first(before, other);
                let found = entry_of(before, other);
                if found < before.len() {
                    assert forall|i: int| 0 <= i < found implies (#[trigger] after[i]).0
                        != other by {
                        assert(before[i].0 != other);
                    }
                    lemma_entry_of(after, other, found);
                } else {
                    assert forall|i: int| 0 <= i < after.len() implies (#[trigger] after[i]).0
                        != other by {
                        if i < before.len() {
                            assert(before[i].0 != other);
                        }
                    }
                    lemma_entry_of(after, other, after.len() as int);
                }
            }
            assert forall|other: Chain| #[trigger]
                self@.dom().contains(other) == old(self)@.insert(chain, url@).dom().contains(
                    other,
                ) by {}
            assert forall|other: Chain| self@.dom().contains(other) implies #[trigger] self@[other]
                == old(self)@.insert(chain, url@)[other] by {
                if other != chain {
                    lemma_entry_is_first(before, other);
                    assert(after[entry_of(before, other)] == before[entry_of(before, other)]);
                }
            }
            assert(self@ =~= old(self)@.insert(chain, url@));
            if old(self).wf() {
                assert forall|i: int, j: int| 0 <= i < j < after.len() implies (#[trigger] after[i]).0
                    != (#[trigger] after[j]).0 by {
                    if i < before.len() && j < before.len() {
                        assert(before[i].0 != before[j].0);
                    }
                }
            }
        }
    }
}

/// The address configured for `chain`, where it has one; a chain without
/// one cannot be run. It is the address of the first entry for the chain,
/// which is the only one where no chain has two.
pub fn get_rpc_url<'a>(chain: Chain, rpc_config: &'a RpcConfig) -> (url: Option<&'a String>)
    ensures
        match url {
            Some(url) => rpc_config@.dom().contains(chain) && rpc_config@[chain] == url@,
            None => !rpc_config@.dom().contains(chain),
        },
        match url {
            Some(url) => {
                let at = entry_of(rpc_config.chains@, chain);
                &&& at < rpc_config.chains@.len() && rpc_config.chains@[at] == (chain, *url)
                &&& rpc_config.wf() ==> forall|i: int|
                    0 <= i < rpc_config.chains@.len() && (#[trigger] rpc_config.chains@[i]).0
                        == chain ==> i == at
            },
            None => forall|i: int|
                0 <= i < rpc_config.chains@.len() ==> (#[trigger] rpc_config.chains@[i]).0
                    != chain,
        },
{
    let mut at: usize = 0;
    while at < rpc_config.chains.len()
        invariant
            at <= rpc_config.chains@.len(),
            forall|i: int| 0 <= i < at ==> (#[trigger] rpc_config.chains@[i]).0 != chain,
        decreases rpc_config.chains@.len() - at,
    {
        if rpc_config.chains[at].0 == chain {
            proof {
                lemma_entry_of(rpc_config.chains@, chain, at as int);
            }
            return Some(&rpc_config.chains[at].1);
        }
        at += 1;
    }
    proof {
        lemma_entry_of(rpc_config.chains@, chain, at as int);
    }
    None
}

} // verus!
