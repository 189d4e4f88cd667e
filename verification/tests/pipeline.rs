use realtps::calculate::{
    calculate_for_chain, calculate_start, calculate_tps, CalcState, CalculateError, Calculation,
    Tps, SECONDS_PER_WEEK,
};
use realtps::chain::Chain;
use realtps::db::Block;
use realtps::task::{Action, Event, Step};
use realtps::import::{import, import_start, ImportError, ImportOutcome};
use realtps::remove::{remove_old_data_for_chain, remove_start, RemoveError};
use std::collections::HashMap;

/// Storage and remote node in memory, with a record of what was asked.
struct World {
    blocks: HashMap<(Chain, u64), Block>,
    highest: HashMap<Chain, u64>,
    remote_head: u64,
    remote_blocks: HashMap<u64, Block>,
    fetched: Vec<u64>,
    stored: Vec<u64>,
    removed: Vec<u64>,
    highest_writes: usize,
    paces: usize,
}

impl World {
    fn new() -> World {
        World {
            blocks: HashMap::new(),
            highest: HashMap::new(),
            remote_head: 0,
            remote_blocks: HashMap::new(),
            fetched: Vec::new(),
            stored: Vec::new(),
            removed: Vec::new(),
            highest_writes: 0,
            paces: 0,
        }
    }

    fn perform(&mut self, action: Action) -> Event {
        match action {
            Action::LoadHighestBlockNumber(chain) => {
                Event::HighestBlockNumber(self.highest.get(&chain).copied())
            }
            Action::FetchLatestBlockNumber(_) => Event::LatestBlockNumber(self.remote_head),
            Action::FetchBlock(_, number) => {
                self.fetched.push(number);
                Event::Fetched(self.remote_blocks.get(&number).cloned())
            }
            Action::LoadBlock(chain, number) => {
                Event::Loaded(self.blocks.get(&(chain, number)).cloned())
            }
            Action::StoreBlock(block) => {
                self.stored.push(block.block_number);
                self.blocks.insert((block.chain, block.block_number), block);
                Event::Done
            }
            Action::StoreHighestBlockNumber(chain, number) => {
                self.highest_writes += 1;
                self.highest.insert(chain, number);
                Event::Done
            }
            Action::RemoveBlocks(chain, numbers) => {
                for number in numbers {
                    self.removed.push(number);
                    self.blocks.remove(&(chain, number));
                }
                Event::Done
            }
            Action::Pace(_) => {
                self.paces += 1;
                Event::Done
            }
        }
    }

    fn import(&mut self, chain: Chain) -> Result<ImportOutcome, ImportError> {
        let (mut state, mut action) = import_start(chain);
        for _ in 0..10_000 {
            let event = self.perform(action);
            match import(state, event) {
                Step::Next(next, request) => {
                    state = next;
                    action = request;
                }
                Step::Finished(outcome) => return Ok(outcome),
                Step::Failed(error) => return Err(error),
            }
        }
        panic!("the pass did not end");
    }

    fn calculate(&mut self, chain: Chain) -> Result<Calculation, CalculateError> {
        let (mut state, mut action) = calculate_start(chain);
        for _ in 0..10_000 {
            let event = self.perform(action);
            match calculate_for_chain(state, event) {
                Step::Next(next, request) => {
                    state = next;
                    action = request;
                }
                Step::Finished(calculation) => return Ok(calculation),
                Step::Failed(error) => return Err(error),
            }
        }
        panic!("the calculation did not end");
    }

    fn remove(&mut self, chain: Chain) -> Result<(), RemoveError> {
        let (mut state, mut action) = remove_start(chain);
        for _ in 0..10_000 {
            let event = self.perform(action);
            match remove_old_data_for_chain(state, event) {
                Step::Next(next, request) => {
                    state = next;
                    action = request;
                }
                Step::Finished(()) => return Ok(()),
                Step::Failed(error) => return Err(error),
            }
        }
        panic!("the removal did not end");
    }

    /// Every block of `numbers` is stored and names as its parent the hash
    /// of what is stored at its predecessor.
    fn assert_linked(&self, numbers: &[u64]) {
        for number in numbers {
            let block = self.blocks.get(&(C, *number)).unwrap();
            let prev = block.prev_block_number.unwrap();
            if let Some(pred) = self.blocks.get(&(C, prev)) {
                assert_eq!(pred.hash, block.parent_hash, "block {number}");
            }
        }
    }

    /// Every block that is reached from `head` along the stored
    /// predecessors names as its parent the hash of what is stored at its
    /// predecessor. Gives the numbers that were reached.
    fn assert_chain_linked(&self, head: u64) -> Vec<u64> {
        let mut reached = Vec::new();
        let mut at = Some(head);
        while let Some(number) = at {
            let Some(block) = self.blocks.get(&(C, number)) else { break };
            reached.push(number);
            at = block.prev_block_number;
            if let Some(pred) = at.and_then(|prev| self.blocks.get(&(C, prev))) {
                assert_eq!(pred.hash, block.parent_hash, "block {number}");
            }
        }
        reached
    }

    fn put(&mut self, block: Block) {
        self.blocks.insert((block.chain, block.block_number), block);
    }

    fn serve(&mut self, block: Block) {
        self.remote_blocks.insert(block.block_number, block);
    }
}

const C: Chain = Chain::Ethereum;

fn block(number: u64, prev: Option<u64>, timestamp: u64, num_txs: u64, hash: &str, parent: &str) -> Block {
    Block {
        chain: C,
        block_number: number,
        prev_block_number: prev,
        timestamp,
        num_txs,
        hash: hash.to_string(),
        parent_hash: parent.to_string(),
    }
}

/// The store after a cold start at head 100.
fn after_cold_start() -> World {
    let mut world = World::new();
    world.put(block(100, Some(99), 0, 0, "H100", "A"));
    world.put(block(99, Some(98), 0, 0, "A", "H98"));
    world.highest.insert(C, 100);
    world
}

#[test]
fn cold_start_stores_head_and_predecessor() {
    let mut world = World::new();
    world.remote_head = 100;
    world.serve(block(100, Some(99), 0, 0, "H100", "A"));
    world.serve(block(99, Some(98), 0, 0, "A", "H98"));
    let outcome = world.import(C);
    assert_eq!(outcome, Ok(ImportOutcome::FirstBlocks { head: 100 }));
    assert!(world.blocks.contains_key(&(C, 100)));
    assert!(world.blocks.contains_key(&(C, 99)));
    assert_eq!(world.blocks.len(), 2);
    assert_eq!(world.highest.get(&C), Some(&100));
    assert_eq!(world.fetched, vec![100, 99]);
    assert_eq!(world.stored, vec![100, 99]);
}

#[test]
fn cold_start_with_mismatched_hashes_stores_nothing() {
    let mut world = World::new();
    world.remote_head = 100;
    world.serve(block(100, Some(99), 0, 0, "H100", "A"));
    world.serve(block(99, Some(98), 0, 0, "not A", "H98"));
    assert_eq!(world.import(C), Err(ImportError::FirstBlocksMismatch));
    assert!(world.blocks.is_empty());
    assert!(world.highest.is_empty());
}

#[test]
fn cold_start_needs_a_predecessor() {
    let mut world = World::new();
    world.remote_head = 0;
    world.serve(block(0, None, 0, 0, "G", ""));
    assert_eq!(world.import(C), Err(ImportError::MissingPredecessor));
    assert!(world.blocks.is_empty());
}

#[test]
fn absent_remote_block_fails_the_pass() {
    let mut world = World::new();
    world.remote_head = 100;
    assert_eq!(world.import(C), Err(ImportError::BlockUnavailable));
    let mut world = after_cold_start();
    world.remote_head = 101;
    assert_eq!(world.import(C), Err(ImportError::BlockUnavailable));
    assert_eq!(world.highest.get(&C), Some(&100));
}

#[test]
fn no_change_leaves_storage_untouched() {
    let mut world = after_cold_start();
    world.remote_head = 100;
    let before = world.blocks.clone();
    assert_eq!(world.import(C), Ok(ImportOutcome::NoNewBlocks { head: 100 }));
    assert_eq!(world.blocks, before);
    assert_eq!(world.highest.get(&C), Some(&100));
    assert!(world.stored.is_empty());
    assert!(world.fetched.is_empty());
    assert_eq!(world.highest_writes, 0);
}

#[test]
fn head_behind_leaves_storage_untouched() {
    let mut world = after_cold_start();
    world.remote_head = 97;
    let before = world.blocks.clone();
    assert_eq!(world.import(C), Ok(ImportOutcome::HeadBehind { head: 97, highest: 100 }));
    assert_eq!(world.blocks, before);
    assert_eq!(world.highest.get(&C), Some(&100));
    assert!(world.stored.is_empty());
    assert_eq!(world.highest_writes, 0);
}

#[test]
fn linear_extension_stores_the_new_blocks() {
    let mut world = after_cold_start();
    world.remote_head = 102;
    world.serve(block(102, Some(101), 0, 0, "H102", "H101"));
    world.serve(block(101, Some(100), 0, 0, "H101", "H100"));
    assert_eq!(world.import(C), Ok(ImportOutcome::Synced { head: 102, joined: 100 }));
    assert!(world.blocks.contains_key(&(C, 101)));
    assert!(world.blocks.contains_key(&(C, 102)));
    assert_eq!(world.highest.get(&C), Some(&102));
    assert_eq!(world.fetched, vec![102, 101]);
    assert_eq!(world.paces, 1);
    assert_eq!(world.highest_writes, 1);
    world.assert_linked(&[102, 101, 100]);
}

#[test]
fn reorg_overwrites_the_stale_block() {
    let mut world = after_cold_start();
    world.remote_head = 101;
    world.serve(block(101, Some(100), 0, 0, "H101", "B"));
    world.serve(block(100, Some(99), 0, 0, "B'", "A"));
    assert_eq!(world.import(C), Ok(ImportOutcome::Synced { head: 101, joined: 99 }));
    assert_eq!(world.stored, vec![101, 100]);
    assert_eq!(world.blocks.get(&(C, 100)).unwrap().hash, "B'");
    assert_eq!(world.blocks.get(&(C, 99)).unwrap().hash, "A");
    assert_eq!(world.highest.get(&C), Some(&101));
    // The new block 100 joins the stored chain at 99. Block 101 names "B"
    // while the remote serves block 100 as "B'": what the remote serves is
    // taken as it comes.
    world.assert_linked(&[100]);
}

#[test]
fn reorg_on_a_coherent_remote_leaves_the_walk_linked() {
    let mut world = after_cold_start();
    world.remote_head = 101;
    world.serve(block(101, Some(100), 0, 0, "H101", "B"));
    world.serve(block(100, Some(99), 0, 0, "B", "A"));
    assert_eq!(world.import(C), Ok(ImportOutcome::Synced { head: 101, joined: 99 }));
    assert_eq!(world.stored, vec![101, 100]);
    assert_eq!(world.blocks.get(&(C, 100)).unwrap().hash, "B");
    world.assert_linked(&[101, 100]);
}

#[test]
fn fast_forward_skips_blocks_of_an_interrupted_pass() {
    let mut world = after_cold_start();
    // An earlier pass stored 105, 104 and 103 and was then cut short.
    world.put(block(105, Some(104), 0, 0, "H105", "H104"));
    world.put(block(104, Some(103), 0, 0, "H104", "H103"));
    world.put(block(103, Some(102), 0, 0, "H103", "H102"));
    world.remote_head = 106;
    world.serve(block(106, Some(105), 0, 0, "H106", "H105"));
    world.serve(block(102, Some(101), 0, 0, "H102", "H101"));
    world.serve(block(101, Some(100), 0, 0, "H101", "H100"));
    assert_eq!(world.import(C), Ok(ImportOutcome::Synced { head: 106, joined: 100 }));
    assert_eq!(world.fetched, vec![106, 102, 101]);
    assert_eq!(world.highest.get(&C), Some(&106));
    world.assert_linked(&[106, 105, 104, 103, 102, 101, 100]);
}

#[test]
fn fast_forward_stops_at_a_block_with_another_hash() {
    let mut world = after_cold_start();
    world.put(block(105, Some(104), 0, 0, "H105", "H104"));
    world.put(block(104, Some(103), 0, 0, "stale", "H103"));
    world.remote_head = 106;
    world.serve(block(106, Some(105), 0, 0, "H106", "H105"));
    world.serve(block(104, Some(100), 0, 0, "H104", "H100"));
    assert_eq!(world.import(C), Ok(ImportOutcome::Synced { head: 106, joined: 100 }));
    assert_eq!(world.fetched, vec![106, 104]);
    assert_eq!(world.blocks.get(&(C, 104)).unwrap().hash, "H104");
    world.assert_linked(&[106, 105, 104]);
}

#[test]
fn a_block_left_above_the_new_head_may_name_a_replaced_parent() {
    let mut world = after_cold_start();
    // An earlier pass stored 102 on a fork and was then cut short.
    world.put(block(102, Some(101), 0, 0, "fork102", "fork101"));
    world.remote_head = 101;
    world.serve(block(101, Some(100), 0, 0, "H101", "H100"));
    assert_eq!(world.import(C), Ok(ImportOutcome::Synced { head: 101, joined: 100 }));
    world.assert_linked(&[101]);
    let left = world.blocks.get(&(C, 102)).unwrap();
    assert_ne!(left.parent_hash, world.blocks.get(&(C, 101)).unwrap().hash);
}

#[test]
fn second_pass_without_remote_change_is_a_no_op() {
    let mut world = after_cold_start();
    world.remote_head = 102;
    world.serve(block(102, Some(101), 0, 0, "H102", "H101"));
    world.serve(block(101, Some(100), 0, 0, "H101", "H100"));
    world.import(C).unwrap();
    let blocks = world.blocks.clone();
    let writes = world.highest_writes;
    world.stored.clear();
    assert_eq!(world.import(C), Ok(ImportOutcome::NoNewBlocks { head: 102 }));
    assert_eq!(world.blocks, blocks);
    assert!(world.stored.is_empty());
    assert_eq!(world.highest_writes, writes);
}

#[test]
fn highest_block_number_does_not_decrease() {
    let mut world = after_cold_start();
    let mut last = 100;
    for head in [100u64, 99, 101, 100, 103] {
        world.remote_head = head;
        for number in 100..=head {
            world.serve(block(number, Some(number - 1), 0, 0, &format!("H{number}"), &format!("H{}", number - 1)));
        }
        world.import(C).unwrap();
        let now = *world.highest.get(&C).unwrap();
        assert!(now >= last);
        last = now;
    }
    assert_eq!(last, 103);
}

#[test]
fn unexpected_event_fails_the_pass() {
    let (state, _) = import_start(C);
    assert_eq!(import(state, Event::Done), Step::Failed(ImportError::UnexpectedEvent));
    let (state, _) = calculate_start(C);
    assert_eq!(calculate_for_chain(state, Event::Done), Step::Failed(CalculateError::UnexpectedEvent));
    let (state, _) = remove_start(C);
    assert_eq!(remove_old_data_for_chain(state, Event::Done), Step::Failed(RemoveError::UnexpectedEvent));
}

#[test]
fn tps_over_three_blocks() {
    let mut world = World::new();
    world.put(block(10, Some(9), 1000, 5, "h10", "h9"));
    world.put(block(9, Some(8), 900, 3, "h9", "h8"));
    world.put(block(8, None, 700, 2, "h8", "h7"));
    world.highest.insert(C, 10);
    let calculation = world.calculate(C).unwrap();
    assert_eq!(calculation.calcs.chain, C);
    assert_eq!(calculation.calcs.tps, Tps { num_txs: 8, seconds: 300 });
    assert_eq!(calculation.newest_block_timestamp, 1000);
    assert_eq!(calculation.oldest_block_timestamp, 700);
    let tps = f64::from(calculation.calcs.tps.num_txs) / f64::from(calculation.calcs.tps.seconds);
    assert!((tps - 0.02667).abs() < 0.00001);
}

#[test]
fn tps_twice_on_the_same_store_is_the_same() {
    let mut world = World::new();
    world.put(block(10, Some(9), 1000, 5, "h10", "h9"));
    world.put(block(9, Some(8), 900, 3, "h9", "h8"));
    world.highest.insert(C, 10);
    let first = world.calculate(C).unwrap();
    let second = world.calculate(C).unwrap();
    assert_eq!(first, second);
    assert_eq!(first.calcs.tps, Tps { num_txs: 5, seconds: 100 });
}

#[test]
fn tps_with_only_the_head_block_is_zero() {
    let mut world = World::new();
    world.put(block(10, Some(9), 1000, 5, "h10", "h9"));
    world.highest.insert(C, 10);
    let calculation = world.calculate(C).unwrap();
    assert!(calculation.calcs.tps.is_zero());
    assert_eq!(calculation.calcs.tps, Tps { num_txs: 0, seconds: 1 });
    assert_eq!(calculation.oldest_block_timestamp, 1000);
}

#[test]
fn tps_without_data_fails() {
    let mut world = World::new();
    assert_eq!(world.calculate(C), Err(CalculateError::NoData));
    world.highest.insert(C, 10);
    assert_eq!(world.calculate(C), Err(CalculateError::MissingLatestBlock));
}

#[test]
fn tps_walk_stops_at_the_window_edge() {
    let latest = 2_000_000;
    let mut world = World::new();
    world.put(block(10, Some(9), latest, 7, "h10", "h9"));
    world.put(block(9, Some(8), latest - 100, 11, "h9", "h8"));
    world.put(block(8, Some(7), latest - SECONDS_PER_WEEK, 13, "h8", "h7"));
    world.put(block(7, Some(6), latest - SECONDS_PER_WEEK - 50, 17, "h7", "h6"));
    world.highest.insert(C, 10);
    let calculation = world.calculate(C).unwrap();
    assert_eq!(calculation.calcs.tps, Tps { num_txs: 18, seconds: 604800 });
    assert_eq!(calculation.oldest_block_timestamp, (latest - SECONDS_PER_WEEK) as i64);
}

#[test]
fn tps_walk_stops_at_block_zero() {
    let mut world = World::new();
    world.put(block(2, Some(1), 30, 4, "h2", "h1"));
    world.put(block(1, Some(0), 20, 5, "h1", "h0"));
    world.put(block(0, Some(0), 10, 6, "h0", "h0"));
    world.highest.insert(C, 2);
    let calculation = world.calculate(C).unwrap();
    assert_eq!(calculation.calcs.tps, Tps { num_txs: 9, seconds: 20 });
    assert_eq!(calculation.oldest_block_timestamp, 10);
}

#[test]
fn tps_within_the_window_does_not_underflow() {
    let mut world = World::new();
    world.put(block(3, Some(2), 500, 1, "h3", "h2"));
    world.put(block(2, Some(1), 0, 2, "h2", "h1"));
    world.put(block(1, None, 0, 3, "h1", "h0"));
    world.highest.insert(C, 3);
    let calculation = world.calculate(C).unwrap();
    assert_eq!(calculation.oldest_block_timestamp, 0);
    assert_eq!(calculation.calcs.tps, Tps { num_txs: 3, seconds: 500 });
}

#[test]
fn tps_tolerates_timestamps_that_go_back() {
    let mut world = World::new();
    world.put(block(3, Some(2), 500, 1, "h3", "h2"));
    world.put(block(2, None, 900, 2, "h2", "h1"));
    world.highest.insert(C, 3);
    let calculation = world.calculate(C).unwrap();
    assert!(calculation.calcs.tps.is_zero());
    assert_eq!(calculation.oldest_block_timestamp, 900);
}

#[test]
fn tps_total_overflow_is_an_error() {
    let mut world = World::new();
    world.put(block(3, Some(2), 500, u64::MAX, "h3", "h2"));
    world.put(block(2, Some(1), 400, 1, "h2", "h1"));
    world.put(block(1, None, 300, 0, "h1", "h0"));
    world.highest.insert(C, 3);
    assert_eq!(world.calculate(C), Err(CalculateError::TxCountOverflow));
}

#[test]
fn tps_timestamp_beyond_calendar_is_an_error() {
    let mut world = World::new();
    world.put(block(3, None, u64::MAX, 1, "h3", "h2"));
    world.highest.insert(C, 3);
    assert_eq!(world.calculate(C), Err(CalculateError::TimestampOutOfRange));
}

#[test]
fn calculate_tps_formula() {
    assert_eq!(calculate_tps(700, 1000, 8), Tps { num_txs: 8, seconds: 300 });
    assert_eq!(calculate_tps(1000, 1000, 8), Tps { num_txs: 0, seconds: 1 });
    assert_eq!(calculate_tps(1001, 1000, 8), Tps { num_txs: 0, seconds: 1 });
    assert_eq!(calculate_tps(0, 1 << 32, 8), Tps { num_txs: 0, seconds: 1 });
    assert_eq!(calculate_tps(0, 10, 1 << 32), Tps { num_txs: 0, seconds: 1 });
    assert_eq!(
        calculate_tps(0, u32::MAX as u64, u32::MAX as u64),
        Tps { num_txs: u32::MAX, seconds: u32::MAX }
    );
    assert_eq!(calculate_tps(5, 6, 0), Tps { num_txs: 0, seconds: 1 });
}

#[test]
fn calculation_states_carry_the_walk() {
    let (state, action) = calculate_start(C);
    assert_eq!(state, CalcState::LoadingHighest { chain: C });
    assert_eq!(action, Action::LoadHighestBlockNumber(C));
    let step = calculate_for_chain(state, Event::HighestBlockNumber(Some(10)));
    assert_eq!(step, Step::Next(CalcState::LoadingLatest { chain: C }, Action::LoadBlock(C, 10)));
    let step = calculate_for_chain(
        CalcState::LoadingLatest { chain: C },
        Event::Loaded(Some(block(10, Some(9), 1000, 5, "h10", "h9"))),
    );
    assert_eq!(
        step,
        Step::Next(
            CalcState::Walking {
                chain: C,
                latest_timestamp: 1000,
                current_timestamp: 1000,
                current_num_txs: 5,
                num_txs: 0,
            },
            Action::LoadBlock(C, 9)
        )
    );
}

fn aged(timestamps: &[u64]) -> World {
    let mut world = World::new();
    let top = timestamps.len() as u64;
    for (at, timestamp) in timestamps.iter().enumerate() {
        let number = top - at as u64;
        let prev = if number > 1 { Some(number - 1) } else { None };
        world.put(block(number, prev, *timestamp, 1, &format!("h{number}"), &format!("h{}", number - 1)));
    }
    world.highest.insert(C, top);
    world
}

#[test]
fn prune_keeps_blocks_within_the_window() {
    // Every timestamp lies above 1_000_000 - 604_800 = 395_200.
    let mut world = aged(&[1_000_000, 999_000, 500_000, 499_000]);
    assert_eq!(world.remove(C), Ok(()));
    assert!(world.removed.is_empty());
    assert_eq!(world.blocks.len(), 4);
}

#[test]
fn prune_keeps_the_boundary_and_removes_below_it() {
    let mut world = aged(&[1_000_000, 999_000, 395_199, 395_100, 200]);
    assert_eq!(world.remove(C), Ok(()));
    assert_eq!(world.removed, vec![2, 1]);
    assert!(world.blocks.contains_key(&(C, 5)));
    assert!(world.blocks.contains_key(&(C, 4)));
    assert!(world.blocks.contains_key(&(C, 3)));
    assert!(!world.blocks.contains_key(&(C, 2)));
    assert!(!world.blocks.contains_key(&(C, 1)));
    let old: Vec<u64> = world
        .blocks
        .values()
        .filter(|block| block.timestamp < 1_000_000 - 604_800)
        .map(|block| block.block_number)
        .collect();
    assert_eq!(old, vec![3]);
}

#[test]
fn prune_edge_is_strict() {
    let mut world = aged(&[1_000_000, 395_200, 395_200, 10]);
    assert_eq!(world.remove(C), Ok(()));
    assert!(world.removed.is_empty());
    let mut world = aged(&[1_000_000, 395_200, 395_199, 999_999, 10]);
    assert_eq!(world.remove(C), Ok(()));
    // Below the boundary everything goes, whatever its timestamp.
    assert_eq!(world.removed, vec![2, 1]);
}

#[test]
fn prune_then_calculate_still_reaches_the_edge() {
    let mut world = aged(&[1_000_000, 999_000, 395_199, 395_100, 200]);
    let before = world.calculate(C).unwrap();
    world.remove(C).unwrap();
    let after = world.calculate(C).unwrap();
    assert_eq!(before, after);
    assert_eq!(after.oldest_block_timestamp, 395_199);
}

#[test]
fn prune_without_data_fails() {
    let mut world = World::new();
    assert_eq!(world.remove(C), Err(RemoveError::NoData));
    world.highest.insert(C, 10);
    assert_eq!(world.remove(C), Err(RemoveError::MissingLatestBlock));
}

#[test]
fn prune_stops_at_a_gap() {
    let mut world = aged(&[1_000_000, 100, 90, 80]);
    world.blocks.remove(&(C, 2));
    assert_eq!(world.remove(C), Ok(()));
    assert!(world.removed.is_empty());
    assert!(world.blocks.contains_key(&(C, 1)));
}

#[test]
fn synced_pass_leaves_the_chain_below_the_head_linked() {
    // Fetched blocks, blocks skipped by the fast-forward and blocks below
    // the join, on a chain whose numbers have gaps.
    let mut world = World::new();
    world.put(block(90, Some(80), 0, 0, "H90", "H80"));
    world.put(block(80, Some(79), 0, 0, "H80", "H79"));
    world.put(block(79, None, 0, 0, "H79", ""));
    world.highest.insert(C, 90);
    world.put(block(130, Some(120), 0, 0, "H130", "H120"));
    world.put(block(120, Some(110), 0, 0, "H120", "H110"));
    world.remote_head = 150;
    world.serve(block(150, Some(140), 0, 0, "H150", "H140"));
    world.serve(block(140, Some(130), 0, 0, "H140", "H130"));
    world.serve(block(110, Some(100), 0, 0, "H110", "H100"));
    world.serve(block(100, Some(90), 0, 0, "H100", "H90"));
    assert_eq!(world.import(C), Ok(ImportOutcome::Synced { head: 150, joined: 90 }));
    assert_eq!(world.fetched, vec![150, 140, 110, 100]);
    assert_eq!(
        world.assert_chain_linked(150),
        vec![150, 140, 130, 120, 110, 100, 90, 80, 79]
    );
}

#[test]
fn synced_passes_in_a_row_keep_the_chain_linked() {
    let mut world = after_cold_start();
    world.put(block(98, None, 0, 0, "H98", ""));
    for head in [101u64, 104, 105, 109] {
        world.remote_head = head;
        for number in 100..=head {
            let hash = if number == 100 { "H100".to_string() } else { format!("H{number}") };
            let parent = if number == 100 { "A".to_string() } else if number == 101 { "H100".to_string() } else { format!("H{}", number - 1) };
            world.serve(block(number, Some(number - 1), 0, 0, &hash, &parent));
        }
        world.import(C).unwrap();
        let reached = world.assert_chain_linked(head);
        assert_eq!(reached.first(), Some(&head));
        assert_eq!(reached.last(), Some(&98));
        assert_eq!(reached.len() as u64, head - 98 + 1);
    }
}
