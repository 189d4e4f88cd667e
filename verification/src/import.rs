//! Ingestion: one pass of the importer over one chain.
//!
//! A pass compares the remote head with the highest block number that is
//! stored. A chain that was never imported gets its first two blocks. A head
//! that has moved on is followed backwards, block by block, until the
//! fetched chain joins what is stored; only then is the new highest block
//! number written. The pass is a task: [`import_start`] gives its first
//! request, [`import`] takes each answer and gives the next request or the
//! outcome.

use vstd::prelude::*;
use crate::chain::Chain;
use crate::db::Block;
use crate::task::{Action, Event, Step};

verus! {

/// How a pass that did not fail came to its end.
#[derive(Debug, Copy, Clone, PartialEq, Eq, Structural)]
pub enum ImportOutcome {
    /// The chain was imported for the first time: the head and its
    /// predecessor are stored.
    FirstBlocks { head: u64 },
    /// The remote head is the highest block number already stored.
    NoNewBlocks { head: u64 },
    /// The remote head lies below the highest block number stored; nothing
    /// was touched.
    HeadBehind { head: u64, highest: u64 },
    /// The blocks from the head down were stored until the block at
    /// `joined` was found in storage with the expected hash.
    Synced { head: u64, joined: u64 },
}

#[derive(Debug, Copy, Clone, PartialEq, Eq, Structural)]
pub enum ImportError {
    /// The remote node reports a block as absent that the pass needs.
    BlockUnavailable,
    /// A block that cannot be the first of its chain names no predecessor.
    MissingPredecessor,
    /// On a first import, the head's parent hash is not the hash of the
    /// block fetched as its predecessor.
    FirstBlocksMismatch,
    /// The event does not answer the request that was pending.
    UnexpectedEvent,
}

/// Where a pass stands between two requests. `head` is the remote head that
/// the pass works towards, `highest` the highest block number that was
/// stored when it began.
#[derive(Debug, Clone, PartialEq, Eq)]
pub enum ImportState {
    /// Waiting for the highest block number stored.
    LoadingHighest { chain: Chain },
    /// Waiting for the remote head.
    FetchingHead { chain: Chain, stored: Option<u64> },
    /// First import: waiting for the head block.
    FirstFetchingHead { chain: Chain, head: u64 },
    /// First import: waiting for the predecessor of the head block.
    FirstFetchingPrev { chain: Chain, head: u64, head_block: Block },
    /// First import: the head block is being stored.
    FirstStoringHead { chain: Chain, head: u64, prev_block: Block },
    /// First import: the predecessor is being stored.
    FirstStoringPrev { chain: Chain, head: u64 },
    /// Waiting for the next block of the backward walk.
    Fetching { chain: Chain, highest: u64, head: u64 },
    /// The block just fetched is being stored; it names `prev_number` as
    /// its predecessor and `prev_hash` as that block's hash.
    Storing { chain: Chain, highest: u64, head: u64, prev_number: u64, prev_hash: String },
    /// Waiting for what is stored at the predecessor of the block just
    /// stored.
    LoadingPrev { chain: Chain, highest: u64, head: u64, prev_number: u64, prev_hash: String },
    /// Skipping over blocks left by an earlier pass: waiting for what is
    /// stored at `prev_number`, which should carry `prev_hash`.
    FastForwarding {
        chain: Chain,
        highest: u64,
        head: u64,
        prev_number: u64,
        prev_hash: String,
    },
    /// Waiting out the pace before the block at `next` is fetched.
    Pacing { chain: Chain, highest: u64, head: u64, next: u64 },
    /// The new highest block number is being written.
    StoringHighest { chain: Chain, outcome: ImportOutcome },
}

pub type ImportStep = Step<ImportState, ImportOutcome, ImportError>;

/// The pass goes on to fetch the block at `next`, after the pace.
pub open spec fn fetch_next(chain: Chain, highest: u64, head: u64, next: u64) -> ImportStep {
    Step::Next(ImportState::Pacing { chain, highest, head, next }, Action::Pace(chain))
}

/// Fast-forward from `known`, a stored block whose hash is as expected: the
/// next thing to look at is what is stored at its predecessor.
pub open spec fn fast_forward_from(chain: Chain, highest: u64, head: u64, known: Block) -> ImportStep {
    match known.prev_block_number {
        None => Step::Failed(ImportError::MissingPredecessor),
        Some(prev_number) => Step::Next(
            ImportState::FastForwarding {
                chain,
                highest,
                head,
                prev_number,
                prev_hash: known.parent_hash,
            },
            Action::LoadBlock(chain, prev_number),
        ),
    }
}

/// The decision of the backward walk, once a block naming `prev_number` and
/// `prev_hash` has been stored and `stored` is what storage holds at
/// `prev_number`.
///
/// Nothing stored there: fetch that block next. A block with another hash:
/// the chain was reorganised and the stored block is stale, so fetch that
/// block next, which overwrites it. The expected block, at or below
/// `highest`: the walk has joined the stored chain, and the head becomes the
/// highest block number. The expected block, above `highest`: an earlier
/// pass got this far, so fast-forward over what it left.
pub open spec fn sync_decision(
    chain: Chain,
    highest: u64,
    head: u64,
    prev_number: u64,
    prev_hash: Seq<char>,
    stored: Option<Block>,
) -> ImportStep {
    match stored {
        None => fetch_next(chain, highest, head, prev_number),
        Some(stored_block) => {
            if stored_block.hash@ != prev_hash {
                fetch_next(chain, highest, head, prev_number)
            } else if prev_number <= highest {
                Step::Next(
                    ImportState::StoringHighest {
                        chain,
                        outcome: ImportOutcome::Synced { head, joined: prev_number },
                    },
                    Action::StoreHighestBlockNumber(chain, head),
                )
            } else {
                fast_forward_from(chain, highest, head, stored_block)
            }
        },
    }
}

/// The decision of the fast-forward, with `stored` being what storage holds
/// at `prev_number`: a block that is absent or has another hash than
/// `prev_hash` is the one to fetch next; the expected block is skipped.
pub open spec fn fast_forward_decision(
    chain: Chain,
    highest: u64,
    head: u64,
    prev_number: u64,
    prev_hash: Seq<char>,
    stored: Option<Block>,
) -> ImportStep {
    match stored {
        None => fetch_next(chain, highest, head, prev_number),
        Some(stored_block) => {
            if stored_block.hash@ != prev_hash {
                fetch_next(chain, highest, head, prev_number)
            } else {
                fast_forward_from(chain, highest, head, stored_block)
            }
        },
    }
}

/// The branch that a pass takes once it knows the stored highest block
/// number and the remote head.
pub open spec fn head_decision(chain: Chain, stored: Option<u64>, head: u64) -> ImportStep {
    match stored {
        None => Step::Next(
            ImportState::FirstFetchingHead { chain, head },
            Action::FetchBlock(chain, head),
        ),
        Some(highest) => {
            if head == highest {
                Step::Finished(ImportOutcome::NoNewBlocks { head })
            } else if head < highest {
                Step::Finished(ImportOutcome::HeadBehind { head, highest })
            } else {
                Step::Next(
                    ImportState::Fetching { chain, highest, head },
                    Action::FetchBlock(chain, head),
                )
            }
        },
    }
}

/// The transition of the first import.
pub open spec fn first_blocks_step(state: ImportState, event: Event) -> ImportStep {
    match (state, event) {
        (ImportState::FirstFetchingHead { chain, head }, Event::Fetched(Some(head_block))) => {
            match head_block.prev_block_number {
                None => Step::Failed(ImportError::MissingPredecessor),
                Some(prev_number) => Step::Next(
                    ImportState::FirstFetchingPrev { chain, head, head_block },
                    Action::FetchBlock(chain, prev_number),
                ),
            }
        },
        (
            ImportState::FirstFetchingPrev { chain, head, head_block },
            Event::Fetched(Some(prev_block)),
        ) => {
            if head_block.links_to(&prev_block) {
                Step::Next(
                    ImportState::FirstStoringHead { chain, head, prev_block },
                    Action::StoreBlock(head_block),
                )
            } else {
                Step::Failed(ImportError::FirstBlocksMismatch)
            }
        },
        (ImportState::FirstFetchingHead { chain, head }, Event::Fetched(None)) => Step::Failed(
            ImportError::BlockUnavailable,
        ),
        (ImportState::FirstFetchingPrev { chain, head, head_block }, Event::Fetched(None)) => {
            Step::Failed(ImportError::BlockUnavailable)
        },
        (ImportState::FirstStoringHead { chain, head, prev_block }, Event::Done) => Step::Next(
            ImportState::FirstStoringPrev { chain, head },
            Action::StoreBlock(prev_block),
        ),
        (ImportState::FirstStoringPrev { chain, head }, Event::Done) => Step::Next(
            ImportState::StoringHighest { chain, outcome: ImportOutcome::FirstBlocks { head } },
            Action::StoreHighestBlockNumber(chain, head),
        ),
        _ => Step::Failed(ImportError::UnexpectedEvent),
    }
}

/// The transition of the backward walk.
pub open spec fn sync_step(state: ImportState, event: Event) -> ImportStep {
    match (state, event) {
        (ImportState::Fetching { chain, highest, head }, Event::Fetched(Some(block))) => {
            match block.prev_block_number {
                None => Step::Failed(ImportError::MissingPredecessor),
                Some(prev_number) => Step::Next(
                    ImportState::Storing {
                        chain,
                        highest,
                        head,
                        prev_number,
                        prev_hash: block.parent_hash,
                    },
                    Action::StoreBlock(block),
                ),
            }
        },
        (ImportState::Fetching { chain, highest, head }, Event::Fetched(None)) => Step::Failed(
            ImportError::BlockUnavailable,
        ),
        (ImportState::Storing { chain, highest, head, prev_number, prev_hash }, Event::Done) => {
            Step::Next(
                ImportState::LoadingPrev { chain, highest, head, prev_number, prev_hash },
                Action::LoadBlock(chain, prev_number),
            )
        },
        (
            ImportState::LoadingPrev { chain, highest, head, prev_number, prev_hash },
            Event::Loaded(stored),
        ) => sync_decision(chain, highest, head, prev_number, prev_hash@, stored),
        (
            ImportState::FastForwarding { chain, highest, head, prev_number, prev_hash },
            Event::Loaded(stored),
        ) => fast_forward_decision(chain, highest, head, prev_number, prev_hash@, stored),
        (ImportState::Pacing { chain, highest, head, next }, Event::Done) => Step::Next(
            ImportState::Fetching { chain, highest, head },
            Action::FetchBlock(chain, next),
        ),
        _ => Step::Failed(ImportError::UnexpectedEvent),
    }
}

/// The transition of a pass.
pub open spec fn import_step(state: ImportState, event: Event) -> ImportStep {
    match (state, event) {
        (ImportState::LoadingHighest { chain }, Event::HighestBlockNumber(stored)) => Step::Next(
            ImportState::FetchingHead { chain, stored },
            Action::FetchLatestBlockNumber(chain),
        ),
        (ImportState::FetchingHead { chain, stored }, Event::LatestBlockNumber(head)) => {
            head_decision(chain, stored, head)
        },
        (ImportState::StoringHighest { chain, outcome }, Event::Done) => Step::Finished(outcome),
        (ImportState::LoadingHighest { .. }, _) => Step::Failed(ImportError::UnexpectedEvent),
        (ImportState::FetchingHead { .. }, _) => Step::Failed(ImportError::UnexpectedEvent),
        (ImportState::StoringHighest { .. }, _) => Step::Failed(ImportError::UnexpectedEvent),
        (ImportState::FirstFetchingHead { .. }, _) => first_blocks_step(state, event),
        (ImportState::FirstFetchingPrev { .. }, _) => first_blocks_step(state, event),
        (ImportState::FirstStoringHead { .. }, _) => first_blocks_step(state, event),
        (ImportState::FirstStoringPrev { .. }, _) => first_blocks_step(state, event),
        _ => sync_step(state, event),
    }
}

/// Begins a pass over `chain`.
pub fn import_start(chain: Chain) -> (start: (ImportState, Action))
    ensures
        start == (ImportState::LoadingHighest { chain }, Action::LoadHighestBlockNumber(chain)),
{
    (ImportState::LoadingHighest { chain }, Action::LoadHighestBlockNumber(chain))
}

fn pace_then_fetch(chain: Chain, highest: u64, head: u64, next: u64) -> (step: ImportStep)
    ensures
        step == fetch_next(chain, highest, head, next),
{
    Step::Next(ImportState::Pacing { chain, highest, head, next }, Action::Pace(chain))
}

/// Continues past `known`, a stored block that carries the expected hash.
fn fast_forward(chain: Chain, highest: u64, head: u64, known: Block) -> (step: ImportStep)
    ensures
        step == fast_forward_from(chain, highest, head, known),
{
    match known.prev_block_number {
        None => Step::Failed(ImportError::MissingPredecessor),
        Some(prev_number) => Step::Next(
            ImportState::FastForwarding {
                chain,
                highest,
                head,
                prev_number,
                prev_hash: known.parent_hash,
            },
            Action::LoadBlock(chain, prev_number),
        ),
    }
}

/// The first import of a chain: the head block and its predecessor.
fn import_first_blocks(state: ImportState, event: Event) -> (step: ImportStep)
    ensures
        step == first_blocks_step(state, event),
{
    match state {
        ImportState::FirstFetchingHead { chain, head } => match event {
            Event::Fetched(Some(head_block)) => match head_block.prev_block_number {
                None => Step::Failed(ImportError::MissingPredecessor),
                Some(prev_number) => Step::Next(
                    ImportState::FirstFetchingPrev { chain, head, head_block },
                    Action::FetchBlock(chain, prev_number),
                ),
            },
            Event::Fetched(None) => Step::Failed(ImportError::BlockUnavailable),
            _ => Step::Failed(ImportError::UnexpectedEvent),
        },
        ImportState::FirstFetchingPrev { chain, head, head_block } => match event {
            Event::Fetched(Some(prev_block)) => {
                if prev_block.hash == head_block.parent_hash {
                    Step::Next(
                        ImportState::FirstStoringHead { chain, head, prev_block },
                        Action::StoreBlock(head_block),
                    )
                } else {
                    Step::Failed(ImportError::FirstBlocksMismatch)
                }
            },
            Event::Fetched(None) => Step::Failed(ImportError::BlockUnavailable),
            _ => Step::Failed(ImportError::UnexpectedEvent),
        },
        ImportState::FirstStoringHead { chain, head, prev_block } => match event {
            Event::Done => Step::Next(
                ImportState::FirstStoringPrev { chain, head },
                Action::StoreBlock(prev_block),
            ),
            _ => Step::Failed(ImportError::UnexpectedEvent),
        },
        ImportState::FirstStoringPrev { chain, head } => match event {
            Event::Done => Step::Next(
                ImportState::StoringHighest {
                    chain,
                    outcome: ImportOutcome::FirstBlocks { head },
                },
                Action::StoreHighestBlockNumber(chain, head),
            ),
            _ => Step::Failed(ImportError::UnexpectedEvent),
        },
        _ => Step::Failed(ImportError::UnexpectedEvent),
    }
}

/// The backward walk from the remote head to the stored chain.
fn sync(state: ImportState, event: Event) -> (step: ImportStep)
    ensures
        step == sync_step(state, event),
{
    match state {
        ImportState::Fetching { chain, highest, head } => match event {
            Event::Fetched(Some(block)) => match block.prev_block_number {
                None => Step::Failed(ImportError::MissingPredecessor),
                Some(prev_number) => {
                    let prev_hash = block.parent_hash.clone();
                    Step::Next(
                        ImportState::Storing { chain, highest, head, prev_number, prev_hash },
                        Action::StoreBlock(block),
                    )
                },
            },
            Event::Fetched(None) => Step::Failed(ImportError::BlockUnavailable),
            _ => Step::Failed(ImportError::UnexpectedEvent),
        },
        ImportState::Storing { chain, highest, head, prev_number, prev_hash } => match event {
            Event::Done => Step::Next(
                ImportState::LoadingPrev { chain, highest, head, prev_number, prev_hash },
                Action::LoadBlock(chain, prev_number),
            ),
            _ => Step::Failed(ImportError::UnexpectedEvent),
        },
        ImportState::LoadingPrev { chain, highest, head, prev_number, prev_hash } => match event {
            Event::Loaded(None) => pace_then_fetch(chain, highest, head, prev_number),
            Event::Loaded(Some(stored_block)) => {
                let chain_reorg = !(stored_block.hash == prev_hash);
                if chain_reorg {
                    pace_then_fetch(chain, highest, head, prev_number)
                } else if prev_number <= highest {
                    Step::Next(
                        ImportState::StoringHighest {
                            chain,
                            outcome: ImportOutcome::Synced { head, joined: prev_number },
                        },
                        Action::StoreHighestBlockNumber(chain, head),
                    )
                } else {
                    fast_forward(chain, highest, head, stored_block)
                }
            },
            _ => Step::Failed(ImportError::UnexpectedEvent),
        },
        ImportState::FastForwarding { chain, highest, head, prev_number, prev_hash } => {
            match event {
                Event::Loaded(None) => pace_then_fetch(chain, highest, head, prev_number),
                Event::Loaded(Some(stored_block)) => {
                    if stored_block.hash == prev_hash {
                        fast_forward(chain, highest, head, stored_block)
                    } else {
                        pace_then_fetch(chain, highest, head, prev_number)
                    }
                },
                _ => Step::Failed(ImportError::UnexpectedEvent),
            }
        },
        ImportState::Pacing { chain, highest, head, next } => match event {
            Event::Done => Step::Next(
                ImportState::Fetching { chain, highest, head },
                Action::FetchBlock(chain, next),
            ),
            _ => Step::Failed(ImportError::UnexpectedEvent),
        },
        _ => Step::Failed(ImportError::UnexpectedEvent),
    }
}

/// Advances a pass by one answer from storage or from the remote node.
pub fn import(state: ImportState, event: Event) -> (step: ImportStep)
    ensures
        step == import_step(state, event),
{
    match state {
        ImportState::LoadingHighest { chain } => match event {
            Event::HighestBlockNumber(stored) => Step::Next(
                ImportState::FetchingHead { chain, stored },
                Action::FetchLatestBlockNumber(chain),
            ),
            _ => Step::Failed(ImportError::UnexpectedEvent),
        },
        ImportState::FetchingHead { chain, stored } => match event {
            Event::LatestBlockNumber(head) => match stored {
                None => Step::Next(
                    ImportState::FirstFetchingHead { chain, head },
                    Action::FetchBlock(chain, head),
                ),
                Some(highest) => {
                    if head == highest {
                        Step::Finished(ImportOutcome::NoNewBlocks { head })
                    } else if head < highest {
                        Step::Finished(ImportOutcome::HeadBehind { head, highest })
                    } else {
                        Step::Next(
                            ImportState::Fetching { chain, highest, head },
                            Action::FetchBlock(chain, head),
                        )
                    }
                },
            },
            _ => Step::Failed(ImportError::UnexpectedEvent),
        },
        ImportState::StoringHighest { chain, outcome } => match event {
            Event::Done => Step::Finished(outcome),
            _ => Step::Failed(ImportError::UnexpectedEvent),
        },
        ImportState::FirstFetchingHead { .. } => import_first_blocks(state, event),
        ImportState::FirstFetchingPrev { .. } => import_first_blocks(state, event),
        ImportState::FirstStoringHead { .. } => import_first_blocks(state, event),
        ImportState::FirstStoringPrev { .. } => import_first_blocks(state, event),
        _ => sync(state, event),
    }
}

} // verus!
