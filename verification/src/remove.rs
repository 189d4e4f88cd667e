//! Retention: which stored blocks have fallen out of the measurement window.
//!
//! The task walks back from the highest stored block. The first block it
//! finds older than the window is the boundary, which stays, so that the next
//! calculation still has a block beyond the edge; every block below the
//! boundary is removed once the walk is over.

use vstd::prelude::*;
use crate::chain::Chain;
use crate::db::Block;
use crate::task::{Action, ActionView, Event, Step, StepView};
use crate::calculate::SECONDS_PER_WEEK;

verus! {

#[derive(Debug, Copy, Clone, PartialEq, Eq, Structural)]
pub enum RemoveError {
    /// The chain has no highest block number yet.
    NoData,
    /// The block at the highest block number is not stored.
    MissingLatestBlock,
    /// The event does not answer the request that was pending.
    UnexpectedEvent,
}

/// Where a removal stands between two requests.
#[derive(Debug, Clone, PartialEq, Eq)]
pub enum RemoveState {
    /// Waiting for the highest block number.
    LoadingHighest { chain: Chain },
    /// Waiting for the block at the highest block number.
    LoadingLatest { chain: Chain },
    /// Waiting for the predecessor of the current block. `past_edge` says
    /// that the boundary has been found; `to_remove` holds the numbers of the
    /// blocks found below it, in the order of the walk.
    Walking { chain: Chain, latest_timestamp: u64, past_edge: bool, to_remove: Vec<u64> },
    /// Waiting for the removal to be carried out.
    Removing { chain: Chain },
}

/// A [`RemoveState`] as a mathematical value.
pub enum RemoveStateView {
    LoadingHighest { chain: Chain },
    LoadingLatest { chain: Chain },
    Walking { chain: Chain, latest_timestamp: u64, past_edge: bool, to_remove: Seq<u64> },
    Removing { chain: Chain },
}

impl View for RemoveState {
    type V = RemoveStateView;

    open spec fn view(&self) -> RemoveStateView {
        match *self {
            RemoveState::LoadingHighest { chain } => RemoveStateView::LoadingHighest { chain },
            RemoveState::LoadingLatest { chain } => RemoveStateView::LoadingLatest { chain },
            RemoveState::Walking { chain, latest_timestamp, past_edge, to_remove } => {
                RemoveStateView::Walking {
                    chain,
                    latest_timestamp,
                    past_edge,
                    to_remove: to_remove@,
                }
            },
            RemoveState::Removing { chain } => RemoveStateView::Removing { chain },
        }
    }
}

/// The outcome of one transition of the removal, as a mathematical value.
pub type RemoveStep = StepView<RemoveStateView, (), RemoveError>;

/// The outcome of a transition, seen through the views of its parts.
pub open spec fn remove_step_view(step: Step<RemoveState, (), RemoveError>) -> RemoveStep {
    match step {
        Step::Next(state, action) => StepView::Next(state@, action@),
        Step::Finished(done) => StepView::Finished(done),
        Step::Failed(error) => StepView::Failed(error),
    }
}

/// A block with this timestamp is older than the window that ends at
/// `latest_timestamp`.
pub open spec fn older_than_window(timestamp: u64, latest_timestamp: u64) -> bool {
    timestamp + SECONDS_PER_WEEK < latest_timestamp
}

/// The walk is over: there is nothing to do where no block was found below
/// the boundary; else the blocks found are removed in one request.
pub open spec fn removal_of(chain: Chain, to_remove: Seq<u64>) -> RemoveStep {
    if to_remove.len() == 0 {
        StepView::Finished(())
    } else {
        StepView::Next(
            RemoveStateView::Removing { chain },
            ActionView::RemoveBlocks(chain, to_remove),
        )
    }
}

/// The walk has arrived at `current`: it is over when `current` names no
/// predecessor, and asks for the predecessor otherwise.
pub open spec fn walk_to(
    chain: Chain,
    latest_timestamp: u64,
    current: Block,
    past_edge: bool,
    to_remove: Seq<u64>,
) -> RemoveStep {
    match current.prev_block_number {
        None => removal_of(chain, to_remove),
        Some(prev) => StepView::Next(
            RemoveStateView::Walking { chain, latest_timestamp, past_edge, to_remove },
            ActionView::LoadBlock(chain, prev),
        ),
    }
}

/// The transition of the removal.
///
/// A predecessor found after the boundary is marked for removal. The first
/// predecessor that is older than the window becomes the boundary and is
/// not marked. A predecessor that is not stored ends the walk.
pub open spec fn remove_step(state: RemoveStateView, event: Event) -> RemoveStep {
    match (state, event) {
        (RemoveStateView::LoadingHighest { chain }, Event::HighestBlockNumber(None)) => {
            StepView::Failed(RemoveError::NoData)
        },
        (RemoveStateView::LoadingHighest { chain }, Event::HighestBlockNumber(Some(highest))) => {
            StepView::Next(
                RemoveStateView::LoadingLatest { chain },
                ActionView::LoadBlock(chain, highest),
            )
        },
        (RemoveStateView::LoadingLatest { chain }, Event::Loaded(None)) => StepView::Failed(
            RemoveError::MissingLatestBlock,
        ),
        (RemoveStateView::LoadingLatest { chain }, Event::Loaded(Some(latest))) => walk_to(
            chain,
            latest.timestamp,
            latest,
            false,
            Seq::empty(),
        ),
        (
            RemoveStateView::Walking { chain, latest_timestamp, past_edge, to_remove },
            Event::Loaded(None),
        ) => removal_of(chain, to_remove),
        (
            RemoveStateView::Walking { chain, latest_timestamp, past_edge, to_remove },
            Event::Loaded(Some(prev)),
        ) => {
            if past_edge {
                walk_to(chain, latest_timestamp, prev, true, to_remove.push(prev.block_number))
            } else {
                walk_to(
                    chain,
                    latest_timestamp,
                    prev,
                    older_than_window(prev.timestamp, latest_timestamp),
                    to_remove,
                )
            }
        },
        (RemoveStateView::Removing { chain }, Event::Done) => StepView::Finished(()),
        _ => StepView::Failed(RemoveError::UnexpectedEvent),
    }
}

/// Begins a removal for `chain`.
pub fn remove_start(chain: Chain) -> (start: (RemoveState, Action))
    ensures
        start.0@ == (RemoveStateView::LoadingHighest { chain }),
        start.1@ == ActionView::LoadHighestBlockNumber(chain),
{
    (RemoveState::LoadingHighest { chain }, Action::LoadHighestBlockNumber(chain))
}

fn finish_walk(chain: Chain, to_remove: Vec<u64>) -> (step: Step<RemoveState, (), RemoveError>)
    ensures
        remove_step_view(step) == removal_of(chain, to_remove@),
{
    if to_remove.len() == 0 {
        Step::Finished(())
    } else {
        Step::Next(RemoveState::Removing { chain }, Action::RemoveBlocks(chain, to_remove))
    }
}

fn walk_on(
    chain: Chain,
    latest_timestamp: u64,
    current: Block,
    past_edge: bool,
    to_remove: Vec<u64>,
) -> (step: Step<RemoveState, (), RemoveError>)
    ensures
        remove_step_view(step) == walk_to(chain, latest_timestamp, current, past_edge, to_remove@),
{
    match current.prev_block_number {
        None => finish_walk(chain, to_remove),
        Some(prev) => Step::Next(
            RemoveState::Walking { chain, latest_timestamp, past_edge, to_remove },
            Action::LoadBlock(chain, prev),
        ),
    }
}

/// Advances the removal by one answer from storage.
pub fn remove_old_data_for_chain(state: RemoveState, event: Event) -> (step: Step<
    RemoveState,
    (),
    RemoveError,
>)
    ensures
        remove_step_view(step) == remove_step(state@, event),
{
    match state {
        RemoveState::LoadingHighest { chain } => match event {
            Event::HighestBlockNumber(None) => Step::Failed(RemoveError::NoData),
            Event::HighestBlockNumber(Some(highest)) => Step::Next(
                RemoveState::LoadingLatest { chain },
                Action::LoadBlock(chain, highest),
            ),
            _ => Step::Failed(RemoveError::UnexpectedEvent),
        },
        RemoveState::LoadingLatest { chain } => match event {
            Event::Loaded(None) => Step::Failed(RemoveError::MissingLatestBlock),
            Event::Loaded(Some(latest)) => {
                let latest_timestamp = latest.timestamp;
                walk_on(chain, latest_timestamp, latest, false, Vec::new())
            },
            _ => Step::Failed(RemoveError::UnexpectedEvent),
        },
        RemoveState::Walking { chain, latest_timestamp, past_edge, to_remove } => match event {
            Event::Loaded(None) => finish_walk(chain, to_remove),
            Event::Loaded(Some(prev)) => {
                if past_edge {
                    let mut to_remove = to_remove;
                    to_remove.push(prev.block_number);
                    walk_on(chain, latest_timestamp, prev, true, to_remove)
                } else {
                    let older = latest_timestamp >= SECONDS_PER_WEEK && prev.timestamp
                        < latest_timestamp - SECONDS_PER_WEEK;
                    walk_on(chain, latest_timestamp, prev, older, to_remove)
                }
            },
            _ => Step::Failed(RemoveError::UnexpectedEvent),
        },
        RemoveState::Removing { chain } => match event {
            Event::Done => Step::Finished(()),
            _ => Step::Failed(RemoveError::UnexpectedEvent),
        },
    }
}

} // verus!
