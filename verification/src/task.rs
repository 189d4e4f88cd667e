//! The requests and answers through which a task reaches the storage layer
//! and the remote node, and the steps a task takes between them.
//!
//! A task never calls out. It hands its driver one request at a time, and
//! the driver comes back with the answer; what the task makes of it is a
//! function of its state and the answer alone.

use vstd::prelude::*;
use crate::chain::Chain;
use crate::db::Block;

verus! {

/// One call on the storage layer or on the remote node. The driver performs
/// it and hands back the matching [`Event`].
#[derive(Debug, Clone, PartialEq, Eq)]
pub enum Action {
    /// Answered by `Event::HighestBlockNumber`.
    LoadHighestBlockNumber(Chain),
    /// Answered by `Event::LatestBlockNumber`.
    FetchLatestBlockNumber(Chain),
    /// Answered by `Event::Fetched`.
    FetchBlock(Chain, u64),
    /// Answered by `Event::Loaded`.
    LoadBlock(Chain, u64),
    /// Answered by `Event::Done`.
    StoreBlock(Block),
    /// Answered by `Event::Done`.
    StoreHighestBlockNumber(Chain, u64),
    /// Answered by `Event::Done`.
    RemoveBlocks(Chain, Vec<u64>),
    /// Wait out the per-block pace of the chain; answered by `Event::Done`.
    Pace(Chain),
}

/// An [`Action`] as a mathematical value: the list of block numbers to
/// remove is a sequence.
pub enum ActionView {
    LoadHighestBlockNumber(Chain),
    FetchLatestBlockNumber(Chain),
    FetchBlock(Chain, u64),
    LoadBlock(Chain, u64),
    StoreBlock(Block),
    StoreHighestBlockNumber(Chain, u64),
    RemoveBlocks(Chain, Seq<u64>),
    Pace(Chain),
}

impl View for Action {
    type V = ActionView;

    open spec fn view(&self) -> ActionView {
        match *self {
            Action::LoadHighestBlockNumber(chain) => ActionView::LoadHighestBlockNumber(chain),
            Action::FetchLatestBlockNumber(chain) => ActionView::FetchLatestBlockNumber(chain),
            Action::FetchBlock(chain, number) => ActionView::FetchBlock(chain, number),
            Action::LoadBlock(chain, number) => ActionView::LoadBlock(chain, number),
            Action::StoreBlock(block) => ActionView::StoreBlock(block),
            Action::StoreHighestBlockNumber(chain, number) => ActionView::StoreHighestBlockNumber(
                chain,
                number,
            ),
            Action::RemoveBlocks(chain, numbers) => ActionView::RemoveBlocks(chain, numbers@),
            Action::Pace(chain) => ActionView::Pace(chain),
        }
    }
}

/// What came back from the last [`Action`].
#[derive(Debug, Clone, PartialEq, Eq)]
pub enum Event {
    HighestBlockNumber(Option<u64>),
    LatestBlockNumber(u64),
    /// `None` when the remote reports the block as absent.
    Fetched(Option<Block>),
    /// `None` when no such block is stored.
    Loaded(Option<Block>),
    Done,
}

/// The outcome of feeding one event to a task.
#[derive(Debug, Clone, PartialEq, Eq)]
pub enum Step<S, T, E> {
    /// The task goes on: perform the action and come back with its event.
    Next(S, Action),
    Finished(T),
    Failed(E),
}

impl<S, T, E> Step<S, T, E> {
    /// The step with its request as a mathematical value.
    pub open spec fn as_view(self) -> StepView<S, T, E> {
        match self {
            Step::Next(state, action) => StepView::Next(state, action@),
            Step::Finished(result) => StepView::Finished(result),
            Step::Failed(error) => StepView::Failed(error),
        }
    }
}

/// A [`Step`] as a mathematical value, over the view of the task's state.
pub enum StepView<S, T, E> {
    Next(S, ActionView),
    Finished(T),
    Failed(E),
}

impl<S, T, E> StepView<S, T, E> {
    /// The task has come to an end.
    pub open spec fn ended(self) -> bool {
        !(self is Next)
    }
}

} // verus!
