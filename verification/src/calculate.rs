//! Throughput over the trailing week, read from stored blocks alone.
//!
//! The calculation walks back from the highest stored block along the
//! predecessor links. It is a task that asks for one stored record at a time:
//! [`calculate_start`] gives the first request, [`calculate_for_chain`] takes
//! each answer and gives the next request or the result.

use vstd::prelude::*;
use crate::chain::Chain;
use crate::db::Block;
use crate::task::{Action, Event, Step};

verus! {

/// Length of the measurement window, in seconds.
pub const SECONDS_PER_WEEK: u64 = 604800;

/// A throughput as an exact ratio: `num_txs` transactions in `seconds`
/// seconds. The zero throughput is `0 / 1`.
#[derive(Debug, Copy, Clone, PartialEq, Eq, Structural)]
pub struct Tps {
    pub num_txs: u32,
    pub seconds: u32,
}

/// The measured throughput of one chain.
#[derive(Debug, Copy, Clone, PartialEq, Eq, Structural)]
pub struct ChainCalcs {
    pub chain: Chain,
    pub tps: Tps,
}

/// A finished calculation: the throughput and the timestamps, in seconds
/// since the epoch, of the newest and the oldest block that it used.
#[derive(Debug, Copy, Clone, PartialEq, Eq, Structural)]
pub struct Calculation {
    pub calcs: ChainCalcs,
    pub newest_block_timestamp: i64,
    pub oldest_block_timestamp: i64,
}

#[derive(Debug, Copy, Clone, PartialEq, Eq, Structural)]
pub enum CalculateError {
    /// The chain has no highest block number yet.
    NoData,
    /// The block at the highest block number is not stored.
    MissingLatestBlock,
    /// The transaction total does not fit in 64 bits.
    TxCountOverflow,
    /// A block timestamp is beyond what a signed 64-bit calendar time holds.
    TimestampOutOfRange,
    /// The event does not answer the request that was pending.
    UnexpectedEvent,
}

/// Where a calculation stands between two requests.
#[derive(Debug, Copy, Clone, PartialEq, Eq, Structural)]
pub enum CalcState {
    /// Waiting for the highest block number.
    LoadingHighest { chain: Chain },
    /// Waiting for the block at the highest block number.
    LoadingLatest { chain: Chain },
    /// Waiting for the predecessor of the current block. `num_txs` is the
    /// total gathered so far, which does not yet hold `current_num_txs`.
    Walking {
        chain: Chain,
        latest_timestamp: u64,
        current_timestamp: u64,
        current_num_txs: u64,
        num_txs: u64,
    },
}

impl Tps {
    pub open spec fn zero() -> Tps {
        Tps { num_txs: 0, seconds: 1 }
    }

    pub open spec fn spec_is_zero(&self) -> bool {
        self.num_txs == 0
    }

    /// No transactions at all were counted.
    #[verifier::when_used_as_spec(spec_is_zero)]
    pub fn is_zero(&self) -> (zero: bool)
        ensures
            zero == self.spec_is_zero(),
    {
        self.num_txs == 0
    }
}

/// The throughput of `num_txs` transactions between `init_timestamp` and
/// `latest_timestamp`: zero when no time has passed, or when the span or the
/// count is beyond 32 bits; else the ratio of the two.
pub open spec fn tps_of(init_timestamp: u64, latest_timestamp: u64, num_txs: u64) -> Tps {
    if latest_timestamp <= init_timestamp || latest_timestamp - init_timestamp > u32::MAX
        || num_txs > u32::MAX {
        Tps::zero()
    } else {
        Tps { num_txs: num_txs as u32, seconds: (latest_timestamp - init_timestamp) as u32 }
    }
}

pub fn calculate_tps(init_timestamp: u64, latest_timestamp: u64, num_txs: u64) -> (tps: Tps)
    ensures
        tps == tps_of(init_timestamp, latest_timestamp, num_txs),
        tps.seconds > 0,
        latest_timestamp <= init_timestamp ==> tps.is_zero(),
{
    let total_seconds = latest_timestamp.saturating_sub(init_timestamp);
    if total_seconds == 0 || total_seconds > 0xffff_ffff || num_txs > 0xffff_ffff {
        Tps { num_txs: 0, seconds: 1 }
    } else {
        Tps { num_txs: num_txs as u32, seconds: total_seconds as u32 }
    }
}

/// A block with this timestamp lies at or beyond the far edge of the window
/// that ends at `latest_timestamp`.
pub open spec fn window_edge_reached(timestamp: u64, latest_timestamp: u64) -> bool {
    timestamp + SECONDS_PER_WEEK <= latest_timestamp
}

/// What a calculation that ends at a block with `init_timestamp` reports.
pub open spec fn calculation_of(
    chain: Chain,
    init_timestamp: u64,
    latest_timestamp: u64,
    num_txs: u64,
) -> Step<CalcState, Calculation, CalculateError> {
    if latest_timestamp > i64::MAX || init_timestamp > i64::MAX {
        Step::Failed(CalculateError::TimestampOutOfRange)
    } else {
        Step::Finished(
            Calculation {
                calcs: ChainCalcs { chain, tps: tps_of(init_timestamp, latest_timestamp, num_txs) },
                newest_block_timestamp: latest_timestamp as i64,
                oldest_block_timestamp: init_timestamp as i64,
            },
        )
    }
}

/// The walk has arrived at `current` with `num_txs` gathered from the blocks
/// above it: it ends here when `current` names no predecessor, and asks for
/// the predecessor otherwise.
pub open spec fn arrive_at(
    chain: Chain,
    latest_timestamp: u64,
    current: Block,
    num_txs: u64,
) -> Step<CalcState, Calculation, CalculateError> {
    match current.prev_block_number {
        None => calculation_of(chain, current.timestamp, latest_timestamp, num_txs),
        Some(prev) => Step::Next(
            CalcState::Walking {
                chain,
                latest_timestamp,
                current_timestamp: current.timestamp,
                current_num_txs: current.num_txs,
                num_txs,
            },
            Action::LoadBlock(chain, prev),
        ),
    }
}

/// The transition of the calculation.
///
/// The predecessor of the current block ends the walk when it is absent,
/// when it lies at or beyond the window's edge, or when it is block 0. The
/// current block's transactions count once its predecessor has been found;
/// those of the latest block of all are thereby left out.
pub open spec fn calculate_step(state: CalcState, event: Event) -> Step<
    CalcState,
    Calculation,
    CalculateError,
> {
    match (state, event) {
        (CalcState::LoadingHighest { chain }, Event::HighestBlockNumber(None)) => Step::Failed(
            CalculateError::NoData,
        ),
        (CalcState::LoadingHighest { chain }, Event::HighestBlockNumber(Some(highest))) => {
            Step::Next(CalcState::LoadingLatest { chain }, Action::LoadBlock(chain, highest))
        },
        (CalcState::LoadingLatest { chain }, Event::Loaded(None)) => Step::Failed(
            CalculateError::MissingLatestBlock,
        ),
        (CalcState::LoadingLatest { chain }, Event::Loaded(Some(latest))) => arrive_at(
            chain,
            latest.timestamp,
            latest,
            0,
        ),
        (
            CalcState::Walking { chain, latest_timestamp, current_timestamp, current_num_txs, num_txs },
            Event::Loaded(None),
        ) => calculation_of(chain, current_timestamp, latest_timestamp, num_txs),
        (
            CalcState::Walking { chain, latest_timestamp, current_timestamp, current_num_txs, num_txs },
            Event::Loaded(Some(prev)),
        ) => {
            if num_txs + current_num_txs > u64::MAX {
                Step::Failed(CalculateError::TxCountOverflow)
            } else if window_edge_reached(prev.timestamp, latest_timestamp) || prev.block_number
                == 0 {
                calculation_of(
                    chain,
                    prev.timestamp,
                    latest_timestamp,
                    (num_txs + current_num_txs) as u64,
                )
            } else {
                arrive_at(chain, latest_timestamp, prev, (num_txs + current_num_txs) as u64)
            }
        },
        _ => Step::Failed(CalculateError::UnexpectedEvent),
    }
}

/// Begins a calculation for `chain`.
pub fn calculate_start(chain: Chain) -> (start: (CalcState, Action))
    ensures
        start == (CalcState::LoadingHighest { chain }, Action::LoadHighestBlockNumber(chain)),
{
    (CalcState::LoadingHighest { chain }, Action::LoadHighestBlockNumber(chain))
}

fn finish_calculation(chain: Chain, init_timestamp: u64, latest_timestamp: u64, num_txs: u64) -> (step:
    Step<CalcState, Calculation, CalculateError>)
    ensures
        step == calculation_of(chain, init_timestamp, latest_timestamp, num_txs),
{
    let tps = calculate_tps(init_timestamp, latest_timestamp, num_txs);
    if latest_timestamp > 0x7fff_ffff_ffff_ffff || init_timestamp > 0x7fff_ffff_ffff_ffff {
        Step::Failed(CalculateError::TimestampOutOfRange)
    } else {
        Step::Finished(
            Calculation {
                calcs: ChainCalcs { chain, tps },
                newest_block_timestamp: latest_timestamp as i64,
                oldest_block_timestamp: init_timestamp as i64,
            },
        )
    }
}

fn walk_on(chain: Chain, latest_timestamp: u64, current: Block, num_txs: u64) -> (step: Step<
    CalcState,
    Calculation,
    CalculateError,
>)
    ensures
        step == arrive_at(chain, latest_timestamp, current, num_txs),
{
    match current.prev_block_number {
        None => finish_calculation(chain, current.timestamp, latest_timestamp, num_txs),
        Some(prev) => Step::Next(
            CalcState::Walking {
                chain,
                latest_timestamp,
                current_timestamp: current.timestamp,
                current_num_txs: current.num_txs,
                num_txs,
            },
            Action::LoadBlock(chain, prev),
        ),
    }
}

/// Advances the calculation by one answer from storage.
pub fn calculate_for_chain(state: CalcState, event: Event) -> (step: Step<
    CalcState,
    Calculation,
    CalculateError,
>)
    ensures
        step == calculate_step(state, event),
{
    match state {
        CalcState::LoadingHighest { chain } => match event {
            Event::HighestBlockNumber(None) => Step::Failed(CalculateError::NoData),
            Event::HighestBlockNumber(Some(highest)) => Step::Next(
                CalcState::LoadingLatest { chain },
                Action::LoadBlock(chain, highest),
            ),
            _ => Step::Failed(CalculateError::UnexpectedEvent),
        },
        CalcState::LoadingLatest { chain } => match event {
            Event::Loaded(None) => Step::Failed(CalculateError::MissingLatestBlock),
            Event::Loaded(Some(latest)) => {
                let latest_timestamp = latest.timestamp;
                walk_on(chain, latest_timestamp, latest, 0)
            },
            _ => Step::Failed(CalculateError::UnexpectedEvent),
        },
        CalcState::Walking {
            chain,
            latest_timestamp,
            current_timestamp,
            current_num_txs,
            num_txs,
        } => match event {
            Event::Loaded(None) => finish_calculation(
                chain,
                current_timestamp,
                latest_timestamp,
                num_txs,
            ),
            Event::Loaded(Some(prev)) => match num_txs.checked_add(current_num_txs) {
                None => Step::Failed(CalculateError::TxCountOverflow),
                Some(total) => {
                    let at_edge = latest_timestamp >= SECONDS_PER_WEEK && prev.timestamp
                        <= latest_timestamp - SECONDS_PER_WEEK;
                    if at_edge || prev.block_number == 0 {
                        finish_calculation(chain, prev.timestamp, latest_timestamp, total)
                    } else {
                        walk_on(chain, latest_timestamp, prev, total)
                    }
                },
            },
            _ => Step::Failed(CalculateError::UnexpectedEvent),
        },
    }
}

} // verus!
