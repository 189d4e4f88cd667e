//! What holds of every calculation that is run against a store.

use vstd::prelude::*;
use crate::chain::Chain;
use crate::db::Block;
use crate::task::{ActionView, Event, StepView};
use crate::run::{Task, reads};
use crate::store::Store;
use crate::calculate::{
    CalcState, Calculation, CalculateError, Tps, arrive_at, calculate_step, calculation_of,
    tps_of, window_edge_reached,
};

verus! {

/// The calculation for `chain` as a task that runs against a store.
pub open spec fn calculation(chain: Chain) -> Task<CalcState, Calculation, CalculateError> {
    Task {
        start: (CalcState::LoadingHighest { chain }, ActionView::LoadHighestBlockNumber(chain)),
        step: |state: CalcState, event: Event| calculate_step(state, event).as_view(),
    }
}

/// The transactions of the first `count` blocks of `walk`.
pub open spec fn txs_above(walk: Seq<Block>, count: int) -> int
    decreases count,
{
    if count <= 0 {
        0
    } else {
        txs_above(walk, count - 1) + walk[count - 1].num_txs
    }
}

/// The walk stops when it finds this block as a predecessor.
pub open spec fn closes_window(block: Block, latest_timestamp: u64) -> bool {
    window_edge_reached(block.timestamp, latest_timestamp) || block.block_number == 0
}

/// `walk` is what the calculation visits on `store`: it begins with the
/// block at the highest block number, each further block is the stored
/// predecessor of the one before, none but the last closes the window, and
/// the last one closes it or has no stored predecessor.
pub open spec fn measured_walk(store: Store, chain: Chain, walk: Seq<Block>) -> bool {
    &&& walk.len() > 0
    &&& match store.highest_block_number(chain) {
        Some(highest) => store.block(chain, highest) == Some(walk[0]),
        None => false,
    }
    &&& forall|i: int|
        0 <= i < walk.len() - 1 ==> match (#[trigger] walk[i]).prev_block_number {
            Some(prev) => store.block(chain, prev) == Some(walk[i + 1]),
            None => false,
        }
    &&& forall|i: int|
        1 <= i < walk.len() - 1 ==> !closes_window(#[trigger] walk[i], walk[0].timestamp)
    &&& {
        ||| walk.len() >= 2 && closes_window(walk.last(), walk[0].timestamp)
        ||| match walk.last().prev_block_number {
            Some(prev) => store.block(chain, prev) is None,
            None => true,
        }
    }
}

/// What the calculation reports for a walk: the transactions of all blocks
/// but the last, over the time between the last block and the first.
pub open spec fn measured(chain: Chain, walk: Seq<Block>) -> StepView<
    CalcState,
    Calculation,
    CalculateError,
> {
    calculation_of(
        chain,
        walk.last().timestamp,
        walk[0].timestamp,
        txs_above(walk, walk.len() - 1) as u64,
    ).as_view()
}

/// In a run, the event at `at` is the store's answer to the pending
/// request, and moves the calculation by one transition.
proof fn lemma_event_in_run(store: Store, chain: Chain, events: Seq<Event>, at: int)
    requires
        calculation(chain).is_run(store, events),
        0 <= at < events.len(),
    ensures
        match calculation(chain).after(events.take(at)) {
            StepView::Next(state, action) => {
                &&& store.answers(action, events[at])
                &&& calculation(chain).after(events.take(at + 1)) == calculate_step(
                    state,
                    events[at],
                ).as_view()
            },
            _ => false,
        },
{
    let task = calculation(chain);
    assert(task.answered_at(store, events, at));
    task.lemma_one_more_event(store, events, at);
    lemma_calculation_only_reads(chain);
    task.lemma_reading_keeps_store(store, events.take(at));
}

proof fn lemma_txs_above_grows(walk: Seq<Block>, low: int, high: int)
    requires
        0 <= low <= high,
    ensures
        0 <= txs_above(walk, low) <= txs_above(walk, high),
    decreases high,
{
    if low < high {
        lemma_txs_above_grows(walk, low, high - 1);
    } else if low > 0 {
        lemma_txs_above_grows(walk, low - 1, low - 1);
    }
}

/// The state in which the calculation waits for the predecessor of
/// `walk[at]`, or the result where it has ended on that block.
proof fn lemma_walk_reaches(store: Store, chain: Chain, walk: Seq<Block>, events: Seq<Event>, at: int)
    requires
        measured_walk(store, chain, walk),
        calculation(chain).is_run(store, events),
        txs_above(walk, walk.len() - 1) <= u64::MAX,
        0 <= at < walk.len(),
        events.len() >= at + 2,
    ensures
        calculation(chain).after(events.take(at + 2)) == (if 1 <= at && closes_window(
            walk[at],
            walk[0].timestamp,
        ) {
            calculation_of(
                chain,
                walk[at].timestamp,
                walk[0].timestamp,
                txs_above(walk, at) as u64,
            ).as_view()
        } else {
            arrive_at(chain, walk[0].timestamp, walk[at], txs_above(walk, at) as u64).as_view()
        }),
    decreases at,
{
    lemma_txs_above_grows(walk, at, walk.len() - 1);
    if at == 0 {
        assert(events.take(0) =~= Seq::<Event>::empty());
        lemma_event_in_run(store, chain, events, 0);
        lemma_event_in_run(store, chain, events, 1);
    } else {
        lemma_walk_reaches(store, chain, walk, events, at - 1);
        lemma_txs_above_grows(walk, at - 1, at);
        let before = walk[at - 1];
        assert(before.prev_block_number is Some);
        assert(at - 1 >= 1 ==> !closes_window(walk[at - 1], walk[0].timestamp));
        lemma_event_in_run(store, chain, events, at + 1);
    }
}

/// Every calculation that runs to its end on a store reports the
/// transactions of the blocks it walked over, the last one left out, over
/// the seconds between the last block and the latest; and the oldest
/// timestamp it reports is that of the last block of the walk.
pub proof fn calculation_measures_the_walk(
    store: Store,
    chain: Chain,
    walk: Seq<Block>,
    events: Seq<Event>,
)
    requires
        measured_walk(store, chain, walk),
        txs_above(walk, walk.len() - 1) <= u64::MAX,
        calculation(chain).is_run(store, events),
        calculation(chain).after(events).ended(),
    ensures
        calculation(chain).after(events) == measured(chain, walk),
{
    let last = walk.len() - 1;
    assert(events.take(events.len() as int) =~= events);
    // The run is long enough to have reached the last block of the walk.
    assert(events.len() >= last + 2) by {
        if events.len() < last + 2 {
            if events.len() == 0 {
            } else if events.len() == 1 {
                assert(events.take(0) =~= Seq::<Event>::empty());
                lemma_event_in_run(store, chain, events, 0);
            } else {
                let at = events.len() - 2;
                lemma_walk_reaches(store, chain, walk, events, at);
                assert(walk[at].prev_block_number is Some);
                assert(at >= 1 ==> !closes_window(walk[at], walk[0].timestamp));
            }
        }
    }
    lemma_walk_reaches(store, chain, walk, events, last);
    let reached = calculation(chain).after(events.take(last + 2));
    if reached.ended() {
        calculation(chain).lemma_ended_run_is_whole(store, events, last + 2);
    } else {
        // The last block names a predecessor that is not stored.
        assert(events.len() >= last + 3) by {
            if events.len() == last + 2 {
                assert(events.take(last + 2) =~= events);
            }
        }
        lemma_event_in_run(store, chain, events, last + 2);
        calculation(chain).lemma_ended_run_is_whole(store, events, last + 3);
    }
}

/// Where only the latest block is stored, with no stored predecessor, the
/// calculation reports a throughput of zero.
pub proof fn lone_latest_block_measures_zero(
    store: Store,
    chain: Chain,
    latest: Block,
    events: Seq<Event>,
)
    requires
        match store.highest_block_number(chain) {
            Some(highest) => store.block(chain, highest) == Some(latest),
            None => false,
        },
        match latest.prev_block_number {
            Some(prev) => store.block(chain, prev) is None,
            None => true,
        },
        calculation(chain).is_run(store, events),
        calculation(chain).after(events).ended(),
    ensures
        match calculation(chain).after(events) {
            StepView::Finished(calculation) => calculation.calcs.tps == Tps::zero(),
            StepView::Failed(error) => error == CalculateError::TimestampOutOfRange
                && latest.timestamp > i64::MAX,
            StepView::Next(_, _) => false,
        },
{
    let walk = seq![latest];
    calculation_measures_the_walk(store, chain, walk, events);
}

/// Where no block of the walk lies at or beyond the window's edge, the walk
/// ends at block 0 or at the deepest stored block, and the oldest timestamp
/// that is reported is that block's own: the edge is never computed below
/// zero.
pub proof fn walk_within_window_ends_at_deepest(
    store: Store,
    chain: Chain,
    walk: Seq<Block>,
    events: Seq<Event>,
)
    requires
        measured_walk(store, chain, walk),
        txs_above(walk, walk.len() - 1) <= u64::MAX,
        forall|i: int|
            0 <= i < walk.len() ==> !window_edge_reached(
                (#[trigger] walk[i]).timestamp,
                walk[0].timestamp,
            ),
        calculation(chain).is_run(store, events),
        calculation(chain).after(events).ended(),
    ensures
        walk.last().block_number == 0 || match walk.last().prev_block_number {
            Some(prev) => store.block(chain, prev) is None,
            None => true,
        },
        match calculation(chain).after(events) {
            StepView::Finished(calculation) => {
                &&& calculation.oldest_block_timestamp == walk.last().timestamp
                &&& calculation.newest_block_timestamp == walk[0].timestamp
                &&& calculation.calcs.tps == tps_of(
                    walk.last().timestamp,
                    walk[0].timestamp,
                    txs_above(walk, walk.len() - 1) as u64,
                )
            },
            StepView::Failed(error) => error == CalculateError::TimestampOutOfRange,
            StepView::Next(_, _) => false,
        },
{
    calculation_measures_the_walk(store, chain, walk, events);
}

/// Two runs of the calculation on one store that both came to an end took
/// the same events and report the same result.
pub proof fn calculation_is_deterministic(
    store: Store,
    chain: Chain,
    first: Seq<Event>,
    second: Seq<Event>,
)
    requires
        calculation(chain).is_run(store, first),
        calculation(chain).is_run(store, second),
        calculation(chain).after(first).ended(),
        calculation(chain).after(second).ended(),
    ensures
        first == second,
        calculation(chain).after(first) == calculation(chain).after(second),
{
    lemma_calculation_only_reads(chain);
    calculation(chain).lemma_reading_is_deterministic(store, first, second);
}

/// A calculation only ever asks storage for records.
pub proof fn lemma_calculation_only_reads(chain: Chain)
    ensures
        calculation(chain).only_reads(),
{
    let task = calculation(chain);
    assert forall|state: CalcState, event: Event|
        match #[trigger] (task.step)(state, event) {
            StepView::Next(_, action) => reads(action),
            _ => true,
        } by {
        assert((task.step)(state, event) == calculate_step(state, event).as_view());
    }
}

} // verus!
