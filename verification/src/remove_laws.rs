//! What holds of every removal that is run against a store.

use vstd::prelude::*;
use crate::chain::Chain;
use crate::db::Block;
use crate::task::{ActionView, Event, StepView};
use crate::run::{Task, reads};
use crate::store::Store;
use crate::remove::{
    RemoveError, RemoveStateView, RemoveStep, older_than_window, remove_step, removal_of, walk_to,
};

verus! {

/// The removal for `chain` as a task that runs against a store.
pub open spec fn removal(chain: Chain) -> Task<RemoveStateView, (), RemoveError> {
    Task {
        start: (
            RemoveStateView::LoadingHighest { chain },
            ActionView::LoadHighestBlockNumber(chain),
        ),
        step: |state: RemoveStateView, event: Event| remove_step(state, event),
    }
}

/// `walk` is the chain of stored blocks below the highest block number: it
/// begins with the block stored there, each further block is the stored
/// predecessor of the one before, and the last has no stored predecessor.
pub open spec fn stored_walk(store: Store, chain: Chain, walk: Seq<Block>) -> bool {
    &&& walk.len() > 0
    &&& match store.highest_block_number(chain) {
        Some(highest) => store.block(chain, highest) == Some(walk[0]),
        None => false,
    }
    &&& forall|i: int|
        0 <= i < walk.len() - 1 ==> match (#[trigger] walk[i]).prev_block_number {
            Some(prev) => store.block(chain, prev) == Some(walk[i + 1]),
            None => false,
        }
    &&& match walk.last().prev_block_number {
        Some(prev) => store.block(chain, prev) is None,
        None => true,
    }
}

/// `at` is where the boundary of `walk` lies: the first block after the
/// latest one that is older than the window, or the length of the walk when
/// no block is.
pub open spec fn boundary_at(walk: Seq<Block>, at: int) -> bool {
    &&& 1 <= at <= walk.len()
    &&& forall|i: int|
        1 <= i < at ==> !older_than_window((#[trigger] walk[i]).timestamp, walk[0].timestamp)
    &&& at < walk.len() ==> older_than_window(walk[at].timestamp, walk[0].timestamp)
}

/// The numbers of the blocks of `walk` that lie below the boundary, in the
/// order of the walk.
pub open spec fn below_boundary(walk: Seq<Block>, boundary: int) -> Seq<u64> {
    if boundary + 1 < walk.len() {
        walk.skip(boundary + 1).map_values(|block: Block| block.block_number)
    } else {
        Seq::empty()
    }
}

/// The numbers marked once the walk has taken in `walk[upto]`.
spec fn marked(walk: Seq<Block>, boundary: int, upto: int) -> Seq<u64>
    decreases upto - boundary,
{
    if upto <= boundary {
        Seq::empty()
    } else {
        marked(walk, boundary, upto - 1).push(walk[upto].block_number)
    }
}

proof fn lemma_marked_is_below_boundary(walk: Seq<Block>, boundary: int, upto: int)
    requires
        1 <= boundary,
        boundary <= upto < walk.len(),
    ensures
        marked(walk, boundary, upto) == walk.subrange(boundary + 1, upto + 1).map_values(
            |block: Block| block.block_number,
        ),
    decreases upto,
{
    let number = |block: Block| block.block_number;
    if upto > boundary {
        lemma_marked_is_below_boundary(walk, boundary, upto - 1);
        assert(walk.subrange(boundary + 1, upto + 1).map_values(number) =~= walk.subrange(
            boundary + 1,
            upto,
        ).map_values(number).push(walk[upto].block_number));
    } else {
        assert(walk.subrange(boundary + 1, upto + 1).map_values(number) =~= Seq::<u64>::empty());
    }
}

/// While the store is as it was at the start and the pending request reads,
/// the next event is the store's answer and the store stays as it was.
proof fn lemma_event_in_walk(store: Store, chain: Chain, events: Seq<Event>, at: int)
    requires
        removal(chain).is_run(store, events),
        0 <= at < events.len(),
        removal(chain).store_after(store, events.take(at)) == store,
        match removal(chain).after(events.take(at)) {
            StepView::Next(_, action) => reads(action),
            _ => true,
        },
    ensures
        match removal(chain).after(events.take(at)) {
            StepView::Next(state, action) => {
                &&& store.answers(action, events[at])
                &&& removal(chain).after(events.take(at + 1)) == remove_step(state, events[at])
                &&& removal(chain).store_after(store, events.take(at + 1)) == store
            },
            _ => false,
        },
{
    let task = removal(chain);
    assert(task.answered_at(store, events, at));
    task.lemma_one_more_event(store, events, at);
}

/// Where the removal stands once it has taken in `walk[at]`.
proof fn lemma_walk_reaches(
    store: Store,
    chain: Chain,
    walk: Seq<Block>,
    boundary: int,
    events: Seq<Event>,
    at: int,
)
    requires
        stored_walk(store, chain, walk),
        boundary_at(walk, boundary),
        removal(chain).is_run(store, events),
        0 <= at < walk.len(),
        events.len() >= at + 2,
    ensures
        removal(chain).after(events.take(at + 2)) == walk_to(
            chain,
            walk[0].timestamp,
            walk[at],
            boundary <= at,
            marked(walk, boundary, at),
        ),
        removal(chain).store_after(store, events.take(at + 2)) == store,
    decreases at,
{
    if at == 0 {
        assert(events.take(0) =~= Seq::<Event>::empty());
        lemma_event_in_walk(store, chain, events, 0);
        lemma_event_in_walk(store, chain, events, 1);
    } else {
        lemma_walk_reaches(store, chain, walk, boundary, events, at - 1);
        assert(walk[at - 1].prev_block_number is Some);
        lemma_event_in_walk(store, chain, events, at + 1);
    }
}

/// The removal arrives at the end of the walk with the store untouched and
/// the blocks below the boundary marked.
proof fn lemma_walk_ends(
    store: Store,
    chain: Chain,
    walk: Seq<Block>,
    boundary: int,
    events: Seq<Event>,
) -> (walked: int)
    requires
        stored_walk(store, chain, walk),
        boundary_at(walk, boundary),
        removal(chain).is_run(store, events),
        removal(chain).after(events).ended(),
    ensures
        0 <= walked <= events.len(),
        removal(chain).after(events.take(walked)) == removal_of(
            chain,
            below_boundary(walk, boundary),
        ),
        removal(chain).store_after(store, events.take(walked)) == store,
{
    let task = removal(chain);
    let last = walk.len() - 1;
    assert(events.take(events.len() as int) =~= events);
    assert(events.len() >= last + 2) by {
        if events.len() < last + 2 {
            if events.len() == 0 {
            } else if events.len() == 1 {
                assert(events.take(0) =~= Seq::<Event>::empty());
                lemma_event_in_walk(store, chain, events, 0);
            } else {
                let at = events.len() - 2;
                lemma_walk_reaches(store, chain, walk, boundary, events, at);
                assert(walk[at].prev_block_number is Some);
            }
        }
    }
    lemma_walk_reaches(store, chain, walk, boundary, events, last);
    assert(marked(walk, boundary, last) == below_boundary(walk, boundary)) by {
        if boundary < last {
            lemma_marked_is_below_boundary(walk, boundary, last);
            assert(walk.subrange(boundary + 1, last + 1) =~= walk.skip(boundary + 1));
        }
    }
    if walk[last].prev_block_number is Some {
        assert(events.len() >= last + 3) by {
            if events.len() == last + 2 {
                assert(events.take(last + 2) =~= events);
            }
        }
        lemma_event_in_walk(store, chain, events, last + 2);
        last + 3
    } else {
        last + 2
    }
}

/// Every removal that runs to its end on a store finishes, and removes
/// exactly the blocks of the walk that lie below the boundary: the store
/// changes only in that they are gone.
pub proof fn removal_clears_below_the_boundary(
    store: Store,
    chain: Chain,
    walk: Seq<Block>,
    boundary: int,
    events: Seq<Event>,
)
    requires
        stored_walk(store, chain, walk),
        boundary_at(walk, boundary),
        removal(chain).is_run(store, events),
        removal(chain).after(events).ended(),
    ensures
        removal(chain).after(events) == RemoveStep::Finished(()),
        removal(chain).store_after(store, events) == (if below_boundary(walk, boundary).len()
            == 0 {
            store
        } else {
            store.after(ActionView::RemoveBlocks(chain, below_boundary(walk, boundary)))
        }),
{
    let task = removal(chain);
    let walked = lemma_walk_ends(store, chain, walk, boundary, events);
    if below_boundary(walk, boundary).len() == 0 {
        task.lemma_ended_run_is_whole(store, events, walked);
    } else {
        assert(events.len() >= walked + 1) by {
            if events.len() == walked {
                assert(events.take(walked) =~= events);
            }
        }
        assert(task.answered_at(store, events, walked));
        task.lemma_one_more_event(store, events, walked);
        task.lemma_ended_run_is_whole(store, events, walked + 1);
    }
}

/// After a removal that ran to its end, no block of the walk that lies
/// below the boundary is stored any more, and a block whose number is not
/// the number of one of those is stored as before: the latest block, the
/// blocks within the window and the boundary itself stay, where their
/// numbers are their own.
pub proof fn removal_keeps_the_window(
    store: Store,
    chain: Chain,
    walk: Seq<Block>,
    boundary: int,
    events: Seq<Event>,
)
    requires
        stored_walk(store, chain, walk),
        boundary_at(walk, boundary),
        removal(chain).is_run(store, events),
        removal(chain).after(events).ended(),
    ensures
        forall|i: int|
            boundary < i < walk.len() ==> removal(chain).store_after(store, events).block(
                chain,
                (#[trigger] walk[i]).block_number,
            ) is None,
        forall|other: Chain, number: u64|
            !(other == chain && below_boundary(walk, boundary).contains(number))
                ==> #[trigger] removal(chain).store_after(store, events).block(other, number)
                == store.block(other, number),
        removal(chain).store_after(store, events).highest == store.highest,
{
    removal_clears_below_the_boundary(store, chain, walk, boundary, events);
    let gone = below_boundary(walk, boundary);
    assert forall|i: int| boundary < i < walk.len() implies gone.contains(
        (#[trigger] walk[i]).block_number,
    ) by {
        assert(gone[i - boundary - 1] == walk[i].block_number);
    }
}

} // verus!
