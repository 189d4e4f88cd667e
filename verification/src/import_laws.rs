//! What holds of every pass of the importer that is run against a store.

use vstd::prelude::*;
use crate::chain::Chain;
use crate::task::{ActionView, Event, StepView};
use crate::run::Task;
use crate::store::Store;
use crate::import::{ImportError, ImportOutcome, ImportState, import_step};

verus! {

/// A pass over `chain` as a task that runs against a store.
pub open spec fn import_pass(chain: Chain) -> Task<ImportState, ImportOutcome, ImportError> {
    Task {
        start: (ImportState::LoadingHighest { chain }, ActionView::LoadHighestBlockNumber(chain)),
        step: |state: ImportState, event: Event| import_step(state, event).as_view(),
    }
}

/// The remote head that a run was told of, once it has been.
pub open spec fn reported_head(events: Seq<Event>) -> Option<u64> {
    if events.len() >= 2 {
        match events[1] {
            Event::LatestBlockNumber(head) => Some(head),
            _ => None,
        }
    } else {
        None
    }
}

/// What a pass that began on `start` knows and has done after `events`:
/// it holds the highest block number that was stored at the start and the
/// head that the remote reported, it works towards a head above that
/// number, and it has not written a highest block number before it ends.
pub open spec fn pass_invariant(
    start: Store,
    chain: Chain,
    events: Seq<Event>,
    step: StepView<ImportState, ImportOutcome, ImportError>,
    now: Store,
) -> bool {
    match step {
        StepView::Next(state, action) => {
            &&& now.highest == start.highest
            &&& action is StoreHighestBlockNumber ==> state is StoringHighest
            &&& match state {
                ImportState::LoadingHighest { chain: of } => {
                    &&& of == chain
                    &&& events.len() == 0
                    &&& now == start
                    &&& action == ActionView::LoadHighestBlockNumber(chain)
                },
                ImportState::FetchingHead { chain: of, stored } => {
                    &&& of == chain
                    &&& events.len() == 1
                    &&& now == start
                    &&& stored == start.highest_block_number(chain)
                    &&& action == ActionView::FetchLatestBlockNumber(chain)
                },
                ImportState::FirstFetchingHead { chain: of, head } => {
                    &&& of == chain
                    &&& reported_head(events) == Some(head)
                    &&& start.highest_block_number(chain) is None
                },
                ImportState::FirstFetchingPrev { chain: of, head, head_block } => {
                    &&& of == chain
                    &&& reported_head(events) == Some(head)
                    &&& start.highest_block_number(chain) is None
                },
                ImportState::FirstStoringHead { chain: of, head, prev_block } => {
                    &&& of == chain
                    &&& reported_head(events) == Some(head)
                    &&& start.highest_block_number(chain) is None
                },
                ImportState::FirstStoringPrev { chain: of, head } => {
                    &&& of == chain
                    &&& reported_head(events) == Some(head)
                    &&& start.highest_block_number(chain) is None
                },
                ImportState::Fetching { chain: of, highest, head } => {
                    &&& of == chain
                    &&& reported_head(events) == Some(head)
                    &&& start.highest_block_number(chain) == Some(highest)
                    &&& head > highest
                },
                ImportState::Storing { chain: of, highest, head, prev_number, prev_hash } => {
                    &&& of == chain
                    &&& reported_head(events) == Some(head)
                    &&& start.highest_block_number(chain) == Some(highest)
                    &&& head > highest
                },
                ImportState::LoadingPrev { chain: of, highest, head, prev_number, prev_hash } => {
                    &&& of == chain
                    &&& reported_head(events) == Some(head)
                    &&& start.highest_block_number(chain) == Some(highest)
                    &&& head > highest
                },
                ImportState::FastForwarding { chain: of, highest, head, prev_number, prev_hash } => {
                    &&& of == chain
                    &&& reported_head(events) == Some(head)
                    &&& start.highest_block_number(chain) == Some(highest)
                    &&& head > highest
                },
                ImportState::Pacing { chain: of, highest, head, next } => {
                    &&& of == chain
                    &&& reported_head(events) == Some(head)
                    &&& start.highest_block_number(chain) == Some(highest)
                    &&& head > highest
                },
                ImportState::StoringHighest { chain: of, outcome } => {
                    &&& of == chain
                    &&& match outcome {
                        ImportOutcome::FirstBlocks { head } => {
                            &&& reported_head(events) == Some(head)
                            &&& start.highest_block_number(chain) is None
                            &&& action == ActionView::StoreHighestBlockNumber(chain, head)
                        },
                        ImportOutcome::Synced { head, joined } => {
                            &&& reported_head(events) == Some(head)
                            &&& action == ActionView::StoreHighestBlockNumber(chain, head)
                            &&& match start.highest_block_number(chain) {
                                Some(highest) => joined <= highest < head,
                                None => false,
                            }
                        },
                        _ => false,
                    }
                },
            }
        },
        StepView::Finished(outcome) => match outcome {
            ImportOutcome::NoNewBlocks { head } => {
                &&& now == start
                &&& reported_head(events) == Some(head)
                &&& start.highest_block_number(chain) == Some(head)
            },
            ImportOutcome::HeadBehind { head, highest } => {
                &&& now == start
                &&& reported_head(events) == Some(head)
                &&& start.highest_block_number(chain) == Some(highest)
                &&& head < highest
            },
            ImportOutcome::FirstBlocks { head } => {
                &&& reported_head(events) == Some(head)
                &&& start.highest_block_number(chain) is None
                &&& now.highest == start.highest.insert(chain, head)
            },
            ImportOutcome::Synced { head, joined } => {
                &&& reported_head(events) == Some(head)
                &&& now.highest == start.highest.insert(chain, head)
                &&& match start.highest_block_number(chain) {
                    Some(highest) => joined <= highest < head,
                    None => false,
                }
            },
        },
        StepView::Failed(_) => now.highest == start.highest,
    }
}

/// One answered request keeps the invariant.
proof fn lemma_step_keeps_invariant(
    start: Store,
    chain: Chain,
    events: Seq<Event>,
    state: ImportState,
    action: ActionView,
    now: Store,
)
    requires
        events.len() > 0,
        pass_invariant(start, chain, events.drop_last(), StepView::Next(state, action), now),
        now.answers(action, events.last()),
    ensures
        pass_invariant(
            start,
            chain,
            events,
            import_step(state, events.last()).as_view(),
            now.after(action),
        ),
{
    let earlier = events.drop_last();
    assert(earlier.len() >= 2 ==> earlier[1] == events[1]);
    assert(reported_head(earlier) is Some ==> reported_head(events) == reported_head(earlier));
    match state {
        ImportState::LoadingHighest { .. } => {},
        ImportState::FetchingHead { .. } => {},
        ImportState::FirstFetchingHead { .. } => {},
        ImportState::FirstFetchingPrev { .. } => {},
        ImportState::FirstStoringHead { .. } => {},
        ImportState::FirstStoringPrev { .. } => {},
        ImportState::Fetching { .. } => {},
        ImportState::Storing { .. } => {},
        ImportState::LoadingPrev { .. } => {},
        ImportState::FastForwarding { .. } => {},
        ImportState::Pacing { .. } => {},
        ImportState::StoringHighest { .. } => {},
    }
}

/// The invariant holds after every run.
pub proof fn lemma_pass_invariant(start: Store, chain: Chain, events: Seq<Event>)
    requires
        import_pass(chain).is_run(start, events),
    ensures
        pass_invariant(
            start,
            chain,
            events,
            import_pass(chain).after(events),
            import_pass(chain).store_after(start, events),
        ),
    decreases events.len(),
{
    let task = import_pass(chain);
    if events.len() > 0 {
        let earlier = events.drop_last();
        task.lemma_last_event(start, events);
        lemma_pass_invariant(start, chain, earlier);
        match task.after(earlier) {
            StepView::Next(state, action) => {
                assert(task.after(events) == import_step(state, events.last()).as_view());
                lemma_step_keeps_invariant(
                    start,
                    chain,
                    events,
                    state,
                    action,
                    task.store_after(start, earlier),
                );
            },
            _ => {},
        }
    }
}

/// The highest block number of a chain never goes down in a pass, whether
/// the pass ends or fails or is cut short; those of other chains stay.
pub proof fn highest_block_number_never_decreases(start: Store, chain: Chain, events: Seq<Event>)
    requires
        import_pass(chain).is_run(start, events),
    ensures
        match start.highest_block_number(chain) {
            Some(before) => match import_pass(chain).store_after(
                start,
                events,
            ).highest_block_number(chain) {
                Some(after) => after >= before,
                None => false,
            },
            None => true,
        },
        forall|other: Chain|
            other != chain ==> #[trigger] import_pass(chain).store_after(
                start,
                events,
            ).highest_block_number(other) == start.highest_block_number(other),
{
    lemma_pass_invariant(start, chain, events);
}

/// The highest block number is written only at the end of a pass that
/// succeeds: while a pass is under way, and after it has failed, every
/// chain has the highest block number it had before; a pass that found
/// nothing new leaves it too; and a pass that imported has set it to the
/// head that the remote reported.
pub proof fn highest_block_number_is_written_last(start: Store, chain: Chain, events: Seq<Event>)
    requires
        import_pass(chain).is_run(start, events),
    ensures
        match import_pass(chain).after(events) {
            StepView::Finished(ImportOutcome::FirstBlocks { head }) => import_pass(
                chain,
            ).store_after(start, events).highest == start.highest.insert(chain, head)
                && reported_head(events) == Some(head),
            StepView::Finished(ImportOutcome::Synced { head, .. }) => import_pass(
                chain,
            ).store_after(start, events).highest == start.highest.insert(chain, head)
                && reported_head(events) == Some(head),
            _ => import_pass(chain).store_after(start, events).highest == start.highest,
        },
{
    lemma_pass_invariant(start, chain, events);
}

/// A pass that finds the remote head at the highest block number stored, or
/// below it, returns at once and leaves the store as it was.
pub proof fn pass_without_new_blocks_changes_nothing(
    start: Store,
    chain: Chain,
    events: Seq<Event>,
    highest: u64,
    head: u64,
)
    requires
        import_pass(chain).is_run(start, events),
        start.highest_block_number(chain) == Some(highest),
        reported_head(events) == Some(head),
        head <= highest,
    ensures
        events.len() == 2,
        import_pass(chain).store_after(start, events) == start,
        import_pass(chain).after(events) == StepView::<
            ImportState,
            ImportOutcome,
            ImportError,
        >::Finished(
            if head == highest {
                ImportOutcome::NoNewBlocks { head }
            } else {
                ImportOutcome::HeadBehind { head, highest }
            },
        ),
{
    let task = import_pass(chain);
    assert(events.take(0) =~= Seq::<Event>::empty());
    assert(task.answered_at(start, events, 0));
    task.lemma_one_more_event(start, events, 0);
    assert(task.after(events.take(1)) == import_step(task.start.0, events[0]).as_view());
    assert(task.answered_at(start, events, 1));
    task.lemma_one_more_event(start, events, 1);
    match task.after(events.take(1)) {
        StepView::Next(state, _) => {
            assert(task.after(events.take(2)) == import_step(state, events[1]).as_view());
        },
        _ => {},
    }
    task.lemma_ended_run_is_whole(start, events, 2);
}

/// A pass that came to its end has recorded the head it was told of, unless
/// that head lay below what was stored: a second pass that is told of the
/// same head returns at once and leaves the store as the first left it.
pub proof fn second_pass_changes_nothing(
    start: Store,
    chain: Chain,
    first: Seq<Event>,
    second: Seq<Event>,
)
    requires
        import_pass(chain).is_run(start, first),
        import_pass(chain).after(first) is Finished,
        import_pass(chain).is_run(import_pass(chain).store_after(start, first), second),
        reported_head(second) is Some,
        reported_head(second) == reported_head(first),
    ensures
        second.len() == 2,
        import_pass(chain).after(second) is Finished,
        import_pass(chain).store_after(import_pass(chain).store_after(start, first), second)
            == import_pass(chain).store_after(start, first),
{
    let task = import_pass(chain);
    let between = task.store_after(start, first);
    lemma_pass_invariant(start, chain, first);
    let head = reported_head(first)->Some_0;
    match task.after(first) {
        StepView::Finished(ImportOutcome::HeadBehind { head: _, highest }) => {
            pass_without_new_blocks_changes_nothing(between, chain, second, highest, head);
        },
        _ => {
            assert(between.highest_block_number(chain) == Some(head));
            pass_without_new_blocks_changes_nothing(between, chain, second, head, head);
        },
    }
}

/// A pass that has synced ended its walk at a join: the last block it
/// fetched is stored, names the join point as its predecessor, and the
/// block stored at the join point carries the hash that it names as its
/// parent's. The join point is not above the highest block number that was
/// stored before the pass.
pub proof fn synced_pass_joins_the_stored_chain(
    start: Store,
    chain: Chain,
    events: Seq<Event>,
    head: u64,
    joined: u64,
)
    requires
        import_pass(chain).is_run(start, events),
        import_pass(chain).after(events) == StepView::<
            ImportState,
            ImportOutcome,
            ImportError,
        >::Finished(ImportOutcome::Synced { head, joined }),
    ensures
        events.len() >= 4,
        match start.highest_block_number(chain) {
            Some(highest) => joined <= highest,
            None => false,
        },
        match events[events.len() - 4] {
            Event::Fetched(Some(block)) => {
                let end = import_pass(chain).store_after(start, events);
                &&& block.prev_block_number == Some(joined)
                &&& end.block(block.chain, block.block_number) == Some(block)
                &&& match end.block(chain, joined) {
                    Some(pred) => block.links_to(&pred),
                    None => false,
                }
            },
            _ => false,
        },
{
    let task = import_pass(chain);
    lemma_pass_invariant(start, chain, events);
    let e3 = events;
    task.lemma_last_event(start, e3);
    let e2 = e3.drop_last();
    match task.after(e2) {
        StepView::Next(s2, a2) => {
            assert(task.after(e3) == import_step(s2, e3.last()).as_view());
            assert(s2 is StoringHighest);
        },
        _ => {},
    }
    task.lemma_last_event(start, e2);
    let e1 = e2.drop_last();
    lemma_pass_invariant(start, chain, e1);
    match task.after(e1) {
        StepView::Next(s1, a1) => {
            assert(task.after(e2) == import_step(s1, e2.last()).as_view());
            assert(s1 is LoadingPrev);
        },
        _ => {},
    }
    task.lemma_last_event(start, e1);
    let e0 = e1.drop_last();
    match task.after(e0) {
        StepView::Next(s0, a0) => {
            assert(task.after(e1) == import_step(s0, e1.last()).as_view());
            assert(s0 is Storing);
        },
        _ => {},
    }
    task.lemma_last_event(start, e0);
    let before = e0.drop_last();
    match task.after(before) {
        StepView::Next(fetching, _) => {
            assert(task.after(e0) == import_step(fetching, e0.last()).as_view());
            assert(fetching is Fetching);
        },
        _ => {},
    }
    assert(e0.last() == events[events.len() - 4]);
}

/// A first import that came to its end fetched the head and its
/// predecessor, found the predecessor's hash to be the one that the head
/// names, and stored both: the predecessor is stored as it came, and so is
/// the head unless the predecessor came under the same chain and number and
/// took its place.
pub proof fn first_pass_stores_a_linked_pair(
    start: Store,
    chain: Chain,
    events: Seq<Event>,
    head: u64,
)
    requires
        import_pass(chain).is_run(start, events),
        import_pass(chain).after(events) == StepView::<
            ImportState,
            ImportOutcome,
            ImportError,
        >::Finished(ImportOutcome::FirstBlocks { head }),
    ensures
        events.len() == 7,
        start.highest_block_number(chain) is None,
        match (events[2], events[3]) {
            (Event::Fetched(Some(head_block)), Event::Fetched(Some(prev_block))) => {
                let end = import_pass(chain).store_after(start, events);
                &&& head_block.links_to(&prev_block)
                &&& end.block(prev_block.chain, prev_block.block_number) == Some(prev_block)
                &&& (head_block.chain, head_block.block_number) != (
                    prev_block.chain,
                    prev_block.block_number,
                ) ==> end.block(head_block.chain, head_block.block_number) == Some(head_block)
                &&& end.highest_block_number(chain) == Some(head)
            },
            _ => false,
        },
{
    let task = import_pass(chain);
    lemma_pass_invariant(start, chain, events);
    assert(events.len() >= 7) by {
        if events.len() < 7 {
            lemma_first_steps(start, chain, events, events.len() as int);
            assert(events.take(events.len() as int) =~= events);
        }
    }
    lemma_first_steps(start, chain, events, 7);
    task.lemma_ended_run_is_whole(start, events, 7);
}

/// The state of a pass that runs into a first import, event by event.
proof fn lemma_first_steps(start: Store, chain: Chain, events: Seq<Event>, upto: int)
    requires
        import_pass(chain).is_run(start, events),
        0 <= upto <= events.len(),
        upto <= 7,
        import_pass(chain).after(events) matches StepView::Finished(
            ImportOutcome::FirstBlocks { .. },
        ),
    ensures
        upto < 7 ==> import_pass(chain).after(events.take(upto)) is Next,
        upto == 7 ==> match (events[2], events[3]) {
            (Event::Fetched(Some(head_block)), Event::Fetched(Some(prev_block))) => {
                let end = import_pass(chain).store_after(start, events.take(7));
                &&& import_pass(chain).after(events.take(7)) is Finished
                &&& head_block.links_to(&prev_block)
                &&& end.block(prev_block.chain, prev_block.block_number) == Some(prev_block)
                &&& (head_block.chain, head_block.block_number) != (
                    prev_block.chain,
                    prev_block.block_number,
                ) ==> end.block(head_block.chain, head_block.block_number) == Some(head_block)
            },
            _ => false,
        },
        match import_pass(chain).after(events.take(upto)) {
            StepView::Next(state, action) => match state {
                ImportState::LoadingHighest { .. } => upto == 0,
                ImportState::FetchingHead { .. } => upto == 1,
                ImportState::FirstFetchingHead { .. } => upto == 2,
                ImportState::FirstFetchingPrev { head_block, .. } => {
                    upto == 3 && events[2] == Event::Fetched(Some(head_block))
                },
                ImportState::FirstStoringHead { prev_block, .. } => {
                    &&& upto == 4
                    &&& events[3] == Event::Fetched(Some(prev_block))
                    &&& events[2] matches Event::Fetched(Some(head_block)) && action
                        == ActionView::StoreBlock(head_block) && head_block.links_to(&prev_block)
                },
                ImportState::FirstStoringPrev { .. } => {
                    &&& upto == 5
                    &&& events[3] matches Event::Fetched(Some(prev_block)) && action
                        == ActionView::StoreBlock(prev_block)
                    &&& events[2] matches Event::Fetched(Some(head_block)) && import_pass(
                        chain,
                    ).store_after(start, events.take(5)).block(
                        head_block.chain,
                        head_block.block_number,
                    ) == Some(head_block) && head_block.links_to(&events[3]->Fetched_0->Some_0)
                },
                ImportState::StoringHighest { .. } => {
                    &&& upto == 6
                    &&& action is StoreHighestBlockNumber
                    &&& events[3] matches Event::Fetched(Some(prev_block)) && import_pass(
                        chain,
                    ).store_after(start, events.take(6)).block(
                        prev_block.chain,
                        prev_block.block_number,
                    ) == Some(prev_block)
                    &&& events[2] matches Event::Fetched(Some(head_block)) && ((
                        head_block.chain,
                        head_block.block_number,
                    ) != (events[3]->Fetched_0->Some_0.chain, events[3]->Fetched_0->Some_0.block_number)
                        ==> import_pass(chain).store_after(start, events.take(6)).block(
                        head_block.chain,
                        head_block.block_number,
                    ) == Some(head_block)) && head_block.links_to(&events[3]->Fetched_0->Some_0)
                },
                _ => false,
            },
            _ => upto == 7,
        },
    decreases upto,
{
    let task = import_pass(chain);
    lemma_pass_invariant(start, chain, events);
    if upto == 0 {
        assert(events.take(0) =~= Seq::<Event>::empty());
    } else {
        let at = upto - 1;
        lemma_first_steps(start, chain, events, at);
        assert(task.answered_at(start, events, at));
        task.lemma_one_more_event(start, events, at);
        task.lemma_run_prefix(start, events, upto);
        lemma_pass_invariant(start, chain, events.take(upto));
        match task.after(events.take(at)) {
            StepView::Next(state, action) => {
                assert(task.after(events.take(upto)) == import_step(state, events[at]).as_view());
                assert(events.take(upto).len() >= 2 ==> events.take(upto)[1] == events[1]);
                if task.after(events.take(upto)).ended() {
                    task.lemma_ended_run_is_whole(start, events, upto);
                }
            },
            _ => {},
        }
    }
}

} // verus!
