//! Hash links after a pass of the importer against a remote node that
//! serves one coherent chain.
//!
//! A pass stores a block before it has looked at the block's predecessor,
//! and it never looks at blocks that it did not fetch. What is promised
//! here is this: when the pass has synced, every block that its walk
//! fetched agrees with what is stored at its predecessor; and a first
//! import stores a head and a predecessor that agree, or nothing. A block
//! that an earlier pass left above the new head may still name a parent
//! that has since been replaced.

use vstd::prelude::*;
use crate::chain::Chain;
use crate::db::Block;
use crate::task::{ActionView, Event, StepView};
use crate::store::Store;
use crate::import::{ImportError, ImportOutcome, ImportState, import_step};
use crate::import_laws::import_pass;

verus! {

/// What the remote node holds, by block number.
pub type Remote = Map<u64, Block>;

/// The remote serves one chain: each block is of `chain` and carries its
/// own number, and the block at the number that a block names as its
/// predecessor, where the remote has one, carries the hash that the block
/// names as its parent's.
pub open spec fn coherent(remote: Remote, chain: Chain) -> bool {
    forall|number: u64| #[trigger]
        remote.dom().contains(number) ==> {
            &&& remote[number].chain == chain
            &&& remote[number].block_number == number
            &&& match remote[number].prev_block_number {
                Some(prev) => remote.dom().contains(prev) ==> remote[number].links_to(
                    &remote[prev],
                ),
                None => true,
            }
        }
}

/// What the remote answers when it is asked for the block at `number`.
pub open spec fn served(remote: Remote, number: u64) -> Event {
    if remote.dom().contains(number) {
        Event::Fetched(Some(remote[number]))
    } else {
        Event::Fetched(None)
    }
}

/// Where the event at `at` answers a request for a block, it is what the
/// remote holds at that number.
pub open spec fn served_at(remote: Remote, chain: Chain, events: Seq<Event>, at: int) -> bool {
    match import_pass(chain).after(events.take(at)) {
        StepView::Next(_, ActionView::FetchBlock(_, number)) => events[at] == served(
            remote,
            number,
        ),
        _ => true,
    }
}

/// Every block that the pass fetched came from `remote`.
pub open spec fn served_by(remote: Remote, chain: Chain, events: Seq<Event>) -> bool {
    forall|at: int| 0 <= at < events.len() ==> #[trigger] served_at(remote, chain, events, at)
}

/// The blocks that the backward walk of the pass has fetched.
pub open spec fn walked(chain: Chain, events: Seq<Event>) -> Set<Block>
    decreases events.len(),
{
    if events.len() == 0 {
        Set::empty()
    } else {
        let before = walked(chain, events.drop_last());
        match (import_pass(chain).after(events.drop_last()), events.last()) {
            (StepView::Next(ImportState::Fetching { .. }, _), Event::Fetched(Some(block))) => {
                before.insert(block)
            },
            _ => before,
        }
    }
}

/// `block` agrees with what `store` holds at its predecessor: the block
/// stored there, if there is one, carries the hash that `block` names as
/// its parent's.
pub open spec fn linked(store: Store, chain: Chain, block: Block) -> bool {
    match block.prev_block_number {
        Some(prev) => match store.block(chain, prev) {
            Some(pred) => block.links_to(&pred),
            None => true,
        },
        None => true,
    }
}

/// The pass is about to settle the link of `block`: it is storing it,
/// looking at its predecessor, or about to fetch its predecessor anew.
spec fn settling(step: StepView<ImportState, ImportOutcome, ImportError>, block: Block) -> bool {
    match step {
        StepView::Next(ImportState::Fetching { .. }, ActionView::FetchBlock(_, number)) => {
            block.prev_block_number == Some(number)
        },
        StepView::Next(ImportState::Storing { .. }, ActionView::StoreBlock(stored)) => {
            block == stored || block.prev_block_number == Some(stored.block_number)
        },
        StepView::Next(ImportState::LoadingPrev { prev_number, prev_hash, .. }, _) => {
            block.prev_block_number == Some(prev_number) && block.parent_hash@ == prev_hash@
        },
        StepView::Next(ImportState::Pacing { next, .. }, _) => block.prev_block_number == Some(
            next,
        ),
        _ => false,
    }
}

/// Each state of the walk waits for the answer to its own request.
spec fn in_step(
    remote: Remote,
    chain: Chain,
    step: StepView<ImportState, ImportOutcome, ImportError>,
) -> bool {
    match step {
        StepView::Next(ImportState::Fetching { chain: of, .. }, action) => {
            &&& of == chain
            &&& action matches ActionView::FetchBlock(to, _) && to == chain
        },
        StepView::Next(
            ImportState::Storing { chain: of, prev_number, prev_hash, .. },
            action,
        ) => {
            &&& of == chain
            &&& action matches ActionView::StoreBlock(stored) && remote.dom().contains(
                stored.block_number,
            ) && remote[stored.block_number] == stored && stored.prev_block_number == Some(
                prev_number,
            ) && stored.parent_hash@ == prev_hash@
        },
        StepView::Next(ImportState::LoadingPrev { chain: of, prev_number, .. }, action) => {
            of == chain && action == ActionView::LoadBlock(chain, prev_number)
        },
        StepView::Next(ImportState::FastForwarding { chain: of, .. }, action) => {
            of == chain && action is LoadBlock
        },
        StepView::Next(ImportState::Pacing { chain: of, .. }, action) => {
            of == chain && action is Pace
        },
        StepView::Next(ImportState::StoringHighest { .. }, action) => {
            action is StoreHighestBlockNumber
        },
        StepView::Next(ImportState::LoadingHighest { chain: of }, action) => {
            of == chain && action is LoadHighestBlockNumber
        },
        StepView::Next(ImportState::FetchingHead { chain: of, .. }, action) => {
            of == chain && action is FetchLatestBlockNumber
        },
        _ => true,
    }
}

/// What holds of the walk at every moment: each block fetched so far is
/// the remote's block of its number, and agrees with what is stored at its
/// predecessor or is about to be settled.
spec fn walk_invariant(
    remote: Remote,
    chain: Chain,
    fetched: Set<Block>,
    step: StepView<ImportState, ImportOutcome, ImportError>,
    now: Store,
) -> bool {
    &&& in_step(remote, chain, step)
    &&& !walking(step) ==> fetched == Set::<Block>::empty()
    &&& forall|block: Block| #[trigger]
        fetched.contains(block) ==> {
            &&& remote.dom().contains(block.block_number)
            &&& remote[block.block_number] == block
            &&& step is Failed || linked(now, chain, block) || settling(step, block)
        }
}

/// The pass is in its backward walk, or has ended after one.
spec fn walking(step: StepView<ImportState, ImportOutcome, ImportError>) -> bool {
    match step {
        StepView::Next(state, _) => {
            ||| state is Fetching
            ||| state is Storing
            ||| state is LoadingPrev
            ||| state is FastForwarding
            ||| state is Pacing
            ||| state matches ImportState::StoringHighest { outcome, .. } && outcome is Synced
        },
        StepView::Finished(outcome) => outcome is Synced,
        StepView::Failed(_) => true,
    }
}

proof fn lemma_step_keeps_walk(
    remote: Remote,
    chain: Chain,
    fetched: Set<Block>,
    state: ImportState,
    action: ActionView,
    now: Store,
    event: Event,
)
    requires
        coherent(remote, chain),
        walk_invariant(remote, chain, fetched, StepView::Next(state, action), now),
        now.answers(action, event),
        action matches ActionView::FetchBlock(_, number) ==> event == served(remote, number),
    ensures
        walk_invariant(
            remote,
            chain,
            match (state, event) {
                (ImportState::Fetching { .. }, Event::Fetched(Some(block))) => fetched.insert(
                    block,
                ),
                _ => fetched,
            },
            import_step(state, event).as_view(),
            now.after(action),
        ),
{
    let next = import_step(state, event).as_view();
    let after = now.after(action);
    let more = match (state, event) {
        (ImportState::Fetching { .. }, Event::Fetched(Some(block))) => fetched.insert(block),
        _ => fetched,
    };
    assert forall|block: Block| #[trigger] more.contains(block) implies {
        &&& remote.dom().contains(block.block_number)
        &&& remote[block.block_number] == block
        &&& next is Failed || linked(after, chain, block) || settling(next, block)
    } by {
        if fetched.contains(block) {
            assert(remote.dom().contains(block.block_number));
            match state {
                ImportState::Storing { .. } => {
                    let stored = action->StoreBlock_0;
                    assert(remote.dom().contains(stored.block_number));
                    if block.prev_block_number == Some(stored.block_number) {
                        assert(after.block(chain, stored.block_number) == Some(stored));
                    }
                },
                _ => {},
            }
        } else {
            match (state, event) {
                (ImportState::Fetching { .. }, Event::Fetched(Some(found))) => {
                    assert(block == found);
                    let number = action->FetchBlock_1;
                    assert(remote.dom().contains(number));
                },
                _ => {},
            }
        }
    }
    assert(in_step(remote, chain, next)) by {
        match (state, event) {
            (ImportState::Fetching { .. }, Event::Fetched(Some(found))) => {
                let number = action->FetchBlock_1;
                assert(remote.dom().contains(number));
            },
            _ => {},
        }
    }
}

proof fn lemma_walk_invariant(start: Store, remote: Remote, chain: Chain, events: Seq<Event>)
    requires
        coherent(remote, chain),
        import_pass(chain).is_run(start, events),
        served_by(remote, chain, events),
    ensures
        walk_invariant(
            remote,
            chain,
            walked(chain, events),
            import_pass(chain).after(events),
            import_pass(chain).store_after(start, events),
        ),
    decreases events.len(),
{
    let task = import_pass(chain);
    if events.len() > 0 {
        let earlier = events.drop_last();
        let at = events.len() - 1;
        task.lemma_last_event(start, events);
        assert(events.take(at) =~= earlier);
        assert(served_by(remote, chain, earlier)) by {
            assert forall|i: int| 0 <= i < earlier.len() implies #[trigger] served_at(
                remote,
                chain,
                earlier,
                i,
            ) by {
                assert(earlier.take(i) =~= events.take(i));
                assert(served_at(remote, chain, events, i));
            }
        }
        lemma_walk_invariant(start, remote, chain, earlier);
        assert(served_at(remote, chain, events, at));
        match task.after(earlier) {
            StepView::Next(state, action) => {
                assert(task.after(events) == import_step(state, events.last()).as_view());
                lemma_step_keeps_walk(
                    remote,
                    chain,
                    walked(chain, earlier),
                    state,
                    action,
                    task.store_after(start, earlier),
                    events.last(),
                );
            },
            _ => {},
        }
    }
}

/// When a pass has synced against a remote that serves one coherent chain,
/// every block that its walk fetched is stored in agreement with what is
/// stored at its predecessor.
pub proof fn synced_pass_leaves_its_blocks_linked(
    start: Store,
    remote: Remote,
    chain: Chain,
    events: Seq<Event>,
    block: Block,
)
    requires
        coherent(remote, chain),
        import_pass(chain).is_run(start, events),
        served_by(remote, chain, events),
        import_pass(chain).after(events) matches StepView::Finished(
            ImportOutcome::Synced { .. },
        ),
        walked(chain, events).contains(block),
    ensures
        linked(import_pass(chain).store_after(start, events), chain, block),
        block.chain == chain,
{
    lemma_walk_invariant(start, remote, chain, events);
}

/// A pass that has come to an end took an event for every request that
/// was pending on the way.
proof fn lemma_pass_goes_on(start: Store, chain: Chain, events: Seq<Event>, at: int)
    requires
        import_pass(chain).is_run(start, events),
        import_pass(chain).after(events).ended(),
        0 <= at <= events.len(),
        import_pass(chain).after(events.take(at)) is Next,
    ensures
        at < events.len(),
        match import_pass(chain).after(events.take(at)) {
            StepView::Next(state, action) => {
                &&& import_pass(chain).store_after(start, events.take(at)).answers(
                    action,
                    events[at],
                )
                &&& import_pass(chain).after(events.take(at + 1)) == import_step(
                    state,
                    events[at],
                ).as_view()
                &&& import_pass(chain).store_after(start, events.take(at + 1)) == import_pass(
                    chain,
                ).store_after(start, events.take(at)).after(action)
            },
            _ => false,
        },
{
    let task = import_pass(chain);
    if at == events.len() {
        assert(events.take(at) =~= events);
    }
    assert(task.answered_at(start, events, at));
    task.lemma_one_more_event(start, events, at);
}

/// The first import of a chain, against a remote that holds the head and
/// the block that the head names as its predecessor, each under its own
/// number: the pass succeeds exactly when the predecessor carries the hash
/// that the head names as its parent's. When it succeeds, both blocks are
/// stored as the remote holds them and the head is the highest block
/// number; when it fails, nothing has been written.
pub proof fn first_pass_links_head_and_predecessor(
    start: Store,
    remote: Remote,
    chain: Chain,
    events: Seq<Event>,
    head: u64,
    prev: u64,
)
    requires
        import_pass(chain).is_run(start, events),
        served_by(remote, chain, events),
        import_pass(chain).after(events).ended(),
        start.highest_block_number(chain) is None,
        events.len() >= 2 ==> events[1] == Event::LatestBlockNumber(head),
        remote.dom().contains(head),
        remote[head].chain == chain,
        remote[head].block_number == head,
        remote[head].prev_block_number == Some(prev),
        remote.dom().contains(prev),
        remote[prev].chain == chain,
        remote[prev].block_number == prev,
    ensures
        remote[head].links_to(&remote[prev]) ==> {
            let end = import_pass(chain).store_after(start, events);
            &&& import_pass(chain).after(events) == StepView::<
                ImportState,
                ImportOutcome,
                ImportError,
            >::Finished(ImportOutcome::FirstBlocks { head })
            &&& end.block(chain, head) == Some(remote[head])
            &&& end.block(chain, prev) == Some(remote[prev])
            &&& linked(end, chain, remote[head])
            &&& end.highest_block_number(chain) == Some(head)
        },
        !remote[head].links_to(&remote[prev]) ==> {
            &&& import_pass(chain).after(events) == StepView::<
                ImportState,
                ImportOutcome,
                ImportError,
            >::Failed(ImportError::FirstBlocksMismatch)
            &&& import_pass(chain).store_after(start, events) == start
        },
{
    let task = import_pass(chain);
    assert(events.take(0) =~= Seq::<Event>::empty());
    lemma_pass_goes_on(start, chain, events, 0);
    lemma_pass_goes_on(start, chain, events, 1);
    assert(task.store_after(start, events.take(2)) == start);
    lemma_pass_goes_on(start, chain, events, 2);
    assert(served_at(remote, chain, events, 2));
    assert(events[2] == Event::Fetched(Some(remote[head])));
    lemma_pass_goes_on(start, chain, events, 3);
    assert(served_at(remote, chain, events, 3));
    assert(events[3] == Event::Fetched(Some(remote[prev])));
    assert(task.store_after(start, events.take(4)) == start);
    if remote[head].links_to(&remote[prev]) {
        lemma_pass_goes_on(start, chain, events, 4);
        lemma_pass_goes_on(start, chain, events, 5);
        lemma_pass_goes_on(start, chain, events, 6);
        task.lemma_ended_run_is_whole(start, events, 7);
    } else {
        task.lemma_ended_run_is_whole(start, events, 4);
    }
}

} // verus!
