//! The chain below the head after a pass has synced.
//!
//! Where the remote node serves one complete chain, where what was stored
//! before the pass is in order, and where a hash names one block, a pass
//! that has synced leaves every block that can be reached from the new head
//! along the stored predecessors in agreement with what is stored at its
//! own predecessor: the blocks that the pass fetched, the blocks of an
//! earlier pass that it skipped, and the blocks below the join.

use vstd::prelude::*;
use crate::chain::Chain;
use crate::db::Block;
use crate::task::{ActionView, Event, StepView};
use crate::store::Store;
use crate::import::{ImportError, ImportOutcome, ImportState, import_step};
use crate::import_laws::import_pass;
use crate::import_links::{Remote, coherent, linked, served, served_at, served_by};

verus! {

/// The remote holds every block that one of its blocks names as its
/// predecessor, and block numbers go down along predecessors.
pub open spec fn complete(remote: Remote) -> bool {
    forall|number: u64| #[trigger]
        remote.dom().contains(number) ==> match remote[number].prev_block_number {
            Some(prev) => prev < number && remote.dom().contains(prev),
            None => true,
        }
}

/// `number` lies on the chain that the remote holds from `from` downwards.
pub open spec fn descends(remote: Remote, from: u64, number: u64) -> bool
    decreases from,
{
    number == from || (remote.dom().contains(from) && match remote[from].prev_block_number {
        Some(prev) => prev < from && descends(remote, prev, number),
        None => false,
    })
}

/// What is stored for `chain` is in order: every block agrees with what is
/// stored at its predecessor, and names a predecessor below its own number.
pub open spec fn settled(store: Store, chain: Chain) -> bool {
    forall|number: u64|
        match #[trigger] store.block(chain, number) {
            Some(block) => {
                &&& linked(store, chain, block)
                &&& match block.prev_block_number {
                    Some(prev) => prev < number,
                    None => true,
                }
            },
            None => true,
        }
}

/// A hash names one block: a block stored under a number that carries the
/// hash of the remote's block of that number names the same predecessor
/// and the same parent as the remote's block does.
pub open spec fn same_by_hash(store: Store, remote: Remote, chain: Chain) -> bool {
    forall|number: u64|
        match #[trigger] store.block(chain, number) {
            Some(block) => remote.dom().contains(number) && block.hash@ == remote[number].hash@
                ==> block.prev_block_number == remote[number].prev_block_number
                && block.parent_hash@ == remote[number].parent_hash@,
            None => true,
        }
}

/// `path` follows the stored predecessors from `from`: each number is the
/// one that the block stored at the number before names as its predecessor.
pub open spec fn follows_predecessors(store: Store, chain: Chain, from: u64, path: Seq<u64>) -> bool {
    &&& path.len() > 0
    &&& path[0] == from
    &&& forall|i: int|
        0 <= i < path.len() - 1 ==> match store.block(chain, #[trigger] path[i]) {
            Some(block) => block.prev_block_number == Some(path[i + 1]),
            None => false,
        }
}

/// What is stored at `number` carries the hash, the predecessor and the
/// parent of the remote's block of that number.
spec fn agrees(store: Store, remote: Remote, chain: Chain, number: u64) -> bool {
    remote.dom().contains(number) && match store.block(chain, number) {
        Some(block) => {
            &&& block.hash@ == remote[number].hash@
            &&& block.prev_block_number == remote[number].prev_block_number
            &&& block.parent_hash@ == remote[number].parent_hash@
        },
        None => false,
    }
}

/// The pass has come down the remote's chain from `head` to `frontier`:
/// above the frontier the store agrees with the remote, and at the frontier
/// and below it the store is as it was at the start.
spec fn caught_up(
    start: Store,
    now: Store,
    remote: Remote,
    chain: Chain,
    head: u64,
    frontier: u64,
) -> bool {
    &&& descends(remote, head, frontier)
    &&& forall|m: u64|
        descends(remote, head, m) && m > frontier ==> #[trigger] agrees(now, remote, chain, m)
    &&& forall|m: u64| m <= frontier ==> #[trigger] now.block(chain, m) == start.block(chain, m)
}

/// The pass has joined the stored chain at `joined`.
spec fn joined_at(
    start: Store,
    now: Store,
    remote: Remote,
    chain: Chain,
    head: u64,
    joined: u64,
) -> bool {
    &&& caught_up(start, now, remote, chain, head, joined)
    &&& remote.dom().contains(joined)
    &&& match now.block(chain, joined) {
        Some(block) => block.hash@ == remote[joined].hash@,
        None => false,
    }
}

proof fn lemma_descends_goes_down(remote: Remote, from: u64, number: u64)
    requires
        descends(remote, from, number),
    ensures
        number <= from,
    decreases from,
{
    if number != from {
        lemma_descends_goes_down(remote, remote[from].prev_block_number->Some_0, number);
    }
}

/// The chain goes on from each of its blocks to the block's predecessor.
proof fn lemma_descends_step(remote: Remote, from: u64, number: u64, prev: u64)
    requires
        descends(remote, from, number),
        remote.dom().contains(number),
        remote[number].prev_block_number == Some(prev),
        prev < number,
    ensures
        descends(remote, from, prev),
    decreases from,
{
    if number != from {
        lemma_descends_step(remote, remote[from].prev_block_number->Some_0, number, prev);
    } else {
        assert(descends(remote, prev, prev));
    }
}

/// The chain is one line: no block of it lies between a block of it and
/// that block's predecessor.
proof fn lemma_descends_line(remote: Remote, from: u64, number: u64, prev: u64, other: u64)
    requires
        descends(remote, from, number),
        descends(remote, from, other),
        remote.dom().contains(number),
        remote[number].prev_block_number == Some(prev),
        prev < other,
    ensures
        other >= number,
    decreases from,
{
    if from == number {
        if other != number {
            lemma_descends_goes_down(remote, prev, other);
        }
    } else {
        let below = remote[from].prev_block_number->Some_0;
        if other == from {
            lemma_descends_goes_down(remote, below, number);
        } else {
            lemma_descends_line(remote, below, number, prev, other);
        }
    }
}

/// The frontier moves from a block to its predecessor once the store
/// agrees with the remote at the block.
proof fn lemma_advance(
    start: Store,
    now: Store,
    then: Store,
    remote: Remote,
    chain: Chain,
    head: u64,
    number: u64,
    prev: u64,
)
    requires
        caught_up(start, now, remote, chain, head, number),
        remote.dom().contains(number),
        remote[number].prev_block_number == Some(prev),
        prev < number,
        agrees(then, remote, chain, number),
        forall|m: u64| m != number ==> #[trigger] then.block(chain, m) == now.block(chain, m),
    ensures
        caught_up(start, then, remote, chain, head, prev),
{
    lemma_descends_step(remote, head, number, prev);
    assert forall|m: u64| descends(remote, head, m) && m > prev implies #[trigger] agrees(
        then,
        remote,
        chain,
        m,
    ) by {
        lemma_descends_line(remote, head, number, prev, m);
        if m != number {
            assert(agrees(now, remote, chain, m));
            assert(then.block(chain, m) == now.block(chain, m));
        }
    }
    assert forall|m: u64| m <= prev implies #[trigger] then.block(chain, m) == start.block(
        chain,
        m,
    ) by {
        assert(then.block(chain, m) == now.block(chain, m));
        assert(now.block(chain, m) == start.block(chain, m));
    }
}

/// A request that leaves the blocks as they are leaves the pass where it
/// has come to.
proof fn lemma_same_blocks(
    start: Store,
    now: Store,
    then: Store,
    remote: Remote,
    chain: Chain,
    head: u64,
    frontier: u64,
)
    requires
        caught_up(start, now, remote, chain, head, frontier),
        then.blocks == now.blocks,
    ensures
        caught_up(start, then, remote, chain, head, frontier),
        then.block(chain, frontier) == now.block(chain, frontier),
{
    assert forall|m: u64| descends(remote, head, m) && m > frontier implies #[trigger] agrees(
        then,
        remote,
        chain,
        m,
    ) by {
        assert(agrees(now, remote, chain, m));
    }
    assert forall|m: u64| m <= frontier implies #[trigger] then.block(chain, m) == start.block(
        chain,
        m,
    ) by {
        assert(now.block(chain, m) == start.block(chain, m));
    }
}

/// What holds of a pass at every moment of its walk.
spec fn chain_invariant(
    start: Store,
    remote: Remote,
    chain: Chain,
    step: StepView<ImportState, ImportOutcome, ImportError>,
    now: Store,
) -> bool {
    match step {
        StepView::Next(ImportState::LoadingHighest { chain: of }, action) => {
            of == chain && now == start && action is LoadHighestBlockNumber
        },
        StepView::Next(ImportState::FetchingHead { chain: of, .. }, action) => {
            of == chain && now == start && action is FetchLatestBlockNumber
        },
        StepView::Next(ImportState::Fetching { chain: of, head, .. }, action) => {
            &&& of == chain
            &&& action matches ActionView::FetchBlock(to, number) && to == chain && caught_up(
                start,
                now,
                remote,
                chain,
                head,
                number,
            )
        },
        StepView::Next(
            ImportState::Storing { chain: of, head, prev_number, prev_hash, .. },
            action,
        ) => {
            &&& of == chain
            &&& action matches ActionView::StoreBlock(stored) && remote.dom().contains(
                stored.block_number,
            ) && remote[stored.block_number] == stored && stored.prev_block_number == Some(
                prev_number,
            ) && stored.parent_hash@ == prev_hash@ && caught_up(
                start,
                now,
                remote,
                chain,
                head,
                stored.block_number,
            )
        },
        StepView::Next(
            ImportState::LoadingPrev { chain: of, head, prev_number, prev_hash, .. },
            action,
        ) => {
            &&& of == chain
            &&& action == ActionView::LoadBlock(chain, prev_number)
            &&& remote.dom().contains(prev_number)
            &&& prev_hash@ == remote[prev_number].hash@
            &&& caught_up(start, now, remote, chain, head, prev_number)
        },
        StepView::Next(
            ImportState::FastForwarding { chain: of, head, prev_number, prev_hash, .. },
            action,
        ) => {
            &&& of == chain
            &&& action == ActionView::LoadBlock(chain, prev_number)
            &&& remote.dom().contains(prev_number)
            &&& prev_hash@ == remote[prev_number].hash@
            &&& caught_up(start, now, remote, chain, head, prev_number)
        },
        StepView::Next(ImportState::Pacing { chain: of, head, next, .. }, action) => {
            &&& of == chain
            &&& action is Pace
            &&& caught_up(start, now, remote, chain, head, next)
        },
        StepView::Next(
            ImportState::StoringHighest { outcome: ImportOutcome::Synced { head, joined }, .. },
            action,
        ) => {
            &&& action is StoreHighestBlockNumber
            &&& joined_at(start, now, remote, chain, head, joined)
        },
        StepView::Finished(ImportOutcome::Synced { head, joined }) => joined_at(
            start,
            now,
            remote,
            chain,
            head,
            joined,
        ),
        _ => true,
    }
}

/// A stored block at the frontier that carries the remote's hash agrees
/// with the remote's block, since it is a block from before the pass.
proof fn lemma_agrees_at_frontier(
    start: Store,
    now: Store,
    remote: Remote,
    chain: Chain,
    head: u64,
    frontier: u64,
)
    requires
        same_by_hash(start, remote, chain),
        caught_up(start, now, remote, chain, head, frontier),
        remote.dom().contains(frontier),
        now.block(chain, frontier) matches Some(block) && block.hash@ == remote[frontier].hash@,
    ensures
        agrees(now, remote, chain, frontier),
{
    assert(now.block(chain, frontier) == start.block(chain, frontier));
}

/// The fast-forward goes on from a block at the frontier that carries the
/// remote's hash.
proof fn lemma_skip(
    start: Store,
    now: Store,
    remote: Remote,
    chain: Chain,
    highest: u64,
    head: u64,
    frontier: u64,
    known: Block,
)
    requires
        coherent(remote, chain),
        complete(remote),
        same_by_hash(start, remote, chain),
        caught_up(start, now, remote, chain, head, frontier),
        remote.dom().contains(frontier),
        now.block(chain, frontier) == Some(known),
        known.hash@ == remote[frontier].hash@,
    ensures
        chain_invariant(
            start,
            remote,
            chain,
            crate::import::fast_forward_from(chain, highest, head, known).as_view(),
            now,
        ),
{
    lemma_agrees_at_frontier(start, now, remote, chain, head, frontier);
    match known.prev_block_number {
        Some(prev) => {
            assert(remote.dom().contains(prev));
            lemma_advance(start, now, now, remote, chain, head, frontier, prev);
        },
        None => {},
    }
}

proof fn lemma_step_keeps_chain(
    start: Store,
    remote: Remote,
    chain: Chain,
    state: ImportState,
    action: ActionView,
    now: Store,
    event: Event,
)
    requires
        coherent(remote, chain),
        complete(remote),
        same_by_hash(start, remote, chain),
        chain_invariant(start, remote, chain, StepView::Next(state, action), now),
        now.answers(action, event),
        action matches ActionView::FetchBlock(_, number) ==> event == served(remote, number),
    ensures
        chain_invariant(
            start,
            remote,
            chain,
            import_step(state, event).as_view(),
            now.after(action),
        ),
{
    let then = now.after(action);
    match state {
        ImportState::FetchingHead { stored, .. } => {
            match event {
                Event::LatestBlockNumber(head) => {
                    assert forall|m: u64| descends(remote, head, m) && m > head implies #[trigger] agrees(
                        now,
                        remote,
                        chain,
                        m,
                    ) by {
                        lemma_descends_goes_down(remote, head, m);
                    }
                    assert(caught_up(start, now, remote, chain, head, head));
                },
                _ => {},
            }
        },
        ImportState::Fetching { .. } => {
            let number = action->FetchBlock_1;
            if remote.dom().contains(number) {
                assert(remote[number].block_number == number);
            }
        },
        ImportState::Storing { head, prev_number, .. } => {
            let stored = action->StoreBlock_0;
            let number = stored.block_number;
            assert(remote.dom().contains(number));
            assert(stored.chain == chain);
            assert(remote.dom().contains(prev_number));
            assert(then.block(chain, number) == Some(stored));
            assert(agrees(then, remote, chain, number));
            lemma_advance(start, now, then, remote, chain, head, number, prev_number);
        },
        ImportState::LoadingPrev { highest, head, prev_number, .. } => {
            match event {
                Event::Loaded(Some(found)) => {
                    if found.hash@ == remote[prev_number].hash@ && prev_number > highest {
                        lemma_skip(start, now, remote, chain, highest, head, prev_number, found);
                    }
                },
                _ => {},
            }
        },
        ImportState::FastForwarding { highest, head, prev_number, .. } => {
            match event {
                Event::Loaded(Some(found)) => {
                    if found.hash@ == remote[prev_number].hash@ {
                        lemma_skip(start, now, remote, chain, highest, head, prev_number, found);
                    }
                },
                _ => {},
            }
        },
        ImportState::StoringHighest { outcome: ImportOutcome::Synced { head, joined }, .. } => {
            lemma_same_blocks(start, now, then, remote, chain, head, joined);
        },
        _ => {},
    }
}

proof fn lemma_chain_invariant(start: Store, remote: Remote, chain: Chain, events: Seq<Event>)
    requires
        coherent(remote, chain),
        complete(remote),
        same_by_hash(start, remote, chain),
        import_pass(chain).is_run(start, events),
        served_by(remote, chain, events),
    ensures
        chain_invariant(
            start,
            remote,
            chain,
            import_pass(chain).after(events),
            import_pass(chain).store_after(start, events),
        ),
    decreases events.len(),
{
    let task = import_pass(chain);
    if events.len() > 0 {
        let earlier = events.drop_last();
        let at = events.len() - 1;
        task.lemma_last_event(start, events);
        assert(events.take(at) =~= earlier);
        assert(served_by(remote, chain, earlier)) by {
            assert forall|i: int| 0 <= i < earlier.len() implies #[trigger] served_at(
                remote,
                chain,
                earlier,
                i,
            ) by {
                assert(earlier.take(i) =~= events.take(i));
                assert(served_at(remote, chain, events, i));
            }
        }
        lemma_chain_invariant(start, remote, chain, earlier);
        assert(served_at(remote, chain, events, at));
        match task.after(earlier) {
            StepView::Next(state, action) => {
                assert(task.after(events) == import_step(state, events.last()).as_view());
                lemma_step_keeps_chain(
                    start,
                    remote,
                    chain,
                    state,
                    action,
                    task.store_after(start, earlier),
                    events.last(),
                );
            },
            _ => {},
        }
    }
}

/// Where a number lies once the pass has joined: on the remote's chain at
/// or above the join, or below the join.
spec fn placed(remote: Remote, head: u64, joined: u64, number: u64) -> bool {
    (descends(remote, head, number) && number >= joined) || number < joined
}

/// The predecessor of a block of the remote's chain above the join lies on
/// the chain too, and not below the join.
proof fn lemma_predecessor_placed(
    remote: Remote,
    head: u64,
    joined: u64,
    number: u64,
    prev: u64,
)
    requires
        complete(remote),
        descends(remote, head, joined),
        descends(remote, head, number),
        number > joined,
        remote.dom().contains(number),
        remote[number].prev_block_number == Some(prev),
    ensures
        descends(remote, head, prev),
        prev >= joined,
        prev < number,
        remote.dom().contains(prev),
{
    lemma_descends_step(remote, head, number, prev);
    if prev < joined {
        lemma_descends_line(remote, head, number, prev, joined);
    }
}

proof fn lemma_path_placed(
    start: Store,
    end: Store,
    remote: Remote,
    chain: Chain,
    head: u64,
    joined: u64,
    path: Seq<u64>,
    at: int,
)
    requires
        complete(remote),
        settled(start, chain),
        same_by_hash(start, remote, chain),
        joined_at(start, end, remote, chain, head, joined),
        follows_predecessors(end, chain, head, path),
        0 <= at < path.len(),
    ensures
        placed(remote, head, joined, path[at]),
    decreases at,
{
    if at == 0 {
        lemma_descends_goes_down(remote, head, joined);
    } else {
        lemma_path_placed(start, end, remote, chain, head, joined, path, at - 1);
        let number = path[at - 1];
        let block = end.block(chain, number)->Some_0;
        assert(block.prev_block_number == Some(path[at]));
        if number > joined {
            assert(agrees(end, remote, chain, number));
            lemma_predecessor_placed(remote, head, joined, number, path[at]);
        } else if number == joined {
            lemma_agrees_at_frontier(start, end, remote, chain, head, joined);
        } else {
            assert(end.block(chain, number) == start.block(chain, number));
        }
    }
}

/// When a pass has synced against a remote that serves one complete and
/// coherent chain, from a store that was in order and in which a hash
/// names one block, every block that is reached from the new head along
/// the stored predecessors agrees with what is stored at its own
/// predecessor.
pub proof fn synced_pass_leaves_the_chain_linked(
    start: Store,
    remote: Remote,
    chain: Chain,
    events: Seq<Event>,
    head: u64,
    joined: u64,
    path: Seq<u64>,
    at: int,
)
    requires
        coherent(remote, chain),
        complete(remote),
        settled(start, chain),
        same_by_hash(start, remote, chain),
        import_pass(chain).is_run(start, events),
        served_by(remote, chain, events),
        import_pass(chain).after(events) == StepView::<
            ImportState,
            ImportOutcome,
            ImportError,
        >::Finished(ImportOutcome::Synced { head, joined }),
        follows_predecessors(import_pass(chain).store_after(start, events), chain, head, path),
        0 <= at < path.len(),
    ensures
        match import_pass(chain).store_after(start, events).block(chain, path[at]) {
            Some(block) => linked(import_pass(chain).store_after(start, events), chain, block),
            None => true,
        },
{
    let end = import_pass(chain).store_after(start, events);
    lemma_chain_invariant(start, remote, chain, events);
    lemma_path_placed(start, end, remote, chain, head, joined, path, at);
    let number = path[at];
    match end.block(chain, number) {
        Some(block) => {
            if number > joined {
                assert(agrees(end, remote, chain, number));
                match block.prev_block_number {
                    Some(prev) => {
                        lemma_predecessor_placed(remote, head, joined, number, prev);
                        if prev > joined {
                            assert(agrees(end, remote, chain, prev));
                        }
                    },
                    None => {},
                }
            } else {
                assert(end.block(chain, number) == start.block(chain, number));
                match block.prev_block_number {
                    Some(prev) => {
                        assert(end.block(chain, prev) == start.block(chain, prev));
                    },
                    None => {},
                }
            }
        },
        None => {},
    }
}

} // verus!
