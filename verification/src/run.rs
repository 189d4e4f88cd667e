//! Runs of a task against the storage model: the driver answers each pending
//! request, storage changes as the requests say, and the task moves on.

use vstd::prelude::*;
use crate::task::{ActionView, Event, StepView};
use crate::store::Store;

verus! {

/// A task as a mathematical object: the state and request it begins with,
/// and its transition.
#[verifier::reject_recursive_types(S)]
#[verifier::reject_recursive_types(T)]
#[verifier::reject_recursive_types(E)]
pub struct Task<S, T, E> {
    pub start: (S, ActionView),
    pub step: spec_fn(S, Event) -> StepView<S, T, E>,
}

impl<S, T, E> Task<S, T, E> {
    /// Where the task stands once the driver has answered with `events`, one
    /// after the other. A task that has ended takes no more events.
    pub open spec fn after(self, events: Seq<Event>) -> StepView<S, T, E>
        decreases events.len(),
    {
        if events.len() == 0 {
            StepView::Next(self.start.0, self.start.1)
        } else {
            match self.after(events.drop_last()) {
                StepView::Next(state, _) => (self.step)(state, events.last()),
                ended => ended,
            }
        }
    }

    /// The store once every request that `events` answers has been carried
    /// out on `store`.
    pub open spec fn store_after(self, store: Store, events: Seq<Event>) -> Store
        decreases events.len(),
    {
        if events.len() == 0 {
            store
        } else {
            let before = self.store_after(store, events.drop_last());
            match self.after(events.drop_last()) {
                StepView::Next(_, action) => before.after(action),
                _ => before,
            }
        }
    }

    /// The event at `at` answers the request that was pending when it came,
    /// on the store as it was then.
    pub open spec fn answered_at(self, store: Store, events: Seq<Event>, at: int) -> bool {
        match self.after(events.take(at)) {
            StepView::Next(_, action) => self.store_after(store, events.take(at)).answers(
                action,
                events[at],
            ),
            _ => false,
        }
    }

    /// `events` is a run of the task that begins on `store`.
    pub open spec fn is_run(self, store: Store, events: Seq<Event>) -> bool {
        forall|at: int| 0 <= at < events.len() ==> #[trigger] self.answered_at(store, events, at)
    }

    /// The task never changes what is stored.
    pub open spec fn only_reads(self) -> bool {
        &&& reads(self.start.1)
        &&& forall|state: S, event: Event|
            match #[trigger] (self.step)(state, event) {
                StepView::Next(_, action) => reads(action),
                _ => true,
            }
    }

    /// One more event moves the task by one transition.
    pub proof fn lemma_one_more_event(self, store: Store, events: Seq<Event>, at: int)
        requires
            0 <= at < events.len(),
        ensures
            self.after(events.take(at + 1)) == match self.after(events.take(at)) {
                StepView::Next(state, _) => (self.step)(state, events[at]),
                ended => ended,
            },
            self.store_after(store, events.take(at + 1)) == match self.after(events.take(at)) {
                StepView::Next(_, action) => self.store_after(store, events.take(at)).after(action),
                _ => self.store_after(store, events.take(at)),
            },
    {
        let longer = events.take(at + 1);
        assert(longer.drop_last() =~= events.take(at));
        assert(longer.last() == events[at]);
    }

    /// The beginning of a run is a run.
    pub proof fn lemma_run_prefix(self, store: Store, events: Seq<Event>, upto: int)
        requires
            self.is_run(store, events),
            0 <= upto <= events.len(),
        ensures
            self.is_run(store, events.take(upto)),
    {
        let prefix = events.take(upto);
        assert forall|at: int| 0 <= at < prefix.len() implies #[trigger] self.answered_at(
            store,
            prefix,
            at,
        ) by {
            assert(prefix.take(at) =~= events.take(at));
            assert(self.answered_at(store, events, at));
        }
    }

    /// The last event of a run answered the request that was pending after
    /// the events before it, and moved the task and the store by one step.
    pub proof fn lemma_last_event(self, store: Store, events: Seq<Event>)
        requires
            self.is_run(store, events),
            events.len() > 0,
        ensures
            self.is_run(store, events.drop_last()),
            match self.after(events.drop_last()) {
                StepView::Next(state, action) => {
                    &&& self.store_after(store, events.drop_last()).answers(action, events.last())
                    &&& self.after(events) == (self.step)(state, events.last())
                    &&& self.store_after(store, events) == self.store_after(
                        store,
                        events.drop_last(),
                    ).after(action)
                },
                _ => false,
            },
    {
        let at = events.len() - 1;
        assert(events.take(at) =~= events.drop_last());
        self.lemma_run_prefix(store, events, at);
        assert(self.answered_at(store, events, at));
    }

    /// A run that has ended took no event after the one that ended it.
    pub proof fn lemma_ended_run_is_whole(self, store: Store, events: Seq<Event>, at: int)
        requires
            self.is_run(store, events),
            0 <= at <= events.len(),
            self.after(events.take(at)).ended(),
        ensures
            at == events.len(),
            events.take(at) == events,
    {
        if at < events.len() {
            assert(self.answered_at(store, events, at));
        }
        assert(events.take(events.len() as int) =~= events);
    }

    /// A task that only reads leaves the store as it found it.
    pub proof fn lemma_reading_keeps_store(self, store: Store, events: Seq<Event>)
        requires
            self.only_reads(),
        ensures
            self.store_after(store, events) == store,
        decreases events.len(),
    {
        if events.len() > 0 {
            let earlier = events.drop_last();
            self.lemma_reading_keeps_store(store, earlier);
            self.lemma_pending_reads(earlier);
        }
    }

    proof fn lemma_pending_reads(self, events: Seq<Event>)
        requires
            self.only_reads(),
        ensures
            match self.after(events) {
                StepView::Next(_, action) => reads(action),
                _ => true,
            },
        decreases events.len(),
    {
        if events.len() > 0 {
            self.lemma_pending_reads(events.drop_last());
            match self.after(events.drop_last()) {
                StepView::Next(state, _) => {
                    assert(match (self.step)(state, events.last()) {
                        StepView::Next(_, action) => reads(action),
                        _ => true,
                    });
                },
                _ => {},
            }
        }
    }

    /// Of two runs of a reading task on one store, the shorter is the
    /// beginning of the longer.
    pub proof fn lemma_runs_agree(
        self,
        store: Store,
        shorter: Seq<Event>,
        longer: Seq<Event>,
        upto: int,
    )
        requires
            self.only_reads(),
            self.is_run(store, shorter),
            self.is_run(store, longer),
            0 <= upto <= shorter.len() <= longer.len(),
        ensures
            shorter.take(upto) == longer.take(upto),
        decreases upto,
    {
        if upto == 0 {
            assert(shorter.take(0) =~= longer.take(0));
        } else {
            let at = upto - 1;
            self.lemma_runs_agree(store, shorter, longer, at);
            assert(self.answered_at(store, shorter, at));
            assert(self.answered_at(store, longer, at));
            self.lemma_pending_reads(shorter.take(at));
            self.lemma_reading_keeps_store(store, shorter.take(at));
            assert(shorter[at] == longer[at]);
            assert(shorter.take(upto) =~= shorter.take(at).push(shorter[at]));
            assert(longer.take(upto) =~= longer.take(at).push(longer[at]));
        }
    }

    /// Two runs of a reading task on one store that both came to an end took
    /// the same events and ended alike.
    pub proof fn lemma_reading_is_deterministic(
        self,
        store: Store,
        first: Seq<Event>,
        second: Seq<Event>,
    )
        requires
            self.only_reads(),
            self.is_run(store, first),
            self.is_run(store, second),
            self.after(first).ended(),
            self.after(second).ended(),
        ensures
            first == second,
    {
        assert(first.take(first.len() as int) =~= first);
        assert(second.take(second.len() as int) =~= second);
        if first.len() <= second.len() {
            self.lemma_runs_agree(store, first, second, first.len() as int);
            self.lemma_ended_run_is_whole(store, second, first.len() as int);
        } else {
            self.lemma_runs_agree(store, second, first, second.len() as int);
            self.lemma_ended_run_is_whole(store, first, second.len() as int);
        }
    }
}

/// The request asks storage for a record and changes nothing.
pub open spec fn reads(action: ActionView) -> bool {
    action is LoadHighestBlockNumber || action is LoadBlock
}

} // verus!
