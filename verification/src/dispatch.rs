//! The dispatcher of a batch of transfers: one task per work item, spawned in
//! enumeration order, then joined in spawn order, whatever each task's outcome.

use vstd::prelude::*;

verus! {

/// How the task of one work item ended.
#[derive(Clone, Copy, Debug, PartialEq, Eq, Structural)]
pub enum TransferOutcome {
    /// The transfer was made.
    Succeeded,
    /// The transfer itself failed.
    TransferFailed,
    /// The task could not be driven to completion.
    JoinFailed,
}

/// What the caller is to do next. The number is the position of the work item
/// in the enumeration.
#[derive(Clone, Copy, Debug, PartialEq, Eq, Structural)]
pub enum Action {
    /// Spawn the task of this item and keep its handle.
    Spawn(usize),
    /// Wait for the handle of this item.
    Join(usize),
    /// Every handle has resolved.
    Finish,
}

/// What the caller reports back.
#[derive(Clone, Copy, Debug, PartialEq, Eq, Structural)]
pub enum Event {
    /// The task asked for was spawned.
    Spawned,
    /// The handle asked for resolved, with this outcome.
    Joined(TransferOutcome),
}

/// What is put on record when a handle has resolved.
#[derive(Clone, Copy, Debug, PartialEq, Eq, Structural)]
pub enum Report {
    /// The transfer was made: its own task has said so.
    Nothing,
    /// The transfer of the item at this position failed.
    TransferError(usize),
    /// The task of the item at this position could not be joined.
    JoinError(usize),
}

/// What is put on record for the item at position `item` on `outcome`: a
/// success needs no word, and the two kinds of failure are told apart.
pub open spec fn reported(item: usize, outcome: TransferOutcome) -> Report {
    match outcome {
        TransferOutcome::Succeeded => Report::Nothing,
        TransferOutcome::TransferFailed => Report::TransferError(item),
        TransferOutcome::JoinFailed => Report::JoinError(item),
    }
}

/// Says what is put on record for the item at position `item` on `outcome`.
pub fn report(item: usize, outcome: TransferOutcome) -> (r: Report)
    ensures
        r == reported(item, outcome),
{
    match outcome {
        TransferOutcome::Succeeded => Report::Nothing,
        TransferOutcome::TransferFailed => Report::TransferError(item),
        TransferOutcome::JoinFailed => Report::JoinError(item),
    }
}

/// The state of a batch: how many items it has, how many tasks were spawned,
/// and the outcomes of those that were joined, in join order.
pub struct Dispatcher {
    total: usize,
    spawned: usize,
    outcomes: Vec<TransferOutcome>,
}

pub struct DispatcherView {
    pub total: nat,
    pub spawned: nat,
    pub outcomes: Seq<TransferOutcome>,
}

/// A batch of `total` items of which nothing was spawned yet.
pub open spec fn started(total: nat) -> DispatcherView {
    DispatcherView { total, spawned: 0, outcomes: Seq::empty() }
}

/// No more tasks are spawned than there are items, and joining begins only
/// when every task was spawned.
pub open spec fn consistent(v: DispatcherView) -> bool {
    &&& v.spawned <= v.total
    &&& v.outcomes.len() <= v.total
    &&& v.outcomes.len() > 0 ==> v.spawned == v.total
    &&& v.total <= usize::MAX
}

/// What is to be done in state `v`: spawn while an item has no task, then
/// join while a handle is unresolved, then finish.
pub open spec fn next_action(v: DispatcherView) -> Action {
    if v.spawned < v.total {
        Action::Spawn(v.spawned as usize)
    } else if v.outcomes.len() < v.total {
        Action::Join(v.outcomes.len() as usize)
    } else {
        Action::Finish
    }
}

/// The state after `event` in state `v`. An event that was not asked for
/// leaves the state as it is.
pub open spec fn after(v: DispatcherView, event: Event) -> DispatcherView {
    match event {
        Event::Spawned => if v.spawned < v.total {
            DispatcherView { spawned: v.spawned + 1, ..v }
        } else {
            v
        },
        Event::Joined(outcome) => if v.spawned == v.total && v.outcomes.len() < v.total {
            DispatcherView { outcomes: v.outcomes.push(outcome), ..v }
        } else {
            v
        },
    }
}

/// The number of events that state `v` still waits for.
pub open spec fn pending(v: DispatcherView) -> int {
    (v.total - v.spawned) + (v.total - v.outcomes.len())
}

/// The state after `k` tasks more were spawned.
pub open spec fn after_spawns(v: DispatcherView, k: nat) -> DispatcherView
    decreases k,
{
    if k == 0 {
        v
    } else {
        after_spawns(after(v, Event::Spawned), (k - 1) as nat)
    }
}

/// The state after handles resolved with `outcomes`, one after the other.
pub open spec fn after_joins(v: DispatcherView, outcomes: Seq<TransferOutcome>) -> DispatcherView
    decreases outcomes.len(),
{
    if outcomes.len() == 0 {
        v
    } else {
        after_joins(after(v, Event::Joined(outcomes[0])), outcomes.drop_first())
    }
}

/// The number of outcomes that are not a success.
pub open spec fn failures(outcomes: Seq<TransferOutcome>) -> nat
    decreases outcomes.len(),
{
    if outcomes.len() == 0 {
        0
    } else {
        failures(outcomes.drop_last()) + if outcomes.last() == TransferOutcome::Succeeded {
            0nat
        } else {
            1nat
        }
    }
}

impl View for Dispatcher {
    type V = DispatcherView;

    closed spec fn view(&self) -> DispatcherView {
        DispatcherView {
            total: self.total as nat,
            spawned: self.spawned as nat,
            outcomes: self.outcomes@,
        }
    }
}

impl Dispatcher {
    /// The state is consistent.
    pub open spec fn wf(&self) -> bool {
        consistent(self@)
    }

    /// A dispatcher for a batch of `total` work items.
    pub fn new(total: usize) -> (d: Dispatcher)
        ensures
            d.wf(),
            d@ == started(total as nat),
    {
        Dispatcher { total, spawned: 0, outcomes: Vec::new() }
    }

    /// The number of work items of the batch.
    pub fn total(&self) -> (n: usize)
        ensures
            n == self@.total,
    {
        self.total
    }

    /// The number of tasks spawned so far.
    pub fn spawned(&self) -> (n: usize)
        ensures
            n == self@.spawned,
    {
        self.spawned
    }

    /// The number of handles that have resolved so far.
    pub fn joined(&self) -> (n: usize)
        ensures
            n == self@.outcomes.len(),
    {
        self.outcomes.len()
    }

    /// The outcome of the item at position `i`, once its handle has resolved.
    pub fn outcome(&self, i: usize) -> (o: Option<TransferOutcome>)
        ensures
            o == if i < self@.outcomes.len() {
                Some(self@.outcomes[i as int])
            } else {
                None
            },
    {
        if i < self.outcomes.len() {
            Some(self.outcomes[i])
        } else {
            None
        }
    }

    /// The number of items, among those joined, whose task did not succeed.
    pub fn failed(&self) -> (n: usize)
        ensures
            n == failures(self@.outcomes),
    {
        let mut n: usize = 0;
        let mut i: usize = 0;
        proof {
            assert(self.outcomes@.subrange(0, 0) =~= Seq::<TransferOutcome>::empty());
        }
        while i < self.outcomes.len()
            invariant
                i <= self.outcomes@.len(),
                n <= i,
                n == failures(self.outcomes@.subrange(0, i as int)),
            decreases self.outcomes@.len() - i,
        {
            proof {
                let upto = self.outcomes@.subrange(0, i + 1);
                assert(upto.drop_last() =~= self.outcomes@.subrange(0, i as int));
                assert(upto.last() == self.outcomes@[i as int]);
            }
            match self.outcomes[i] {
                TransferOutcome::Succeeded => {},
                _ => {
                    n = n + 1;
                },
            }
            i = i + 1;
        }
        assert(self.outcomes@.subrange(0, self.outcomes@.len() as int) =~= self.outcomes@);
        n
    }

    /// What is to be done next.
    pub fn action(&self) -> (a: Action)
        requires
            self.wf(),
        ensures
            a == next_action(self@),
    {
        if self.spawned < self.total {
            Action::Spawn(self.spawned)
        } else if self.outcomes.len() < self.total {
            Action::Join(self.outcomes.len())
        } else {
            Action::Finish
        }
    }

    /// Whether every handle has resolved.
    pub fn is_done(&self) -> (b: bool)
        requires
            self.wf(),
        ensures
            b == (next_action(self@) == Action::Finish),
            b == (pending(self@) == 0),
    {
        self.spawned >= self.total && self.outcomes.len() >= self.total
    }

    /// Takes in `event` and says what is to be done next. An outcome is
    /// recorded whether it is a success or a failure: no failure ends the
    /// batch.
    pub fn step(&mut self, event: Event) -> (a: Action)
        requires
            old(self).wf(),
        ensures
            final(self).wf(),
            final(self)@ == after(old(self)@, event),
            a == next_action(final(self)@),
    {
        match event {
            Event::Spawned => {
                if self.spawned < self.total {
                    self.spawned = self.spawned + 1;
                }
            },
            Event::Joined(outcome) => {
                if self.spawned == self.total && self.outcomes.len() < self.total {
                    self.outcomes.push(outcome);
                }
            },
        }
        self.action()
    }
}

/// Every event that was asked for brings the batch one step nearer to its end,
/// whatever outcome it reports; the state stays consistent.
pub proof fn lemma_step_progress(v: DispatcherView, event: Event)
    requires
        consistent(v),
    ensures
        consistent(after(v, event)),
        after(v, event).total == v.total,
        next_action(v) is Spawn && event is Spawned ==> pending(after(v, event)) == pending(v) - 1,
        next_action(v) is Join && event is Joined ==> pending(after(v, event)) == pending(v) - 1,
        pending(v) == 0 <==> next_action(v) == Action::Finish,
        pending(v) >= 0,
{
}

/// Spawning `k` tasks more, where as many items have none yet, asks for the
/// items in order and touches nothing else.
pub proof fn lemma_after_spawns(v: DispatcherView, k: nat)
    requires
        consistent(v),
        v.spawned + k <= v.total,
    ensures
        after_spawns(v, k) == (DispatcherView { spawned: v.spawned + k, ..v }),
        consistent(after_spawns(v, k)),
        k > 0 ==> next_action(v) == Action::Spawn(v.spawned as usize),
    decreases k,
{
    if k > 0 {
        lemma_after_spawns(after(v, Event::Spawned), (k - 1) as nat);
    }
}

/// Joining handles, once every task was spawned, records each outcome in
/// order, success or failure alike.
pub proof fn lemma_after_joins(v: DispatcherView, outcomes: Seq<TransferOutcome>)
    requires
        consistent(v),
        v.spawned == v.total,
        v.outcomes.len() + outcomes.len() <= v.total,
    ensures
        after_joins(v, outcomes) == (DispatcherView { outcomes: v.outcomes + outcomes, ..v }),
        consistent(after_joins(v, outcomes)),
        outcomes.len() > 0 ==> next_action(v) == Action::Join(v.outcomes.len() as usize),
    decreases outcomes.len(),
{
    if outcomes.len() > 0 {
        let w = after(v, Event::Joined(outcomes[0]));
        lemma_after_joins(w, outcomes.drop_first());
        assert(w.outcomes + outcomes.drop_first() =~= v.outcomes + outcomes);
    } else {
        assert(v.outcomes + outcomes =~= v.outcomes);
    }
}

/// A batch always runs to its end: once each of its `total` tasks was spawned
/// and each handle has resolved, with whatever outcomes, every item has its
/// outcome on record, in enumeration order, and nothing is left to do. No
/// failure among the outcomes keeps a later item from being joined.
pub proof fn lemma_batch_attempts_all(total: nat, outcomes: Seq<TransferOutcome>)
    requires
        total <= usize::MAX,
        outcomes.len() == total,
    ensures
        after_joins(after_spawns(started(total), total), outcomes) == (DispatcherView {
            total,
            spawned: total,
            outcomes,
        }),
        next_action(after_joins(after_spawns(started(total), total), outcomes)) == Action::Finish,
        forall|k: nat|
            k < total ==> next_action(#[trigger] after_spawns(started(total), k)) == Action::Spawn(
                k as usize,
            ),
        forall|k: int|
            0 <= k < total ==> next_action(
                after_joins(after_spawns(started(total), total), #[trigger] outcomes.take(k)),
            ) == Action::Join(k as usize),
{
    let begun = started(total);
    lemma_after_spawns(begun, total);
    let all = after_spawns(begun, total);
    lemma_after_joins(all, outcomes);
    assert(Seq::<TransferOutcome>::empty() + outcomes =~= outcomes);
    assert forall|k: nat| k < total implies next_action(#[trigger] after_spawns(begun, k))
        == Action::Spawn(k as usize) by {
        lemma_after_spawns(begun, k);
    }
    assert forall|k: int| 0 <= k < total implies next_action(
        after_joins(all, #[trigger] outcomes.take(k)),
    ) == Action::Join(k as usize) by {
        lemma_after_joins(all, outcomes.take(k));
        assert(Seq::<TransferOutcome>::empty() + outcomes.take(k) =~= outcomes.take(k));
    }
}

/// A batch without items asks for no task and no handle.
pub proof fn lemma_empty_batch()
    ensures
        next_action(started(0)) == Action::Finish,
        pending(started(0)) == 0,
{
}

} // verus!
