//! The transaction lock that lets one database transaction run at a time.
//!
//! A task that finds the transaction lock taken registers itself to be woken and waits;
//! releasing the transaction lock opens it and hands back every registered task to wake.
//! Tasks are named by numbers that the async host assigns to its wakers.

use vstd::prelude::*;

verus! {

/// `waiters` with every occurrence of `waiter` taken out, keeping the order of
/// the rest.
pub open spec fn without(waiters: Seq<u64>, waiter: u64) -> Seq<u64>
    decreases waiters.len(),
{
    if waiters.len() == 0 {
        Seq::empty()
    } else {
        let rest = without(waiters.drop_last(), waiter);
        if waiters.last() == waiter {
            rest
        } else {
            rest.push(waiters.last())
        }
    }
}

/// No task is registered twice.
pub open spec fn no_duplicates(waiters: Seq<u64>) -> bool {
    forall|i: int, j: int| 0 <= i < j < waiters.len() ==> waiters[i] != waiters[j]
}

/// One poll by task `waiter` of a transaction lock that is `locked` with `waiters`
/// registered: whether the poll takes the transaction lock, whether the transaction lock is then
/// held, and the tasks then registered.
pub open spec fn poll_step(locked: bool, waiters: Seq<u64>, waiter: u64) -> (bool, bool, Seq<u64>) {
    if !locked {
        (true, true, waiters)
    } else {
        (false, true, without(waiters, waiter).push(waiter))
    }
}

/// Releasing a transaction lock with `waiters` registered: whether the transaction lock is then held,
/// the tasks then registered, and the tasks to wake.
pub open spec fn release_step(waiters: Seq<u64>) -> (bool, Seq<u64>, Seq<u64>) {
    (false, Seq::empty(), waiters)
}

/// The state of the transaction lock: whether a transaction holds it, and the tasks
/// waiting for it, in the order they registered.
#[derive(Debug)]
pub struct TransactionGateState {
    locked: bool,
    waiters: Vec<u64>,
}

/// Proof that the transaction lock was acquired; releasing it consumes it.
#[derive(Debug)]
pub struct DatabaseTransactionGate {
    acquired: (),
}

impl TransactionGateState {
    /// Whether a transaction holds the transaction lock.
    pub closed spec fn spec_locked(&self) -> bool {
        self.locked
    }

    /// The tasks waiting for the transaction lock.
    pub closed spec fn spec_waiters(&self) -> Seq<u64> {
        self.waiters@
    }

    /// An open transaction lock with nobody waiting.
    pub fn new() -> (state: Self)
        ensures
            !state.spec_locked(),
            state.spec_waiters() == Seq::<u64>::empty(),
    {
        TransactionGateState { locked: false, waiters: Vec::new() }
    }

    /// One poll by task `waiter`: takes the transaction lock when it is open; otherwise
    /// registers `waiter` to be woken (once, however often it polls) and
    /// reports that it must wait.
    pub fn poll_acquire(&mut self, waiter: u64) -> (token: Option<DatabaseTransactionGate>)
        ensures
            (token is Some, final(self).spec_locked(), final(self).spec_waiters())
                == poll_step(old(self).spec_locked(), old(self).spec_waiters(), waiter),
    {
        if !self.locked {
            self.locked = true;
            return Some(DatabaseTransactionGate { acquired: () });
        }
        self.forget_waiter(waiter);
        self.waiters.push(waiter);
        None
    }

    /// Takes `waiter` off the waiting list.
    pub fn forget_waiter(&mut self, waiter: u64)
        ensures
            final(self).spec_locked() == old(self).spec_locked(),
            final(self).spec_waiters() == without(old(self).spec_waiters(), waiter),
    {
        let mut kept: Vec<u64> = Vec::new();
        let mut index: usize = 0;
        while index < self.waiters.len()
            invariant
                index <= self.waiters.len(),
                kept@ == without(self.waiters@.take(index as int), waiter),
            decreases self.waiters.len() - index,
        {
            let candidate = self.waiters[index];
            assert(self.waiters@.take(index + 1).drop_last() =~= self.waiters@.take(index as int));
            if candidate != waiter {
                kept.push(candidate);
            }
            index = index + 1;
        }
        assert(self.waiters@.take(self.waiters@.len() as int) =~= self.waiters@);
        self.waiters = kept;
    }

    /// Releases the transaction lock held by `token`: the transaction lock opens and every waiting task
    /// is handed back, in registration order, to be woken.
    pub fn release(&mut self, token: DatabaseTransactionGate) -> (woken: Vec<u64>)
        ensures
            (final(self).spec_locked(), final(self).spec_waiters(), woken@) == release_step(old(self).spec_waiters()),
    {
        let DatabaseTransactionGate { acquired: () } = token;
        self.locked = false;
        let mut woken = Vec::new();
        std::mem::swap(&mut woken, &mut self.waiters);
        woken
    }
}

/// Taking `waiter` out leaves no occurrence of it and only tasks that were
/// registered before.
pub proof fn lemma_without_removes(waiters: Seq<u64>, waiter: u64)
    ensures
        !without(waiters, waiter).contains(waiter),
        forall|other: u64| #[trigger] without(waiters, waiter).contains(other) ==> waiters.contains(other),
        no_duplicates(waiters) ==> no_duplicates(without(waiters, waiter)),
    decreases waiters.len(),
{
    if waiters.len() > 0 {
        let rest = waiters.drop_last();
        lemma_without_removes(rest, waiter);
        assert forall|other: u64| #[trigger] without(waiters, waiter).contains(other) implies waiters.contains(other) by {
            if without(rest, waiter).contains(other) {
                let i = choose|i: int| 0 <= i < rest.len() && rest[i] == other;
                assert(waiters[i] == other);
            } else {
                assert(other == waiters.last());
                assert(waiters[waiters.len() - 1] == other);
            }
        }
        if no_duplicates(waiters) {
            assert(no_duplicates(rest));
            if waiters.last() != waiter {
                assert(!without(rest, waiter).contains(waiters.last())) by {
                    if without(rest, waiter).contains(waiters.last()) {
                        let i = choose|i: int| 0 <= i < rest.len() && rest[i] == waiters.last();
                        assert(waiters[i] == waiters[waiters.len() - 1]);
                    }
                }
                let kept = without(rest, waiter);
                assert forall|i: int, j: int| 0 <= i < j < kept.push(waiters.last()).len()
                    implies kept.push(waiters.last())[i] != kept.push(waiters.last())[j] by {
                    if j == kept.len() {
                        assert(kept.contains(kept[i]));
                    }
                }
            }
        }
    }
}

/// A poll keeps every task registered at most once, so a release wakes each
/// waiting task exactly once.
pub proof fn lemma_poll_keeps_waiters_distinct(waiters: Seq<u64>, waiter: u64)
    requires
        no_duplicates(waiters),
    ensures
        no_duplicates(without(waiters, waiter).push(waiter)),
        without(waiters, waiter).push(waiter).contains(waiter),
{
    lemma_without_removes(waiters, waiter);
    let kept = without(waiters, waiter);
    assert forall|i: int, j: int| 0 <= i < j < kept.push(waiter).len()
        implies kept.push(waiter)[i] != kept.push(waiter)[j] by {
        if j == kept.len() {
            assert(kept.contains(kept[i]));
        }
    }
    assert(kept.push(waiter)[kept.len() as int] == waiter);
}

/// The transaction lock admits one transaction at a time: after one poll takes it, the
/// next poll, by any task, waits.
pub proof fn lemma_lock_is_exclusive(locked: bool, waiters: Seq<u64>, first: u64, second: u64)
    ensures
        ({
            let (took_first, locked_after, waiters_after) = poll_step(locked, waiters, first);
            let (took_second, _, _) = poll_step(locked_after, waiters_after, second);
            !(took_first && took_second)
        }),
{
}

/// Releasing the transaction lock wakes every task that registered while it was held, and
/// the next poll takes it.
pub proof fn lemma_release_reopens(waiters: Seq<u64>, next: u64)
    ensures
        ({
            let (locked_after, waiters_after, woken) = release_step(waiters);
            &&& woken == waiters
            &&& poll_step(locked_after, waiters_after, next).0
        }),
{
}

} // verus!
