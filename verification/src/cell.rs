//! The state protected by a cell's lock: the value, its generation tag, the
//! subscriber set, and the poison flag.
//!
//! Everything here runs while the caller holds the cell's lock exclusively,
//! so the operations take `&mut self` and carry exact contracts.

use vstd::prelude::*;
use crate::subscribers::SubscriberSet;

verus! {

/// Error returned by operations on a cell whose lock was poisoned: a prior
/// exclusive section failed midway and the value may be in an unknown state.
/// Fatal for the cell; no recovery is attempted.
#[derive(Clone, Copy, PartialEq, Eq, Debug, Structural)]
pub struct LockPoisoned;

/// The generation counter after one mutating write. A write bumps the counter
/// by exactly one; the counter saturates at the top of its range rather than
/// wrap, so it never decreases.
pub open spec fn bumped(g: u64) -> u64 {
    if g < u64::MAX {
        (g + 1) as u64
    } else {
        g
    }
}

/// One logical value and its change-tracking metadata.
pub struct CellState<T> {
    /// The protected payload.
    pub value: T,
    /// Monotonically increasing tag: how many mutating writes have completed.
    pub generation: u64,
    /// The consumers to signal on every mutating write.
    pub subscribers: SubscriberSet,
    /// Set once a failed exclusive section leaves the value unknown.
    pub poisoned: bool,
}

impl<T> CellState<T> {
    pub open spec fn wf(&self) -> bool {
        self.subscribers.wf()
    }

    pub fn new(value: T) -> (s: Self)
        ensures
            s.wf(),
            s.generation == 0,
            s.subscribers@ == Set::<u64>::empty(),
            !s.poisoned,
            s.value == value,
    {
        CellState { value, generation: 0, subscribers: SubscriberSet::new(), poisoned: false }
    }

    /// One mutating write is about to hand out the value: bump the generation
    /// and report every current subscriber, each exactly once, so the caller
    /// can signal them. The value itself and the membership are untouched.
    pub fn notify_consumers(&mut self) -> (notified: Vec<u64>)
        requires
            old(self).wf(),
        ensures
            final(self).wf(),
            final(self).generation == bumped(old(self).generation),
            final(self).value == old(self).value,
            final(self).subscribers == old(self).subscribers,
            final(self).poisoned == old(self).poisoned,
            notified@.no_duplicates(),
            forall|id: u64| #[trigger] notified@.contains(id) <==> old(
                self,
            ).subscribers@.contains(id),
    {
        if self.generation < u64::MAX {
            self.generation = self.generation + 1;
        }
        self.subscribers.snapshot()
    }

    /// Registers a consumer; registering one that is already a member changes
    /// nothing.
    pub fn subscribe(&mut self, id: u64)
        requires
            old(self).wf(),
        ensures
            final(self).wf(),
            final(self).subscribers@ == old(self).subscribers@.insert(id),
            final(self).value == old(self).value,
            final(self).generation == old(self).generation,
            final(self).poisoned == old(self).poisoned,
    {
        self.subscribers.insert(id);
    }

    /// The attach step on the acquired state: registers the consumer (a
    /// member registered twice stays a single member) and reports the
    /// generation a fresh handle observes at attach time.
    pub fn attach(&mut self, id: u64) -> (g: u64)
        requires
            old(self).wf(),
        ensures
            final(self).wf(),
            final(self).subscribers@ == old(self).subscribers@.insert(id),
            final(self).value == old(self).value,
            final(self).generation == old(self).generation,
            final(self).poisoned == old(self).poisoned,
            g == old(self).generation,
    {
        self.subscribers.insert(id);
        self.generation
    }

    /// Unregisters a consumer; removing one that is not a member leaves the
    /// whole state unchanged (detaching twice is a no-op, never an error).
    pub fn unsubscribe(&mut self, id: u64)
        requires
            old(self).wf(),
        ensures
            final(self).wf(),
            final(self).subscribers@ == old(self).subscribers@.remove(id),
            !old(self).subscribers@.contains(id) ==> *final(self) == *old(self),
            final(self).value == old(self).value,
            final(self).generation == old(self).generation,
            final(self).poisoned == old(self).poisoned,
    {
        self.subscribers.remove(id);
    }

    /// Marks the cell fatally broken after a failed exclusive section.
    pub fn poison(&mut self)
        requires
            old(self).wf(),
        ensures
            final(self).wf(),
            final(self).poisoned,
            final(self).value == old(self).value,
            final(self).generation == old(self).generation,
            final(self).subscribers == old(self).subscribers,
    {
        self.poisoned = true;
    }
}

/// The generation counter after a sequence of `writes` mutating writes
/// starting from `g`.
pub open spec fn generation_after(g: u64, writes: nat) -> u64
    decreases writes,
{
    if writes == 0 {
        g
    } else {
        bumped(generation_after(g, (writes - 1) as nat))
    }
}

/// Generation monotonicity: a completed mutating write bumps the generation
/// by exactly one while the counter is below its ceiling, and the generation
/// never decreases over any sequence of writes.
pub proof fn lemma_generation_monotonic(g: u64)
    ensures
        bumped(g) >= g,
        g < u64::MAX ==> bumped(g) == g + 1,
{
}

/// Generation monotonicity over whole histories: any sequence of completed
/// mutating writes that stays below the counter's ceiling raises the
/// generation by exactly one per write, so it strictly increases and never
/// goes back.
pub proof fn lemma_generation_counts_writes(g: u64, writes: nat)
    requires
        g + writes <= u64::MAX,
    ensures
        generation_after(g, writes) == g + writes,
    decreases writes,
{
    if writes > 0 {
        lemma_generation_counts_writes(g, (writes - 1) as nat);
    }
}

/// Notification completeness: a report with no duplicate entries that lists
/// exactly the members of the subscriber set signals every member exactly
/// once — nobody is skipped, nobody is signalled twice, and nobody outside
/// the set is signalled at all. `notify_consumers` returns such a report.
pub proof fn lemma_notify_exactly_once(notified: Seq<u64>, members: Set<u64>, id: u64)
    requires
        notified.no_duplicates(),
        forall|x: u64| #[trigger] notified.contains(x) <==> members.contains(x),
    ensures
        members.contains(id) ==> notified.to_multiset().count(id) == 1,
        !members.contains(id) ==> notified.to_multiset().count(id) == 0,
{
    broadcast use vstd::seq_lib::group_to_multiset_ensures;

    notified.lemma_multiset_has_no_duplicates();
    assert(notified.contains(id) <==> members.contains(id));
}

/// Idempotent unsubscribe: removing an identifier that is not a member leaves
/// the membership exactly as it was.
pub proof fn lemma_unsubscribe_idempotent(s: Set<u64>, id: u64)
    requires
        !s.contains(id),
    ensures
        s.remove(id) == s,
{
    assert(s.remove(id) =~= s);
}

} // verus!
