//! A consumer's own lockable value: one logical value and its generation
//! counter behind a reader/writer lock, with a single injected update
//! capability instead of a subscriber set. A mutating `write`, `set` or
//! `with_mut` bumps the generation by exactly one and signals the owning
//! consumer through that capability; `write_silent` does neither. This lock
//! has no poison flag: every critical section in this crate is verified
//! panic-free. Host-supplied callbacks run by `with`/`with_mut` are not
//! verified, though — a panicking callback would leave the lock held
//! forever, so keeping callbacks panic-free is the host's responsibility.

use vstd::prelude::*;
use vstd::std_specs::cmp::PartialEqSpec;
use vstd::rwlock::ReadHandle;
use vstd::rwlock::RwLock;
use vstd::rwlock::RwLockPredicate;
use vstd::rwlock::WriteHandle;
use std::sync::Arc;
use crate::cell::bumped;

verus! {

/// Host capability: signal that the owning consumer should recompute. The
/// host decides when the recomputation actually runs; the lock promises
/// nothing about it.
pub trait UpdateSignal {
    fn signal(&self);
}

/// Lock invariant for a consumer's own state: any state may be stored.
pub struct AnyValue;

impl<T> RwLockPredicate<T> for AnyValue {
    open spec fn inv(self, v: T) -> bool {
        true
    }
}

/// What a consumer's own lock protects: the value and the generation tag
/// counting its completed mutating writes.
pub struct LocalState<T> {
    /// The protected payload.
    pub value: T,
    /// Monotonically increasing tag: how many mutating writes have completed.
    pub generation: u64,
}

impl<T> LocalState<T> {
    pub fn new(value: T) -> (s: Self)
        ensures
            s.value == value,
            s.generation == 0,
    {
        LocalState { value, generation: 0 }
    }

    /// One mutating write: bumps the generation by exactly one, leaving the
    /// value untouched.
    pub fn advance(&mut self)
        ensures
            final(self).value == old(self).value,
            final(self).generation == bumped(old(self).generation),
    {
        if self.generation < u64::MAX {
            self.generation = self.generation + 1;
        }
    }

    /// One mutating write that replaces the value: stores `value` and bumps
    /// the generation by exactly one.
    pub fn store(&mut self, value: T)
        ensures
            final(self).value == value,
            final(self).generation == bumped(old(self).generation),
    {
        self.advance();
        self.value = value;
    }
}

/// Shared read access to the state, held until [`release`](Self::release).
pub struct ValueReadGuard<'a, T> {
    handle: ReadHandle<'a, LocalState<T>, AnyValue>,
}

impl<'a, T> ValueReadGuard<'a, T> {
    /// The state this guard gives access to.
    pub closed spec fn view(&self) -> LocalState<T> {
        self.handle.view()
    }

    pub fn value(&self) -> (v: &T)
        ensures
            *v == self@.value,
    {
        &self.handle.borrow().value
    }

    pub fn generation(&self) -> (g: u64)
        ensures
            g == self@.generation,
    {
        self.handle.borrow().generation
    }

    pub fn release(self) {
        let ValueReadGuard { handle } = self;
        handle.release_read();
    }
}

/// Exclusive write access to the state, held until [`release`](Self::release).
pub struct ValueWriteGuard<'a, T> {
    state: LocalState<T>,
    handle: WriteHandle<'a, LocalState<T>, AnyValue>,
}

impl<'a, T> ValueWriteGuard<'a, T> {
    /// The state this guard owns until release.
    pub closed spec fn view(&self) -> LocalState<T> {
        self.state
    }

    pub fn value(&self) -> (v: &T)
        ensures
            *v == self@.value,
    {
        &self.state.value
    }

    pub fn value_mut(&mut self) -> (v: &mut T)
        ensures
            *v == old(self)@.value,
            final(self)@.value == *final(v),
            final(self)@.generation == old(self)@.generation,
    {
        &mut self.state.value
    }

    pub fn set_value(&mut self, value: T)
        ensures
            final(self)@.value == value,
            final(self)@.generation == old(self)@.generation,
    {
        self.state.value = value;
    }

    pub fn generation(&self) -> (g: u64)
        ensures
            g == self@.generation,
    {
        self.state.generation
    }

    /// Stores the state back and releases the exclusive lock.
    pub fn release(self) {
        let ValueWriteGuard { state, handle } = self;
        handle.release_write(state);
    }
}

/// A handle to one consumer's own lockable value. Clones share the same
/// state and the same update capability.
pub struct UseLock<T, U> {
    update: Arc<U>,
    value: Arc<RwLock<LocalState<T>, AnyValue>>,
    cell_id: u64,
    gen: u64,
}

impl<T, U: UpdateSignal> UseLock<T, U> {
    /// The host-assigned identity of the shared value; clones of one handle
    /// carry the same identity, and the host must not reuse one identity for
    /// two live values.
    pub closed spec fn spec_cell_id(&self) -> u64 {
        self.cell_id
    }

    /// The generation this handle last observed, the basis of `==`.
    pub closed spec fn observed_generation(&self) -> u64 {
        self.gen
    }

    /// The lock this handle shares.
    pub closed spec fn lock(&self) -> Arc<RwLock<LocalState<T>, AnyValue>> {
        self.value
    }

    /// Creates the value's lock and the first handle to it, both at
    /// generation zero (the stored generation is stated on
    /// [`LocalState::new`]).
    pub fn new(value: T, update: Arc<U>, cell_id: u64) -> (h: Self)
        ensures
            h.spec_cell_id() == cell_id,
            h.observed_generation() == 0,
    {
        UseLock {
            update,
            value: Arc::new(RwLock::new(LocalState::new(value), Ghost(AnyValue))),
            cell_id,
            gen: 0,
        }
    }

    pub fn cell_id(&self) -> (id: u64)
        ensures
            id == self.spec_cell_id(),
    {
        self.cell_id
    }

    pub fn generation(&self) -> (g: u64)
        ensures
            g == self.observed_generation(),
    {
        self.gen
    }

    /// Acquires shared read access; never fails and never blocks out other
    /// readers.
    pub fn read(&self) -> ValueReadGuard<'_, T> {
        ValueReadGuard { handle: self.value.acquire_read() }
    }

    /// Signals the owning consumer, then acquires exclusive write access and
    /// bumps the generation by exactly one ([`LocalState::advance`] states
    /// the step on the acquired state) before handing the guard out.
    pub fn write(&self) -> ValueWriteGuard<'_, T> {
        self.needs_update();
        let (mut state, handle) = self.value.acquire_write();
        state.advance();
        ValueWriteGuard { state, handle }
    }

    /// Replaces the value and bumps the generation by exactly one
    /// ([`LocalState::store`] states the step on the acquired state), then
    /// signals the owning consumer.
    pub fn set(&self, new: T) {
        let (mut state, handle) = self.value.acquire_write();
        state.store(new);
        handle.release_write(state);
        self.needs_update();
    }

    /// Acquires exclusive write access without bumping the generation and
    /// without signalling anybody: for bookkeeping writes that must not
    /// trigger recomputation. The guard hands the state out exactly as
    /// acquired.
    pub fn write_silent(&self) -> ValueWriteGuard<'_, T> {
        let (state, handle) = self.value.acquire_write();
        ValueWriteGuard { state, handle }
    }

    /// Runs `f` on the current value under the read lock, releasing the lock
    /// on the way out.
    pub fn with<O, F: FnOnce(&T) -> O>(&self, f: F) -> (o: O)
        requires
            forall|t: &T| #[trigger] f.requires((t,)),
        ensures
            exists|t: &T| #[trigger] f.ensures((t,), o),
    {
        let guard = self.read();
        let v = guard.value();
        let o = f(v);
        proof {
            assert(f.ensures((v,), o));
        }
        guard.release();
        o
    }

    /// Runs `f` on the value under the exclusive lock, with the same signal
    /// and generation bump as [`write`](Self::write), releasing the lock on
    /// the way out.
    pub fn with_mut<O, F: FnOnce(&mut T) -> O>(&self, f: F) -> (o: O)
        requires
            forall|t: &mut T| #[trigger] f.requires((t,)),
        ensures
            exists|t: &mut T| #[trigger] f.ensures((t,), o),
    {
        let mut guard = self.write();
        let o = apply_to_local(&mut guard, f);
        guard.release();
        o
    }

    /// Re-synchronizes the observed generation with the lock's current one:
    /// done every time the consumer's persistent slot is revisited, so that
    /// `==` against an older clone of the handle reports whether a mutating
    /// write happened in between. The installed generation is the one seen
    /// under a read lock, as [`refresh_from`](Self::refresh_from) states.
    pub fn refresh(&mut self)
        ensures
            final(self).spec_cell_id() == old(self).spec_cell_id(),
            final(self).lock() == old(self).lock(),
    {
        let shared = self.value.clone();
        let guard = ValueReadGuard { handle: shared.acquire_read() };
        self.refresh_from(&guard);
        guard.release();
    }

    /// Installs exactly the generation seen through `guard` — a read guard
    /// the caller holds on this handle's lock — as the observed one.
    pub fn refresh_from(&mut self, guard: &ValueReadGuard<'_, T>)
        ensures
            final(self).observed_generation() == guard@.generation,
            final(self).spec_cell_id() == old(self).spec_cell_id(),
            final(self).lock() == old(self).lock(),
    {
        self.gen = guard.generation();
    }

    /// Invokes the injected update capability: "this consumer should be
    /// recomputed".
    pub fn needs_update(&self) {
        self.update.signal();
    }
}

/// Applies `f` to the value owned by an exclusive guard.
fn apply_to_local<'a, T, O, F: FnOnce(&mut T) -> O>(
    guard: &mut ValueWriteGuard<'a, T>,
    f: F,
) -> (o: O)
    requires
        forall|t: &mut T| #[trigger] f.requires((t,)),
    ensures
        exists|t: &mut T| #[trigger] f.ensures((t,), o),
        final(guard)@.generation == old(guard)@.generation,
{
    f(guard.value_mut())
}

impl<T, U: UpdateSignal> Clone for UseLock<T, U> {
    /// Cloning shares the same lock and update capability and copies the
    /// observed generation.
    fn clone(&self) -> (c: Self)
        ensures
            c.spec_cell_id() == self.spec_cell_id(),
            c.observed_generation() == self.observed_generation(),
            c.lock() == self.lock(),
    {
        UseLock {
            update: self.update.clone(),
            value: self.value.clone(),
            cell_id: self.cell_id,
            gen: self.gen,
        }
    }
}

impl<T, U: UpdateSignal> PartialEq for UseLock<T, U> {
    /// Change-proxy equality: same underlying value and same observed
    /// generation.
    fn eq(&self, other: &Self) -> (r: bool) {
        self.cell_id == other.cell_id && self.gen == other.gen
    }
}

impl<T, U: UpdateSignal> vstd::std_specs::cmp::PartialEqSpecImpl for UseLock<T, U> {
    open spec fn obeys_eq_spec() -> bool {
        true
    }

    open spec fn eq_spec(&self, other: &Self) -> bool {
        self.spec_cell_id() == other.spec_cell_id() && self.observed_generation()
            == other.observed_generation()
    }
}

/// Equality as change-proxy for consumer-local handles: for two handles to
/// the same value, `==` holds exactly when they observed the same
/// generation; handles to different values are never `==`. (`eq_spec` is
/// what the executable `==` returns.)
pub proof fn lemma_local_eq_is_change_proxy<T, U: UpdateSignal>(
    a: &UseLock<T, U>,
    b: &UseLock<T, U>,
)
    ensures
        a.spec_cell_id() == b.spec_cell_id() ==> (a.eq_spec(b) <==> a.observed_generation()
            == b.observed_generation()),
        a.spec_cell_id() != b.spec_cell_id() ==> !a.eq_spec(b),
{
}

} // verus!
