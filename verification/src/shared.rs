//! The shared cell and the per-consumer handles to it.
//!
//! One provider creates a [`SharedCell`]; every consumer holds a
//! [`UseSharedLock`] handle, a cheap clone sharing the same cell. A mutating
//! `write` bumps the cell's generation and signals every registered
//! subscriber through the host's notify capability, synchronously and while
//! still holding the exclusive lock. `write_silent` does neither. Handle
//! equality compares the cell identity and the observed generation, nothing
//! deeper, so the host can use `==` to decide whether anything changed.
//!
//! Every critical section in this crate is verified panic-free, but the
//! host-supplied callbacks run by `with`/`with_mut` and the notify
//! capability are not: a panicking callback would leave the lock held
//! forever. Keeping callbacks panic-free is the host's responsibility; a
//! host whose own critical section fails midway should mark the cell with
//! [`UseSharedLock::poison`] so later acquisitions refuse the value.

use vstd::prelude::*;
use vstd::std_specs::cmp::PartialEqSpec;
use vstd::rwlock::ReadHandle;
use vstd::rwlock::RwLock;
use vstd::rwlock::RwLockPredicate;
use vstd::rwlock::WriteHandle;
use std::sync::Arc;
use crate::cell::CellState;
use crate::cell::LockPoisoned;
use crate::cell::bumped;

verus! {

/// Host capability: signal that the consumer behind `id` may be stale and
/// should be recomputed. Implemented by the host runtime; the cell promises
/// nothing about what the signal does.
pub trait NotifyAny {
    fn notify_any(&self, id: u64);
}

/// Lock invariant: every state stored in a cell's lock is well formed.
pub struct WellFormed;

impl<T> RwLockPredicate<CellState<T>> for WellFormed {
    open spec fn inv(self, v: CellState<T>) -> bool {
        v.wf()
    }
}

/// One logical value, its metadata, and the injected notify capability,
/// shared by the provider and every attached consumer.
pub struct SharedCell<T, N> {
    lock: RwLock<CellState<T>, WellFormed>,
    notify: N,
}

impl<T, N: NotifyAny> SharedCell<T, N> {
    /// Creates the cell the provider will publish: generation zero, no
    /// subscribers, not poisoned.
    pub fn new(value: T, notify: N) -> (cell: Arc<SharedCell<T, N>>) {
        Arc::new(SharedCell { lock: RwLock::new(CellState::new(value), Ghost(WellFormed)), notify })
    }
}

/// Relates the cell state found by a mutating write to the state it leaves
/// behind: the generation is bumped by one, everything else is untouched.
pub open spec fn write_step<T>(prev: CellState<T>, next: CellState<T>) -> bool {
    &&& prev.wf()
    &&& !prev.poisoned
    &&& next.value == prev.value
    &&& next.subscribers == prev.subscribers
    &&& next.poisoned == prev.poisoned
    &&& next.generation == bumped(prev.generation)
}

/// Shared read access to a cell, held until [`release`](Self::release). Any
/// number may exist at once; none can coexist with a write guard.
pub struct SharedLockReadGuard<'a, T> {
    handle: ReadHandle<'a, CellState<T>, WellFormed>,
}

impl<'a, T> SharedLockReadGuard<'a, T> {
    /// The cell state this guard gives access to.
    pub closed spec fn view(&self) -> CellState<T> {
        self.handle.view()
    }

    pub fn value(&self) -> (v: &T)
        ensures
            *v == self@.value,
    {
        &self.handle.borrow().value
    }

    pub fn generation(&self) -> (g: u64)
        ensures
            g == self@.generation,
    {
        self.handle.borrow().generation
    }

    pub fn release(self) {
        let SharedLockReadGuard { handle } = self;
        handle.release_read();
    }
}

/// Exclusive write access to a cell, held until [`release`](Self::release).
/// While it exists, no reader and no other writer can touch the cell.
pub struct SharedLockWriteGuard<'a, T> {
    state: CellState<T>,
    handle: WriteHandle<'a, CellState<T>, WellFormed>,
}

impl<'a, T> SharedLockWriteGuard<'a, T> {
    /// The cell state this guard owns until release.
    pub closed spec fn view(&self) -> CellState<T> {
        self.state
    }

    pub fn value(&self) -> (v: &T)
        ensures
            *v == self@.value,
    {
        &self.state.value
    }

    pub fn value_mut(&mut self) -> (v: &mut T)
        ensures
            *v == old(self)@.value,
            final(self)@.value == *final(v),
            final(self)@.generation == old(self)@.generation,
            final(self)@.subscribers == old(self)@.subscribers,
            final(self)@.poisoned == old(self)@.poisoned,
            final(self)@.wf() == old(self)@.wf(),
    {
        &mut self.state.value
    }

    pub fn set_value(&mut self, value: T)
        ensures
            final(self)@.value == value,
            final(self)@.generation == old(self)@.generation,
            final(self)@.subscribers == old(self)@.subscribers,
            final(self)@.poisoned == old(self)@.poisoned,
            final(self)@.wf() == old(self)@.wf(),
    {
        self.state.value = value;
    }

    pub fn generation(&self) -> (g: u64)
        ensures
            g == self@.generation,
    {
        self.state.generation
    }

    /// Stores the state back and releases the exclusive lock.
    pub fn release(self)
        requires
            self@.wf(),
    {
        let SharedLockWriteGuard { state, handle } = self;
        handle.release_write(state);
    }
}

/// A consumer's handle to a shared cell: shared ownership of the cell, the
/// host-assigned identity of that cell, and the generation the consumer last
/// observed.
pub struct UseSharedLock<T, N> {
    cell: Arc<SharedCell<T, N>>,
    cell_id: u64,
    gen: u64,
}

impl<T, N: NotifyAny> UseSharedLock<T, N> {
    /// The host-assigned identity of the cell this handle refers to. Handles
    /// derived from the same provider share it; the host must not reuse one
    /// identity for two live cells.
    pub closed spec fn spec_cell_id(&self) -> u64 {
        self.cell_id
    }

    /// The generation this handle last observed, the basis of `==`.
    pub closed spec fn observed_generation(&self) -> u64 {
        self.gen
    }

    /// Wraps a published cell in a fresh handle. The handle observes the
    /// cell's generation at construction time: the observation itself is
    /// stated on [`new_observing`](Self::new_observing), which this calls
    /// under a read lock; the cell is not modified.
    pub fn new(cell: Arc<SharedCell<T, N>>, cell_id: u64) -> (h: Self)
        ensures
            h.spec_cell_id() == cell_id,
            h.cell() == cell,
    {
        let shared = cell.clone();
        let guard = SharedLockReadGuard { handle: shared.lock.acquire_read() };
        let h = Self::new_observing(cell, &guard, cell_id);
        guard.release();
        h
    }

    /// Wraps a cell in a fresh handle that observes exactly the generation
    /// seen through `guard` — a read guard the caller holds on that same
    /// cell.
    pub fn new_observing(
        cell: Arc<SharedCell<T, N>>,
        guard: &SharedLockReadGuard<'_, T>,
        cell_id: u64,
    ) -> (h: Self)
        ensures
            h.spec_cell_id() == cell_id,
            h.cell() == cell,
            h.observed_generation() == guard@.generation,
    {
        let gen = guard.generation();
        UseSharedLock { cell, cell_id, gen }
    }

    /// The cell this handle shares.
    pub closed spec fn cell(&self) -> Arc<SharedCell<T, N>> {
        self.cell
    }

    pub fn cell_id(&self) -> (id: u64)
        ensures
            id == self.spec_cell_id(),
    {
        self.cell_id
    }

    pub fn generation(&self) -> (g: u64)
        ensures
            g == self.observed_generation(),
    {
        self.gen
    }

    /// Acquires shared read access. Fails exactly when the cell was found
    /// poisoned — the decision is stated on [`classify_read`], which this
    /// applies to the acquired state — and never blocks out other readers.
    pub fn read(&self) -> (r: Result<SharedLockReadGuard<'_, T>, LockPoisoned>)
        ensures
            r matches Ok(g) ==> g@.wf() && !g@.poisoned,
    {
        classify_read(self.cell.lock.acquire_read())
    }

    /// Acquires exclusive write access; then, still holding the lock, bumps
    /// the generation and signals every current subscriber once through the
    /// host's notify capability. Fails exactly when the cell was found
    /// poisoned, in which case the state is stored back untouched and nobody
    /// is signalled; [`seal_write`] states that decision over the acquired
    /// state.
    pub fn write(&self) -> (r: Result<SharedLockWriteGuard<'_, T>, LockPoisoned>)
        ensures
            r matches Ok(g) ==> {
                &&& g@.wf()
                &&& !g@.poisoned
                &&& g@.generation >= 1
                &&& exists|prev: CellState<T>| #[trigger] write_step(prev, g@)
            },
    {
        let (state, handle) = self.cell.lock.acquire_write();
        match seal_write(state, handle) {
            Ok((guard, notified)) => {
                let mut i: usize = 0;
                while i < notified.len()
                    decreases notified@.len() - i,
                {
                    self.cell.notify.notify_any(notified[i]);
                    i += 1;
                }
                Ok(guard)
            },
            Err((found, handle)) => {
                handle.release_write(found);
                Err(LockPoisoned)
            },
        }
    }

    /// Acquires exclusive write access without bumping the generation and
    /// without signalling anybody: for bookkeeping writes that must not
    /// trigger recomputation. Fails exactly when the cell was found
    /// poisoned; [`seal_silent`] states over the acquired state that an Ok
    /// guard hands that state out exactly as found.
    pub fn write_silent(&self) -> (r: Result<SharedLockWriteGuard<'_, T>, LockPoisoned>)
        ensures
            r matches Ok(g) ==> g@.wf() && !g@.poisoned,
    {
        let (state, handle) = self.cell.lock.acquire_write();
        match seal_silent(state, handle) {
            Ok(guard) => Ok(guard),
            Err((found, handle)) => {
                handle.release_write(found);
                Err(LockPoisoned)
            },
        }
    }

    /// Runs `f` on the current value under the read lock, releasing the lock
    /// on the way out. Fails exactly when the cell was found poisoned.
    pub fn with<O, F: FnOnce(&T) -> O>(&self, f: F) -> (r: Result<O, LockPoisoned>)
        requires
            forall|t: &T| #[trigger] f.requires((t,)),
        ensures
            r is Ok ==> exists|t: &T| #[trigger] f.ensures((t,), r->Ok_0),
    {
        match self.read() {
            Ok(guard) => {
                let v = guard.value();
                let o = f(v);
                guard.release();
                let r: Result<O, LockPoisoned> = Ok(o);
                proof {
                    assert(r->Ok_0 == o);
                    assert(exists|t: &T| #[trigger] f.ensures((t,), r->Ok_0)) by {
                        assert(f.ensures((v,), o));
                    };
                }
                r
            },
            Err(e) => Err(e),
        }
    }

    /// Runs `f` on the value under the exclusive lock, with the same
    /// generation bump and subscriber signalling as [`write`](Self::write),
    /// releasing the lock on the way out.
    pub fn with_mut<O, F: FnOnce(&mut T) -> O>(&mut self, f: F) -> (r: Result<O, LockPoisoned>)
        requires
            forall|t: &mut T| #[trigger] f.requires((t,)),
        ensures
            r is Ok ==> exists|t: &mut T| #[trigger] f.ensures((t,), r->Ok_0),
    {
        match self.write() {
            Ok(mut guard) => {
                let o = apply_to_value(&mut guard, f);
                guard.release();
                let r: Result<O, LockPoisoned> = Ok(o);
                proof {
                    assert(r->Ok_0 == o);
                    assert(exists|t: &mut T| #[trigger] f.ensures((t,), r->Ok_0));
                }
                r
            },
            Err(e) => Err(e),
        }
    }

    /// Registers a consumer identifier with the cell's subscriber set. Done
    /// once at attach time; registering an identifier twice changes nothing.
    pub fn subscribe(&self, id: u64) {
        let (mut state, handle) = self.cell.lock.acquire_write();
        state.subscribe(id);
        handle.release_write(state);
    }

    /// Removes a consumer identifier from the cell's subscriber set. Done at
    /// teardown; removing an identifier that was never registered, or was
    /// already removed, changes nothing.
    pub fn unsubscribe(&self, id: u64) {
        let (mut state, handle) = self.cell.lock.acquire_write();
        state.unsubscribe(id);
        handle.release_write(state);
    }

    /// Re-synchronizes the observed generation with the cell's current one:
    /// done every time the consumer's persistent slot is revisited, so that
    /// `==` against an older clone of the handle reports whether a mutating
    /// write happened in between. The installed generation is the one seen
    /// under a read lock, as [`refresh_from`](Self::refresh_from) states.
    pub fn refresh(&mut self)
        ensures
            final(self).spec_cell_id() == old(self).spec_cell_id(),
            final(self).cell() == old(self).cell(),
    {
        let shared = self.cell.clone();
        let guard = SharedLockReadGuard { handle: shared.lock.acquire_read() };
        self.refresh_from(&guard);
        guard.release();
    }

    /// Installs exactly the generation seen through `guard` — a read guard
    /// the caller holds on this handle's cell — as the observed one.
    pub fn refresh_from(&mut self, guard: &SharedLockReadGuard<'_, T>)
        ensures
            final(self).observed_generation() == guard@.generation,
            final(self).spec_cell_id() == old(self).spec_cell_id(),
            final(self).cell() == old(self).cell(),
    {
        self.gen = guard.generation();
    }

    /// Marks the cell poisoned: called by the host when a critical section
    /// failed midway and the value can no longer be trusted.
    pub fn poison(&self) {
        let (mut state, handle) = self.cell.lock.acquire_write();
        state.poison();
        handle.release_write(state);
    }
}

impl<T, N: NotifyAny> Clone for UseSharedLock<T, N> {
    /// Cloning shares the same cell and copies the observed generation; it
    /// registers no subscription of its own.
    fn clone(&self) -> (c: Self)
        ensures
            c.spec_cell_id() == self.spec_cell_id(),
            c.observed_generation() == self.observed_generation(),
            c.cell() == self.cell(),
    {
        UseSharedLock { cell: self.cell.clone(), cell_id: self.cell_id, gen: self.gen }
    }
}

impl<T, N: NotifyAny> PartialEq for UseSharedLock<T, N> {
    /// Change-proxy equality: same cell and same observed generation.
    fn eq(&self, other: &Self) -> (r: bool) {
        self.cell_id == other.cell_id && self.gen == other.gen
    }
}

impl<T, N: NotifyAny> vstd::std_specs::cmp::PartialEqSpecImpl for UseSharedLock<T, N> {
    open spec fn obeys_eq_spec() -> bool {
        true
    }

    open spec fn eq_spec(&self, other: &Self) -> bool {
        self.spec_cell_id() == other.spec_cell_id() && self.observed_generation()
            == other.observed_generation()
    }
}

/// Equality as change-proxy: for two handles to the same cell, `==` holds
/// exactly when they observed the same generation; handles to different
/// cells are never `==`, whatever their generations. (`eq_spec` is what the
/// executable `==` returns.)
pub proof fn lemma_eq_is_change_proxy<T, N: NotifyAny>(
    a: &UseSharedLock<T, N>,
    b: &UseSharedLock<T, N>,
)
    ensures
        a.spec_cell_id() == b.spec_cell_id() ==> (a.eq_spec(b) <==> a.observed_generation()
            == b.observed_generation()),
        a.spec_cell_id() != b.spec_cell_id() ==> !a.eq_spec(b),
{
}

/// Decides a read acquisition: a poisoned state is refused, any other is
/// handed out exactly as found.
fn classify_read<'a, T>(handle: ReadHandle<'a, CellState<T>, WellFormed>) -> (r: Result<
    SharedLockReadGuard<'a, T>,
    LockPoisoned,
>)
    ensures
        r is Ok <==> !handle.view().poisoned,
        r matches Ok(g) ==> g@ == handle.view(),
{
    if handle.borrow().poisoned {
        handle.release_read();
        Err(LockPoisoned)
    } else {
        Ok(SharedLockReadGuard { handle })
    }
}

/// Decides a mutating write on the acquired state: a poisoned state is
/// refused and handed back untouched; any other is advanced by exactly one
/// [`write_step`] and sealed into a guard, beside a duplicate-free report of
/// exactly the subscribers to signal.
fn seal_write<'a, T>(
    state: CellState<T>,
    handle: WriteHandle<'a, CellState<T>, WellFormed>,
) -> (r: Result<
    (SharedLockWriteGuard<'a, T>, Vec<u64>),
    (CellState<T>, WriteHandle<'a, CellState<T>, WellFormed>),
>)
    requires
        state.wf(),
    ensures
        r is Ok <==> !state.poisoned,
        r matches Ok(p) ==> {
            &&& write_step(state, p.0@)
            &&& p.1@.no_duplicates()
            &&& forall|id: u64| #[trigger] p.1@.contains(id) <==> state.subscribers@.contains(id)
        },
        r matches Err(p) ==> p.0 == state,
{
    if state.poisoned {
        Err((state, handle))
    } else {
        let mut advanced = state;
        let notified = advanced.notify_consumers();
        Ok((SharedLockWriteGuard { state: advanced, handle }, notified))
    }
}

/// Decides a silent write on the acquired state: a poisoned state is refused
/// and handed back untouched; any other is sealed into a guard exactly as
/// found — no generation bump, no report of subscribers.
fn seal_silent<'a, T>(
    state: CellState<T>,
    handle: WriteHandle<'a, CellState<T>, WellFormed>,
) -> (r: Result<
    SharedLockWriteGuard<'a, T>,
    (CellState<T>, WriteHandle<'a, CellState<T>, WellFormed>),
>)
    ensures
        r is Ok <==> !state.poisoned,
        r matches Ok(g) ==> g@ == state,
        r matches Err(p) ==> p.0 == state,
{
    if state.poisoned {
        Err((state, handle))
    } else {
        Ok(SharedLockWriteGuard { state, handle })
    }
}

/// Applies `f` to the value owned by an exclusive guard.
fn apply_to_value<'a, T, O, F: FnOnce(&mut T) -> O>(
    guard: &mut SharedLockWriteGuard<'a, T>,
    f: F,
) -> (o: O)
    requires
        forall|t: &mut T| #[trigger] f.requires((t,)),
    ensures
        exists|t: &mut T| #[trigger] f.ensures((t,), o),
        final(guard)@.generation == old(guard)@.generation,
        final(guard)@.subscribers == old(guard)@.subscribers,
        final(guard)@.poisoned == old(guard)@.poisoned,
        final(guard)@.wf() == old(guard)@.wf(),
{
    f(guard.value_mut())
}

/// The consumer side of the attach protocol: wraps the cell found by the
/// host's context lookup, registering the consumer as a subscriber under one
/// exclusive acquisition — the registration and the generation the fresh
/// handle observes are stated on [`CellState::attach`], which this applies to
/// the acquired state. When the lookup found no provider above the consumer,
/// attachment yields nothing — an expected outcome, not an error — and no
/// cell is created or touched.
pub fn attach_consumer<T, N: NotifyAny>(
    found: Option<Arc<SharedCell<T, N>>>,
    cell_id: u64,
    consumer_id: u64,
) -> (r: Option<UseSharedLock<T, N>>)
    ensures
        r is Some <==> found is Some,
        r matches Some(h) ==> h.spec_cell_id() == cell_id && h.cell() == found->Some_0,
{
    match found {
        Some(cell) => {
            let shared = cell.clone();
            let (mut state, handle) = shared.lock.acquire_write();
            let gen = state.attach(consumer_id);
            handle.release_write(state);
            Some(UseSharedLock { cell, cell_id, gen })
        },
        None => None,
    }
}

} // verus!
