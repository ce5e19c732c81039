//! A pool that keeps the raw buffers itself and lends them out.
//!
//! An [`OwningCommandPool`] holds a [`CommandPool`], a store of raw buffer handles and a
//! cursor. The slots below the cursor are lent since the last reset, the slots from the
//! cursor on are spare. Acquiring a buffer advances the cursor; resetting the pool rewinds
//! it, so that the same handles are lent again and the backend is asked for more only when
//! the store runs out.
//!
//! A lent buffer names its slot by a [`Slot`]; the handle itself stays in the store.

use crate::buffer::{BufferView, CommandBuffer};
use crate::capability::{Capability, QueueType, Supports};
use crate::level::{Level, PrimaryLevel};
use crate::pool::{CommandPool, PoolView};
use crate::reset::NoIndividualReset;
use crate::state::{Idle, InitialState};
use vstd::prelude::*;

verus! {

/// The place of a raw buffer in the store of an owning pool.
#[derive(Clone, Copy, Debug, PartialEq, Eq, Hash, Structural)]
pub struct Slot(pub usize);

/// What an owning pool is.
pub ghost struct OwningView<P, H, C, L> {
    /// The pool that the raw buffers are allocated from. Its count of outstanding buffers
    /// is the size of the store.
    pub inner: PoolView<P, C, NoIndividualReset>,
    /// The level of every buffer of the pool.
    pub level: L,
    /// The raw buffers, in the order in which the backend gave them.
    pub stored: Seq<H>,
    /// The number of slots lent since the last reset: the cursor.
    pub lent: nat,
    /// The number of lent buffers that were given back since the last reset.
    pub released: nat,
}

impl<P, H, C, L> OwningView<P, H, C, L> {
    /// The cursor is within the store, no more was given back than was lent, and the
    /// inner pool counts the store.
    pub open spec fn wf(self) -> bool {
        &&& self.released <= self.lent
        &&& self.lent <= self.stored.len()
        &&& self.inner.outstanding == self.stored.len()
    }

    /// The number of spare slots.
    pub open spec fn spare(self) -> nat {
        (self.stored.len() - self.lent) as nat
    }

    /// The number of raw buffers that the backend must add so that `count` slots are
    /// spare.
    pub open spec fn shortfall(self, count: nat) -> nat {
        if self.lent + count > self.stored.len() {
            (self.lent + count - self.stored.len()) as nat
        } else {
            0
        }
    }

    /// Every buffer lent since the last reset was given back.
    pub open spec fn all_released(self) -> bool {
        self.released == self.lent
    }

    /// The pool after the raw buffers `fresh` were added to its store.
    pub open spec fn after_reserve(self, fresh: Seq<H>) -> Self {
        OwningView {
            inner: self.inner.after_allocate(fresh.len()),
            stored: self.stored + fresh,
            ..self
        }
    }

    /// The buffer that is lent next: `Initial`, in the first spare slot, with the tags of
    /// the pool.
    pub open spec fn lends(self) -> BufferView<Slot, C, L, NoIndividualReset> {
        self.inner.stamped(self.level, Slot(self.lent as usize))
    }

    /// The pool after one more buffer was lent.
    pub open spec fn after_acquire(self) -> Self
        recommends
            self.spare() >= 1,
    {
        OwningView { lent: self.lent + 1, ..self }
    }

    /// The pool after `count` more buffers were lent.
    pub open spec fn after_acquires(self, count: nat) -> Self
        decreases count,
    {
        if count == 0 {
            self
        } else {
            self.after_acquires((count - 1) as nat).after_acquire()
        }
    }

    /// The pool after one lent buffer was given back.
    pub open spec fn after_release(self) -> Self
        recommends
            self.released < self.lent,
    {
        OwningView { released: self.released + 1, ..self }
    }

    /// The pool after a reset: the store stays and all of it is spare.
    pub open spec fn after_reset(self) -> Self {
        OwningView { lent: 0, released: 0, ..self }
    }

    /// The same pool under another capability.
    pub open spec fn with_capability<U>(self, capability: U) -> OwningView<P, H, U, L> {
        OwningView {
            inner: self.inner.with_capability(capability),
            level: self.level,
            stored: self.stored,
            lent: self.lent,
            released: self.released,
        }
    }

    /// The same pool with its capability widened to a value.
    pub open spec fn widened(self) -> OwningView<P, H, QueueType, L> where C: Capability {
        self.with_capability(self.inner.capability.queue_type())
    }
}

/// What is left of an owning pool when it ends. The backend is to reset the raw pool,
/// then to free the raw buffers, then to destroy the raw pool.
#[derive(Debug)]
pub struct Disposal<P, H> {
    /// The raw buffers for the backend to free, if there are any.
    pub buffers: Option<Vec<H>>,
    /// The raw pool for the backend to destroy after that.
    pub raw: P,
}

/// A command pool that keeps its raw buffers, of type `H`, and lends them out.
#[derive(Debug)]
pub struct OwningCommandPool<P, H, C = QueueType, L = PrimaryLevel> {
    inner: CommandPool<P, C>,
    level: L,
    buffers: Vec<H>,
    next: usize,
    released: usize,
}

impl<P, H, C, L> View for OwningCommandPool<P, H, C, L> {
    type V = OwningView<P, H, C, L>;

    closed spec fn view(&self) -> OwningView<P, H, C, L> {
        OwningView {
            inner: self.inner@,
            level: self.level,
            stored: self.buffers@,
            lent: self.next as nat,
            released: self.released as nat,
        }
    }
}

impl<P, H, C, L> OwningCommandPool<P, H, C, L> {
    /// Makes an owning pool of a pool from which no buffer is outstanding. The store
    /// starts empty.
    ///
    /// From here on the raw pool is used through this wrapper alone: the caller answers
    /// for every raw buffer of it being allocated into the store and freed from it.
    pub fn from_inner(inner: CommandPool<P, C>, level: L) -> (pool: Self)
        requires
            inner@.disposable(),
        ensures
            pool@.wf(),
            pool@ == (OwningView {
                inner: inner@,
                level,
                stored: Seq::<H>::empty(),
                lent: 0,
                released: 0,
            }),
    {
        OwningCommandPool { inner, level, buffers: Vec::new(), next: 0, released: 0 }
    }

    /// The number of raw buffers to ask the backend for before `count` buffers can be
    /// acquired: what `count` exceeds the spare slots by, and nothing where it does not.
    pub fn shortfall(&self, count: usize) -> (missing: usize)
        requires
            self@.wf(),
        ensures
            missing == self@.shortfall(count as nat),
    {
        let spare: usize = self.buffers.len() - self.next;
        if count > spare {
            count - spare
        } else {
            0
        }
    }

    /// Adds the raw buffers `fresh`, which the backend allocated from the raw pool at the
    /// level of this pool, to the store as spare slots, and says whether `count` slots
    /// are now spare. The store never shrinks, and what was lent stays lent.
    pub fn reserve(&mut self, count: usize, fresh: Vec<H>) -> (enough: bool)
        requires
            old(self)@.wf(),
        ensures
            final(self)@.wf(),
            final(self)@ == old(self)@.after_reserve(fresh@),
            enough == (final(self)@.spare() >= count),
            enough == (fresh@.len() >= old(self)@.shortfall(count as nat)),
    {
        let mut fresh = fresh;
        self.buffers.append(&mut fresh);
        self.inner.set_outstanding(self.buffers.len());
        self.buffers.len() - self.next >= count
    }

    /// Lends the buffer in the first spare slot, after adding the raw buffers `fresh` to
    /// the store. The buffer is `Initial` and has the capability, level and family of the
    /// pool.
    ///
    /// A slot must be spare once `fresh` is added: the caller asks the backend for
    /// `shortfall(1)` raw buffers first.
    pub fn acquire_buffer(&mut self, fresh: Vec<H>) -> (buffer: CommandBuffer<
        Slot,
        C,
        InitialState,
        L,
    >) where C: Capability, L: Level
        requires
            old(self)@.wf(),
            fresh@.len() >= old(self)@.shortfall(1),
        ensures
            final(self)@.wf(),
            final(self)@ == old(self)@.after_reserve(fresh@).after_acquire(),
            buffer@ == old(self)@.lends(),
    {
        let enough = self.reserve(1, fresh);
        let stored: usize = self.buffers.len();
        assert(enough && self.next < stored);
        let slot = Slot(self.next);
        self.next = self.next + 1;
        CommandBuffer::from_raw(
            slot,
            self.inner.capability(),
            InitialState,
            self.level,
            NoIndividualReset,
            self.inner.family(),
        )
    }

    /// Takes back a lent buffer. The buffer must be idle, that is neither being recorded
    /// nor in flight, and its slot must be one of those lent since the last reset.
    ///
    /// Whether the buffer was lent by this pool is not checked: the caller answers for it.
    pub fn release<S: Idle>(&mut self, buffer: CommandBuffer<Slot, C, S, L>)
        requires
            old(self)@.wf(),
            old(self)@.released < old(self)@.lent,
            buffer@.raw.0 < old(self)@.lent,
        ensures
            final(self)@.wf(),
            final(self)@ == old(self)@.after_release(),
            buffer@.state.idle(),
    {
        proof {
            buffer.state_is_idle();
        }
        self.released = self.released + 1;
    }

    /// Rewinds the cursor: every slot is spare again, and the store stays. Gives the raw
    /// pool for the backend to reset. Every buffer lent since the last reset must have
    /// been given back.
    pub fn reset(&mut self) -> (raw: &mut P)
        requires
            old(self)@.wf(),
            old(self)@.all_released(),
        ensures
            *raw == old(self)@.inner.raw,
            final(self)@ == (OwningView {
                inner: PoolView { raw: *final(raw), ..old(self)@.inner },
                ..old(self)@.after_reset()
            }),
            final(self)@.wf(),
    {
        self.next = 0;
        self.released = 0;
        self.inner.reset()
    }

    /// Ends the pool. Gives the stored raw buffers, where there are any, for the backend to
    /// free, and the raw pool for it to destroy. Every buffer lent since the last reset
    /// must have been given back.
    pub fn dispose(self) -> (left: Disposal<P, H>)
        requires
            self@.wf(),
            self@.all_released(),
        ensures
            left.raw == self@.inner.raw,
            match left.buffers {
                Some(buffers) => buffers@ == self@.stored && self@.stored.len() > 0,
                None => self@.stored.len() == 0,
            },
    {
        let mut inner = self.inner;
        inner.set_outstanding(0);
        let buffers = if self.buffers.len() > 0 {
            Some(self.buffers)
        } else {
            None
        };
        Disposal { buffers, raw: inner.dispose() }
    }

    /// The raw handle in a slot of the store, if the store has that slot.
    pub fn handle(&self, slot: Slot) -> (handle: Option<&H>)
        ensures
            match handle {
                Some(raw) => slot.0 < self@.stored.len() && *raw == self@.stored[slot.0 as int],
                None => slot.0 >= self@.stored.len(),
            },
    {
        if slot.0 < self.buffers.len() {
            Some(&self.buffers[slot.0])
        } else {
            None
        }
    }

    /// The raw handle in a slot of the store, for the backend to write to. Whatever is
    /// done to the handle, the rest of the store and the cursor stay.
    pub fn handle_mut(&mut self, slot: Slot) -> (handle: &mut H)
        requires
            slot.0 < old(self)@.stored.len(),
        ensures
            *handle == old(self)@.stored[slot.0 as int],
            final(self)@ == (OwningView {
                stored: old(self)@.stored.update(slot.0 as int, *final(handle)),
                ..old(self)@
            }),
    {
        &mut self.buffers[slot.0]
    }

    /// The pool that the raw buffers are allocated from.
    pub fn inner(&self) -> (inner: &CommandPool<P, C>)
        ensures
            inner@ == self@.inner,
    {
        &self.inner
    }

    /// The raw pool handle, for the backend to allocate from. Whatever is done to the
    /// handle, the store and the cursor stay.
    pub fn raw_mut(&mut self) -> (raw: &mut P)
        ensures
            *raw == old(self)@.inner.raw,
            final(self)@ == (OwningView {
                inner: PoolView { raw: *final(raw), ..old(self)@.inner },
                ..old(self)@
            }),
    {
        self.inner.raw_mut()
    }

    /// The level of every buffer of the pool.
    pub fn level(&self) -> (level: L) where L: Copy
        ensures
            level == self@.level,
    {
        self.level
    }

    /// The number of raw buffers in the store.
    pub fn stored(&self) -> (count: usize)
        ensures
            count == self@.stored.len(),
    {
        self.buffers.len()
    }

    /// The number of slots lent since the last reset.
    pub fn lent(&self) -> (count: usize)
        ensures
            count == self@.lent,
    {
        self.next
    }

    /// The number of lent buffers given back since the last reset.
    pub fn released(&self) -> (count: usize)
        ensures
            count == self@.released,
    {
        self.released
    }

    /// Whether every buffer lent since the last reset was given back.
    pub fn all_released(&self) -> (all: bool)
        ensures
            all == self@.all_released(),
    {
        self.released == self.next
    }

    /// Widens the capability to a value. The store and the cursor stay.
    pub fn with_value_capability(self) -> (widened: OwningCommandPool<P, H, QueueType, L>) where
        C: Capability,

        ensures
            widened@ == self@.widened(),
    {
        OwningCommandPool {
            inner: self.inner.with_value_capability(),
            level: self.level,
            buffers: self.buffers,
            next: self.next,
            released: self.released,
        }
    }

    /// Tries to narrow the capability to `U`. Where the capability does not cover `U`, the
    /// pool comes back as it was, with its store and its cursor.
    pub fn with_capability<U: Capability>(self) -> (narrowed: Result<
        OwningCommandPool<P, H, U, L>,
        Self,
    >) where C: Supports<U>
        ensures
            match U::narrowed_from(self@.inner.capability.queue_type()) {
                Some(capability) => narrowed matches Ok(pool) && pool@ == self@.with_capability(
                    capability,
                ),
                None => narrowed matches Err(pool) && pool@ == self@,
            },
    {
        match self.inner.with_capability::<U>() {
            Ok(inner) => Ok(
                OwningCommandPool {
                    inner,
                    level: self.level,
                    buffers: self.buffers,
                    next: self.next,
                    released: self.released,
                },
            ),
            Err(inner) => Err(
                OwningCommandPool {
                    inner,
                    level: self.level,
                    buffers: self.buffers,
                    next: self.next,
                    released: self.released,
                },
            ),
        }
    }
}

/// Lending `count` buffers moves the cursor by `count` and changes nothing else.
pub proof fn lemma_after_acquires<P, H, C, L>(pool: OwningView<P, H, C, L>, count: nat)
    ensures
        pool.after_acquires(count) == (OwningView { lent: pool.lent + count, ..pool }),
    decreases count,
{
    if count > 0 {
        lemma_after_acquires(pool, (count - 1) as nat);
    }
}

/// Adding no raw buffers leaves the pool as it was.
pub proof fn lemma_reserve_nothing<P, H, C, L>(pool: OwningView<P, H, C, L>)
    ensures
        pool.after_reserve(Seq::<H>::empty()) == pool,
{
    assert(pool.stored + Seq::<H>::empty() =~= pool.stored);
}

/// The number of raw buffers to ask for is what the request exceeds the spare slots by:
/// never more than the request, nothing where the spare slots suffice, and just enough
/// to meet the request.
pub proof fn lemma_shortfall<P, H, C, L>(pool: OwningView<P, H, C, L>, count: nat, fresh: Seq<H>)
    requires
        pool.wf(),
    ensures
        pool.shortfall(count) == if count > pool.spare() {
            count - pool.spare()
        } else {
            0
        },
        pool.shortfall(count) <= count,
        pool.after_reserve(fresh).spare() == pool.spare() + fresh.len(),
        pool.after_reserve(fresh).spare() >= count <==> fresh.len() >= pool.shortfall(count),
{
}

/// Reserving keeps the store as a prefix of the new store, keeps what is lent, and adds
/// exactly the new raw buffers to the spare slots.
pub proof fn lemma_reserve_grows<P, H, C, L>(pool: OwningView<P, H, C, L>, fresh: Seq<H>)
    requires
        pool.wf(),
    ensures
        pool.after_reserve(fresh).wf(),
        pool.stored.is_prefix_of(pool.after_reserve(fresh).stored),
        pool.after_reserve(fresh).stored.len() == pool.stored.len() + fresh.len(),
        pool.after_reserve(fresh).lent == pool.lent,
        pool.after_reserve(fresh).spare() == pool.spare() + fresh.len(),
{
}

/// After a request for spare slots was met, no request for as many or fewer asks the
/// backend for anything.
pub proof fn lemma_reserve_monotonic<P, H, C, L>(
    pool: OwningView<P, H, C, L>,
    first: nat,
    fresh: Seq<H>,
    second: nat,
)
    requires
        pool.wf(),
        fresh.len() >= pool.shortfall(first),
        second <= first,
    ensures
        pool.after_reserve(fresh).shortfall(second) == 0,
{
}

/// After a reset the slots that were lent are lent again: as many buffers as were lent
/// before the reset can be acquired without asking the backend for any, and the store is
/// the same afterwards.
pub proof fn lemma_reset_reuses_slots<P, H, C, L>(pool: OwningView<P, H, C, L>, again: nat)
    requires
        pool.wf(),
        again < pool.lent,
    ensures
        pool.after_reset().after_acquires(again).wf(),
        pool.after_reset().after_acquires(again).shortfall(1) == 0,
        pool.after_reset().after_acquires(again).after_reserve(Seq::<H>::empty()).after_acquire()
            == pool.after_reset().after_acquires(again + 1),
        pool.after_reset().after_acquires(again + 1).stored == pool.stored,
{
    lemma_after_acquires(pool.after_reset(), again);
    lemma_after_acquires(pool.after_reset(), again + 1);
    lemma_reserve_nothing(pool.after_reset().after_acquires(again));
}

/// An owning pool that is narrowed and then widened keeps its store and its cursor, and
/// is the pool that it was unless the narrowed capability takes fewer kinds of command.
pub proof fn lemma_narrow_widen_round_trip<P, H, U: Capability, L>(
    pool: OwningView<P, H, QueueType, L>,
    narrowed: U,
)
    requires
        U::narrowed_from(pool.inner.capability) == Some(narrowed),
    ensures
        pool.with_capability(narrowed).widened().stored == pool.stored,
        pool.with_capability(narrowed).widened().lent == pool.lent,
        pool.with_capability(narrowed).widened().released == pool.released,
        pool.inner.capability.covers(narrowed.queue_type()),
        narrowed.queue_type().covers(pool.inner.capability) ==> pool.with_capability(
            narrowed,
        ).widened() == pool,
{
    U::narrowing_is_sound(pool.inner.capability);
}

/// Widening an owning pool twice is widening it once.
pub proof fn lemma_widen_idempotent<P, H, C: Capability, L>(pool: OwningView<P, H, C, L>)
    ensures
        pool.widened().widened() == pool.widened(),
{
}

} // verus!
