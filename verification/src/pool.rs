//! Command pools.
//!
//! A [`CommandPool`] holds a raw pool handle with the capability, reset policy and queue
//! family that the raw pool was created with, and counts the buffers that were allocated
//! from it and not yet freed. The backend is called by the owner of the pool: the raw
//! handles that the backend allocated are passed to [`CommandPool::allocate_buffers`], and
//! [`CommandPool::free_buffers`] and [`CommandPool::dispose`] give back what the backend is
//! to free and to destroy.

use crate::buffer::{BufferView, CommandBuffer};
use crate::capability::{Capability, QueueType, Supports};
use crate::level::Level;
use crate::outside::relevant_marker;
use crate::reset::{NoIndividualReset, Reset};
use crate::state::{InitialState, Lifecycle, Resettable};
use gfx_hal::queue::QueueFamilyId;
use relevant::Relevant;
use vstd::prelude::*;

verus! {

/// What a pool is: its handle, its tags, and the number of its buffers that are not yet
/// freed.
pub ghost struct PoolView<P, C, R> {
    /// The raw handle.
    pub raw: P,
    /// The capability of the pool: no more than the queue family has.
    pub capability: C,
    /// The reset policy that the raw pool was created with.
    pub reset: R,
    /// The queue family that the raw pool was created for.
    pub family: QueueFamilyId,
    /// The number of buffers allocated from the pool and not yet freed.
    pub outstanding: nat,
}

impl<P, C, R> PoolView<P, C, R> {
    /// The buffer that the pool makes of the raw handle `raw` at level `level`.
    pub open spec fn stamped<H, L>(self, level: L, raw: H) -> BufferView<H, C, L, R> {
        BufferView {
            raw,
            capability: self.capability,
            level,
            reset: self.reset,
            family: self.family,
            state: Lifecycle::Initial,
        }
    }

    /// The pool after `count` more buffers were allocated from it.
    pub open spec fn after_allocate(self, count: nat) -> Self {
        PoolView { outstanding: self.outstanding + count, ..self }
    }

    /// The pool after `count` of its buffers were freed.
    pub open spec fn after_free(self, count: nat) -> Self
        recommends
            count <= self.outstanding,
    {
        PoolView { outstanding: (self.outstanding - count) as nat, ..self }
    }

    /// The pool may be destroyed: none of its buffers is left.
    pub open spec fn disposable(self) -> bool {
        self.outstanding == 0
    }

    /// The same pool under another capability.
    pub open spec fn with_capability<U>(self, capability: U) -> PoolView<P, U, R> {
        PoolView {
            raw: self.raw,
            capability,
            reset: self.reset,
            family: self.family,
            outstanding: self.outstanding,
        }
    }

    /// The same pool with its capability widened to a value.
    pub open spec fn widened(self) -> PoolView<P, QueueType, R> where C: Capability {
        self.with_capability(self.capability.queue_type())
    }
}

/// A command pool with capability `C` and reset policy `R`, around a raw pool handle `P`.
#[derive(Debug)]
pub struct CommandPool<P, C = QueueType, R = NoIndividualReset> {
    raw: P,
    capability: C,
    reset: R,
    family: QueueFamilyId,
    relevant: Relevant,
    live: usize,
}

impl<P, C, R> View for CommandPool<P, C, R> {
    type V = PoolView<P, C, R>;

    closed spec fn view(&self) -> PoolView<P, C, R> {
        PoolView {
            raw: self.raw,
            capability: self.capability,
            reset: self.reset,
            family: self.family,
            outstanding: self.live as nat,
        }
    }
}

impl<P, C, R> CommandPool<P, C, R> {
    /// Wraps a raw pool from which no buffer has been allocated yet.
    ///
    /// The caller answers for what cannot be seen from here: that `raw` is a valid pool
    /// handle, created for the queue family `family`; that the family has at least the
    /// capability `capability`; and that the raw pool was created with individual reset
    /// exactly where `reset` says so.
    pub fn from_raw(raw: P, capability: C, reset: R, family: QueueFamilyId) -> (pool: Self)
        ensures
            pool@ == (PoolView { raw, capability, reset, family, outstanding: 0 }),
    {
        CommandPool { raw, capability, reset, family, relevant: relevant_marker(), live: 0 }
    }

    /// Makes buffers of the raw handles `raws`, which the backend allocated from this pool
    /// at level `level`. Each buffer is `Initial` and has the capability, reset policy and
    /// family of the pool; they come in the order of their handles.
    pub fn allocate_buffers<H, L: Level>(&mut self, level: L, raws: Vec<H>) -> (buffers: Vec<
        CommandBuffer<H, C, InitialState, L, R>,
    >) where C: Capability, R: Reset
        requires
            old(self)@.outstanding + raws@.len() <= usize::MAX,
        ensures
            final(self)@ == old(self)@.after_allocate(raws@.len()),
            buffers@.len() == raws@.len(),
            forall|i: int|
                0 <= i < raws@.len() ==> (#[trigger] buffers@[i])@ == old(self)@.stamped(
                    level,
                    raws@[i],
                ),
    {
        let count: usize = raws.len();
        let mut buffers: Vec<CommandBuffer<H, C, InitialState, L, R>> = Vec::new();
        for raw in handles: raws
            invariant
                buffers@.len() == handles.index(),
                handles.seq() == raws@,
                *self == *old(self),
                forall|i: int|
                    0 <= i < buffers@.len() ==> (#[trigger] buffers@[i])@ == old(self)@.stamped(
                        level,
                        raws@[i],
                    ),
        {
            let buffer = CommandBuffer::from_raw(
                raw,
                self.capability,
                InitialState,
                level,
                self.reset,
                self.family,
            );
            buffers.push(buffer);
        }
        self.live = self.live + count;
        buffers
    }

    /// Takes back buffers of this pool and gives their raw handles, in the same order, for
    /// the backend to free in one call. Only a buffer in a droppable state can be passed.
    ///
    /// Whether the buffers came from this pool is not checked: the caller answers for it.
    pub fn free_buffers<H, S: Resettable, L: Level>(
        &mut self,
        buffers: Vec<CommandBuffer<H, C, S, L, R>>,
    ) -> (raws: Vec<H>)
        requires
            buffers@.len() <= old(self)@.outstanding,
        ensures
            final(self)@ == old(self)@.after_free(buffers@.len()),
            raws@.len() == buffers@.len(),
            forall|i: int| 0 <= i < buffers@.len() ==> #[trigger] raws@[i] == buffers@[i]@.raw,
            forall|i: int| 0 <= i < buffers@.len() ==> (#[trigger] buffers@[i])@.state.droppable(),
    {
        let count: usize = buffers.len();
        let mut raws: Vec<H> = Vec::new();
        for buffer in given: buffers
            invariant
                raws@.len() == given.index(),
                given.seq() == buffers@,
                forall|i: int| 0 <= i < raws@.len() ==> #[trigger] raws@[i] == buffers@[i]@.raw,
                forall|i: int| 0 <= i < raws@.len() ==> (#[trigger] buffers@[i])@.state.droppable(),
        {
            proof {
                buffer.state_is_droppable();
            }
            raws.push(buffer.into_raw());
        }
        self.live = self.live - count;
        raws
    }

    /// Starts a reset of the whole pool: gives the raw pool for the backend to reset.
    /// A reset frees nothing, so the count of buffers stays.
    ///
    /// The backend then holds every buffer of this pool as `Initial`. The caller answers
    /// for passing each buffer that it still holds through `mark_reset`.
    pub fn reset(&mut self) -> (raw: &mut P)
        ensures
            *raw == old(self)@.raw,
            final(self)@ == (PoolView { raw: *final(raw), ..old(self)@ }),
    {
        &mut self.raw
    }

    /// Ends the pool and gives the raw pool for the backend to destroy. Every buffer that
    /// was allocated from the pool must have been freed.
    pub fn dispose(self) -> (raw: P)
        requires
            self@.disposable(),
        ensures
            raw == self@.raw,
    {
        self.relevant.dispose();
        self.raw
    }

    /// Ends the pool if none of its buffers is left, and gives the pool back unchanged
    /// otherwise.
    pub fn try_dispose(self) -> (raw: Result<P, Self>)
        ensures
            match raw {
                Ok(handle) => self@.disposable() && handle == self@.raw,
                Err(pool) => !self@.disposable() && pool@ == self@,
            },
    {
        if self.live == 0 {
            Ok(self.dispose())
        } else {
            Err(self)
        }
    }

    /// Widens the capability to a value. Nothing else changes.
    pub fn with_value_capability(self) -> (widened: CommandPool<P, QueueType, R>) where
        C: Capability,

        ensures
            widened@ == self@.widened(),
    {
        CommandPool {
            raw: self.raw,
            capability: self.capability.into_queue_type(),
            reset: self.reset,
            family: self.family,
            relevant: self.relevant,
            live: self.live,
        }
    }

    /// Tries to narrow the capability to `U`. Where the capability does not cover `U`, the
    /// pool comes back as it was.
    pub fn with_capability<U: Capability>(self) -> (narrowed: Result<CommandPool<P, U, R>, Self>) where
        C: Supports<U>,

        ensures
            match U::narrowed_from(self@.capability.queue_type()) {
                Some(capability) => narrowed matches Ok(pool) && pool@ == self@.with_capability(
                    capability,
                ),
                None => narrowed matches Err(pool) && pool@ == self@,
            },
    {
        match self.capability.supports() {
            Some(capability) => Ok(
                CommandPool {
                    raw: self.raw,
                    capability,
                    reset: self.reset,
                    family: self.family,
                    relevant: self.relevant,
                    live: self.live,
                },
            ),
            None => Err(self),
        }
    }

    /// The raw handle.
    pub fn raw(&self) -> (raw: &P)
        ensures
            *raw == self@.raw,
    {
        &self.raw
    }

    /// The raw handle, for the backend to allocate from and to free to. Whatever is done
    /// to the handle, the tags and the count stay.
    pub fn raw_mut(&mut self) -> (raw: &mut P)
        ensures
            *raw == old(self)@.raw,
            final(self)@ == (PoolView { raw: *final(raw), ..old(self)@ }),
    {
        &mut self.raw
    }

    /// The capability of the pool.
    pub fn capability(&self) -> (capability: C) where C: Copy
        ensures
            capability == self@.capability,
    {
        self.capability
    }

    /// The reset policy of the pool.
    pub fn reset_policy(&self) -> (reset: R) where R: Copy
        ensures
            reset == self@.reset,
    {
        self.reset
    }

    /// The queue family of the pool.
    pub fn family(&self) -> (family: QueueFamilyId)
        ensures
            family == self@.family,
    {
        self.family
    }

    /// The number of buffers allocated from the pool and not yet freed.
    pub fn outstanding(&self) -> (count: usize)
        ensures
            count == self@.outstanding,
    {
        self.live
    }

    /// Sets the number of outstanding buffers, for a wrapper that holds the raw handles
    /// itself.
    pub(crate) fn set_outstanding(&mut self, count: usize)
        ensures
            final(self)@ == (PoolView { outstanding: count as nat, ..old(self)@ }),
    {
        self.live = count;
    }
}

/// Freeing as many buffers as were allocated leaves the pool as it was.
pub proof fn lemma_free_undoes_allocate<P, C, R>(pool: PoolView<P, C, R>, count: nat)
    ensures
        pool.after_allocate(count).after_free(count) == pool,
{
}

/// Once every outstanding buffer is freed the pool may be destroyed, and not before.
pub proof fn lemma_free_all_then_dispose<P, C, R>(pool: PoolView<P, C, R>, count: nat)
    requires
        count <= pool.outstanding,
    ensures
        pool.after_free(count).disposable() <==> count == pool.outstanding,
{
}

/// Widening a pool twice is widening it once.
pub proof fn lemma_widen_idempotent<P, C: Capability, R>(pool: PoolView<P, C, R>)
    ensures
        pool.widened().widened() == pool.widened(),
{
}

/// A pool that is narrowed and then widened has a capability that its first one covers,
/// and is otherwise as before.
pub proof fn lemma_narrow_then_widen<P, C: Capability, U: Capability, R>(
    pool: PoolView<P, C, R>,
    narrowed: U,
)
    requires
        U::narrowed_from(pool.capability.queue_type()) == Some(narrowed),
    ensures
        pool.with_capability(narrowed).widened() == pool.with_capability(narrowed.queue_type()),
        pool.capability.queue_type().covers(narrowed.queue_type()),
{
    U::narrowing_is_sound(pool.capability.queue_type());
}

/// A pool with a capability value that is narrowed and then widened is the pool that it
/// was, unless the narrowed capability takes fewer kinds of command than the value.
pub proof fn lemma_narrow_widen_round_trip<P, U: Capability, R>(
    pool: PoolView<P, QueueType, R>,
    narrowed: U,
)
    requires
        U::narrowed_from(pool.capability) == Some(narrowed),
        narrowed.queue_type().covers(pool.capability),
    ensures
        pool.with_capability(narrowed).widened() == pool,
{
    U::narrowing_is_sound(pool.capability);
}

/// A pool whose capability is within that of its queue family stays within it: the
/// buffers that it makes, the pool widened and the pool narrowed all have a capability
/// that the family covers.
pub proof fn lemma_capability_stays_within_family<P, C: Capability, U: Capability, R, H, L>(
    pool: PoolView<P, C, R>,
    family: QueueType,
    narrowed: U,
    level: L,
    raw: H,
)
    requires
        family.covers(pool.capability.queue_type()),
        U::narrowed_from(pool.capability.queue_type()) == Some(narrowed),
    ensures
        family.covers(pool.stamped(level, raw).capability.queue_type()),
        family.covers(pool.widened().capability.queue_type()),
        family.covers(pool.with_capability(narrowed).capability.queue_type()),
{
    U::narrowing_is_sound(pool.capability.queue_type());
}

} // verus!
