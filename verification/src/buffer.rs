//! Command buffers, each tagged with its state.
//!
//! A [`CommandBuffer`] holds a raw buffer handle together with the capability, level, reset
//! policy and queue family that it was allocated with. These never change. Its state is a
//! type parameter: each step consumes the buffer and returns it in the next state, so a
//! step that the state does not allow cannot be written.

use crate::capability::{Capability, QueueType, Supports};
use crate::level::PrimaryLevel;
use crate::reset::{IndividualReset, NoIndividualReset};
use crate::state::{
    ExecutableState,
    Idle,
    InitialState,
    InvalidState,
    Lifecycle,
    PendingState,
    RecordingState,
    Resettable,
    State,
};
use gfx_hal::queue::QueueFamilyId;
use vstd::prelude::*;

verus! {

/// What a buffer is: its handle, its tags, and its state as a value.
pub ghost struct BufferView<H, C, L, R> {
    /// The raw handle.
    pub raw: H,
    /// The capability that the buffer was allocated with.
    pub capability: C,
    /// The level that the buffer was allocated at.
    pub level: L,
    /// The reset policy of the pool that the buffer came from.
    pub reset: R,
    /// The queue family of the pool that the buffer came from.
    pub family: QueueFamilyId,
    /// The state of the buffer.
    pub state: Lifecycle,
}

impl<H, C, L, R> BufferView<H, C, L, R> {
    /// The same buffer in another state.
    pub open spec fn moved_to(self, state: Lifecycle) -> Self {
        BufferView { state, ..self }
    }

    /// The same buffer under another capability.
    pub open spec fn with_capability<U>(self, capability: U) -> BufferView<H, U, L, R> {
        BufferView {
            raw: self.raw,
            capability,
            level: self.level,
            reset: self.reset,
            family: self.family,
            state: self.state,
        }
    }
}

/// A command buffer in state `S`.
#[derive(Debug)]
pub struct CommandBuffer<H, C, S, L = PrimaryLevel, R = NoIndividualReset> {
    raw: H,
    capability: C,
    state: S,
    level: L,
    reset: R,
    family: QueueFamilyId,
}

impl<H, C, S: State, L, R> View for CommandBuffer<H, C, S, L, R> {
    type V = BufferView<H, C, L, R>;

    closed spec fn view(&self) -> BufferView<H, C, L, R> {
        BufferView {
            raw: self.raw,
            capability: self.capability,
            level: self.level,
            reset: self.reset,
            family: self.family,
            state: self.state.lifecycle(),
        }
    }
}

impl<H, C, S: State, L, R> CommandBuffer<H, C, S, L, R> {
    /// Wraps a raw buffer handle.
    ///
    /// The caller answers for what cannot be seen from here: that the handle is valid, that
    /// the backend holds it in state `state`, and that the tags are those of the pool that
    /// it was allocated from.
    pub fn from_raw(raw: H, capability: C, state: S, level: L, reset: R, family: QueueFamilyId) -> (buffer: Self)
        ensures
            buffer@ == (BufferView {
                raw,
                capability,
                level,
                reset,
                family,
                state: state.lifecycle(),
            }),
    {
        CommandBuffer { raw, capability, state, level, reset, family }
    }

    /// Gives up the raw handle.
    pub fn into_raw(self) -> (raw: H)
        ensures
            raw == self@.raw,
    {
        self.raw
    }

    /// The raw handle.
    pub fn raw(&self) -> (raw: &H)
        ensures
            *raw == self@.raw,
    {
        &self.raw
    }

    /// The raw handle, for the backend to write to. Whatever is done to the handle, the
    /// tags and the state stay.
    pub fn raw_mut(&mut self) -> (raw: &mut H)
        ensures
            *raw == old(self)@.raw,
            final(self)@ == (BufferView { raw: *final(raw), ..old(self)@ }),
    {
        &mut self.raw
    }

    /// The capability that the buffer was allocated with.
    pub fn capability(&self) -> (capability: C) where C: Copy
        ensures
            capability == self@.capability,
    {
        self.capability
    }

    /// The level that the buffer was allocated at.
    pub fn level(&self) -> (level: L) where L: Copy
        ensures
            level == self@.level,
    {
        self.level
    }

    /// The reset policy of the pool that the buffer came from.
    pub fn reset_policy(&self) -> (reset: R) where R: Copy
        ensures
            reset == self@.reset,
    {
        self.reset
    }

    /// The queue family of the pool that the buffer came from.
    pub fn family(&self) -> (family: QueueFamilyId)
        ensures
            family == self@.family,
    {
        self.family
    }

    /// The state of the buffer, as a value.
    pub fn state(&self) -> (state: Lifecycle)
        ensures
            state == self@.state,
    {
        self.state.current()
    }

    /// Records that the pool of this buffer was reset: the buffer is `Initial` again,
    /// whatever state it was in.
    ///
    /// After a pool was reset, each buffer of it that is still held must pass through
    /// here before it is used, or its type no longer tells what the backend holds.
    pub fn mark_reset(self) -> (initial: CommandBuffer<H, C, InitialState, L, R>)
        ensures
            initial@ == self@.moved_to(Lifecycle::Initial),
            self@.state.steps_to(initial@.state),
    {
        CommandBuffer {
            raw: self.raw,
            capability: self.capability,
            state: InitialState,
            level: self.level,
            reset: self.reset,
            family: self.family,
        }
    }

    /// Widens the capability to a value. Nothing else changes.
    pub fn with_value_capability(self) -> (widened: CommandBuffer<H, QueueType, S, L, R>) where
        C: Capability,

        ensures
            widened@ == self@.with_capability(self@.capability.queue_type()),
    {
        CommandBuffer {
            raw: self.raw,
            capability: self.capability.into_queue_type(),
            state: self.state,
            level: self.level,
            reset: self.reset,
            family: self.family,
        }
    }

    /// Tries to narrow the capability to `U`. Where the capability does not cover `U`, the
    /// buffer comes back as it was.
    pub fn with_capability<U: Capability>(self) -> (narrowed: Result<
        CommandBuffer<H, U, S, L, R>,
        Self,
    >) where C: Supports<U>
        ensures
            match U::narrowed_from(self@.capability.queue_type()) {
                Some(capability) => narrowed matches Ok(buffer) && buffer@
                    == self@.with_capability(capability),
                None => narrowed matches Err(buffer) && buffer@ == self@,
            },
    {
        match self.capability.supports() {
            Some(capability) => Ok(
                CommandBuffer {
                    raw: self.raw,
                    capability,
                    state: self.state,
                    level: self.level,
                    reset: self.reset,
                    family: self.family,
                },
            ),
            None => Err(self),
        }
    }
}

impl<H, C, S: Resettable, L, R> CommandBuffer<H, C, S, L, R> {
    /// A buffer in a resettable state may be dropped.
    pub proof fn state_is_droppable(&self)
        ensures
            self@.state.droppable(),
    {
        self.state.resettable_is_droppable();
    }
}

impl<H, C, S: Idle, L, R> CommandBuffer<H, C, S, L, R> {
    /// A buffer in an idle state is idle.
    pub proof fn state_is_idle(&self)
        ensures
            self@.state.idle(),
    {
        self.state.idle_is_settled();
    }
}

impl<H, C, S: Resettable, L> CommandBuffer<H, C, S, L, IndividualReset> {
    /// Resets this buffer alone. Only a buffer from a pool with individual reset has this
    /// step, and only in a state in which it may be dropped.
    pub fn reset(self) -> (initial: CommandBuffer<H, C, InitialState, L, IndividualReset>)
        ensures
            initial@ == self@.moved_to(Lifecycle::Initial),
            self@.state.droppable(),
            self@.state.steps_to(initial@.state),
    {
        proof {
            self.state.resettable_is_droppable();
        }
        CommandBuffer {
            raw: self.raw,
            capability: self.capability,
            state: InitialState,
            level: self.level,
            reset: self.reset,
            family: self.family,
        }
    }
}

impl<H, C, L, R> CommandBuffer<H, C, InitialState, L, R> {
    /// Begins recording.
    pub fn begin(self) -> (recording: CommandBuffer<H, C, RecordingState, L, R>)
        ensures
            recording@ == self@.moved_to(Lifecycle::Recording),
            self@.state.advances_to(recording@.state),
    {
        CommandBuffer {
            raw: self.raw,
            capability: self.capability,
            state: RecordingState,
            level: self.level,
            reset: self.reset,
            family: self.family,
        }
    }
}

impl<H, C, L, R> CommandBuffer<H, C, RecordingState, L, R> {
    /// Ends recording: the buffer can now be submitted.
    pub fn finish(self) -> (executable: CommandBuffer<H, C, ExecutableState, L, R>)
        ensures
            executable@ == self@.moved_to(Lifecycle::Executable),
            self@.state.advances_to(executable@.state),
    {
        CommandBuffer {
            raw: self.raw,
            capability: self.capability,
            state: ExecutableState,
            level: self.level,
            reset: self.reset,
            family: self.family,
        }
    }
}

impl<H, C, L, R> CommandBuffer<H, C, ExecutableState, L, R> {
    /// Records a submission after which the buffer may be submitted again.
    pub fn submit(self) -> (pending: CommandBuffer<H, C, PendingState<ExecutableState>, L, R>)
        ensures
            pending@ == self@.moved_to(Lifecycle::Pending),
            self@.state.advances_to(pending@.state),
    {
        CommandBuffer {
            raw: self.raw,
            capability: self.capability,
            state: PendingState(ExecutableState),
            level: self.level,
            reset: self.reset,
            family: self.family,
        }
    }

    /// Records a submission for one use: once complete, the buffer is spent.
    pub fn submit_once(self) -> (pending: CommandBuffer<H, C, PendingState<InvalidState>, L, R>)
        ensures
            pending@ == self@.moved_to(Lifecycle::Pending),
            self@.state.advances_to(pending@.state),
    {
        CommandBuffer {
            raw: self.raw,
            capability: self.capability,
            state: PendingState(InvalidState),
            level: self.level,
            reset: self.reset,
            family: self.family,
        }
    }
}

impl<H, C, L, R> CommandBuffer<H, C, PendingState<ExecutableState>, L, R> {
    /// Records that the queue is done with the buffer: it can be submitted again.
    pub fn complete(self) -> (executable: CommandBuffer<H, C, ExecutableState, L, R>)
        ensures
            executable@ == self@.moved_to(Lifecycle::Executable),
            self@.state.advances_to(executable@.state),
    {
        CommandBuffer {
            raw: self.raw,
            capability: self.capability,
            state: ExecutableState,
            level: self.level,
            reset: self.reset,
            family: self.family,
        }
    }
}

impl<H, C, L, R> CommandBuffer<H, C, PendingState<InvalidState>, L, R> {
    /// Records that the queue is done with the buffer: it is spent.
    pub fn complete(self) -> (invalid: CommandBuffer<H, C, InvalidState, L, R>)
        ensures
            invalid@ == self@.moved_to(Lifecycle::Invalid),
            self@.state.advances_to(invalid@.state),
    {
        CommandBuffer {
            raw: self.raw,
            capability: self.capability,
            state: InvalidState,
            level: self.level,
            reset: self.reset,
            family: self.family,
        }
    }
}

} // verus!
