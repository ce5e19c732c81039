//! The life of a command buffer.
//!
//! A buffer starts out `Initial`, is recorded (`Recording`), then ready to be submitted
//! (`Executable`), then in flight (`Pending`); when the queue is done with it, it is ready
//! again or spent (`Invalid`). A reset takes it back to `Initial` from anywhere. Each state
//! is a marker type, so that a buffer offers only the steps that its state allows;
//! [`Lifecycle`] is the same state as a value, for contracts and for reports.

use vstd::prelude::*;

verus! {

/// The state of a buffer as a value.
#[derive(Clone, Copy, Debug, PartialEq, Eq, Hash, Structural)]
pub enum Lifecycle {
    /// Nothing recorded.
    Initial,
    /// Commands are being recorded.
    Recording,
    /// Recorded and ready to be submitted.
    Executable,
    /// Submitted; the queue may be reading it.
    Pending,
    /// Spent: of no use until it is reset.
    Invalid,
}

impl Lifecycle {
    /// The buffer may be freed or reset: it is not in the middle of recording.
    pub open spec fn droppable(self) -> bool {
        !(self is Recording)
    }

    /// Nothing is being recorded into the buffer and no queue may be reading it.
    pub open spec fn idle(self) -> bool {
        !(self is Recording) && !(self is Pending)
    }

    /// A buffer in state `self` can move to `next` by a step of its own, without a reset.
    pub open spec fn advances_to(self, next: Lifecycle) -> bool {
        match self {
            Lifecycle::Initial => next is Recording,
            Lifecycle::Recording => next is Executable,
            Lifecycle::Executable => next is Pending,
            Lifecycle::Pending => next is Executable || next is Invalid,
            Lifecycle::Invalid => false,
        }
    }

    /// A buffer in state `self` can move to `next`, by a step of its own or by a reset.
    pub open spec fn steps_to(self, next: Lifecycle) -> bool {
        self.advances_to(next) || next is Initial
    }

    /// Whether the buffer may be freed or reset.
    pub fn is_droppable(&self) -> (b: bool)
        ensures
            b == self.droppable(),
    {
        match self {
            Lifecycle::Recording => false,
            _ => true,
        }
    }

    /// Whether nothing is being recorded into the buffer and no queue may be reading it.
    pub fn is_idle(&self) -> (b: bool)
        ensures
            b == self.idle(),
    {
        match self {
            Lifecycle::Recording | Lifecycle::Pending => false,
            _ => true,
        }
    }

    /// Whether a buffer in this state can move to `next` without a reset.
    pub fn can_advance_to(&self, next: Lifecycle) -> (b: bool)
        ensures
            b == self.advances_to(next),
    {
        match (self, next) {
            (Lifecycle::Initial, Lifecycle::Recording) => true,
            (Lifecycle::Recording, Lifecycle::Executable) => true,
            (Lifecycle::Executable, Lifecycle::Pending) => true,
            (Lifecycle::Pending, Lifecycle::Executable) => true,
            (Lifecycle::Pending, Lifecycle::Invalid) => true,
            _ => false,
        }
    }
}

/// A state marker.
pub trait State {
    /// The state as a value.
    spec fn lifecycle(&self) -> Lifecycle;

    /// The state as a value.
    fn current(&self) -> (state: Lifecycle)
        ensures
            state == self.lifecycle(),
    ;
}

/// A state in which a buffer may be freed or reset.
pub trait Resettable: State {
    /// The state is droppable.
    proof fn resettable_is_droppable(&self)
        ensures
            self.lifecycle().droppable(),
    ;
}

/// A state in which a buffer can be given back to the pool that lent it.
pub trait Idle: Resettable {
    /// The state is idle.
    proof fn idle_is_settled(&self)
        ensures
            self.lifecycle().idle(),
    ;
}

/// Marker: nothing recorded.
#[derive(Clone, Copy, Debug, PartialEq, Eq, Hash, Structural)]
pub struct InitialState;

/// Marker: commands are being recorded.
#[derive(Clone, Copy, Debug, PartialEq, Eq, Hash, Structural)]
pub struct RecordingState;

/// Marker: recorded and ready to be submitted.
#[derive(Clone, Copy, Debug, PartialEq, Eq, Hash, Structural)]
pub struct ExecutableState;

/// Marker: submitted. `N` is the state that the buffer takes when the queue is done with
/// it: [`ExecutableState`] where it may be submitted again, [`InvalidState`] where it was
/// submitted for one use.
#[derive(Debug)]
pub struct PendingState<N>(pub N);

/// Marker: spent.
#[derive(Clone, Copy, Debug, PartialEq, Eq, Hash, Structural)]
pub struct InvalidState;

impl State for InitialState {
    open spec fn lifecycle(&self) -> Lifecycle {
        Lifecycle::Initial
    }

    fn current(&self) -> (state: Lifecycle) {
        Lifecycle::Initial
    }
}

impl State for RecordingState {
    open spec fn lifecycle(&self) -> Lifecycle {
        Lifecycle::Recording
    }

    fn current(&self) -> (state: Lifecycle) {
        Lifecycle::Recording
    }
}

impl State for ExecutableState {
    open spec fn lifecycle(&self) -> Lifecycle {
        Lifecycle::Executable
    }

    fn current(&self) -> (state: Lifecycle) {
        Lifecycle::Executable
    }
}

impl<N> State for PendingState<N> {
    open spec fn lifecycle(&self) -> Lifecycle {
        Lifecycle::Pending
    }

    fn current(&self) -> (state: Lifecycle) {
        Lifecycle::Pending
    }
}

impl State for InvalidState {
    open spec fn lifecycle(&self) -> Lifecycle {
        Lifecycle::Invalid
    }

    fn current(&self) -> (state: Lifecycle) {
        Lifecycle::Invalid
    }
}

impl Resettable for InitialState {
    proof fn resettable_is_droppable(&self) {
    }
}

impl Resettable for ExecutableState {
    proof fn resettable_is_droppable(&self) {
    }
}

impl<N> Resettable for PendingState<N> {
    proof fn resettable_is_droppable(&self) {
    }
}

impl Resettable for InvalidState {
    proof fn resettable_is_droppable(&self) {
    }
}

impl Idle for InitialState {
    proof fn idle_is_settled(&self) {
    }
}

impl Idle for ExecutableState {
    proof fn idle_is_settled(&self) {
    }
}

impl Idle for InvalidState {
    proof fn idle_is_settled(&self) {
    }
}

/// A spent buffer has no step of its own left: only a reset moves it, to `Initial`.
pub proof fn lemma_invalid_is_terminal(next: Lifecycle)
    ensures
        !Lifecycle::Invalid.advances_to(next),
        Lifecycle::Invalid.steps_to(next) <==> next is Initial,
{
}

/// Every state but `Invalid` has a step of its own, and every state can be reset.
pub proof fn lemma_steps_exist(state: Lifecycle)
    ensures
        !(state is Invalid) ==> exists|next: Lifecycle| state.advances_to(next),
        state.steps_to(Lifecycle::Initial),
{
    match state {
        Lifecycle::Initial => {
            assert(state.advances_to(Lifecycle::Recording));
        },
        Lifecycle::Recording => {
            assert(state.advances_to(Lifecycle::Executable));
        },
        Lifecycle::Executable => {
            assert(state.advances_to(Lifecycle::Pending));
        },
        Lifecycle::Pending => {
            assert(state.advances_to(Lifecycle::Invalid));
        },
        Lifecycle::Invalid => {},
    }
}

/// Recording comes only after `Initial`, and nothing but `Executable` comes after it: a
/// buffer is never submitted before its recording has ended.
pub proof fn lemma_recording_is_bracketed(before: Lifecycle, after: Lifecycle)
    ensures
        before.advances_to(Lifecycle::Recording) <==> before is Initial,
        Lifecycle::Recording.advances_to(after) <==> after is Executable,
        after.advances_to(Lifecycle::Pending) <==> after is Executable,
{
}

} // verus!
