//! Queue capabilities: the kinds of command that a queue family, a pool or a buffer takes.
//!
//! A capability is either a value of [`QueueType`], known at run time, or one of the marker
//! types [`Transfer`], [`Compute`], [`Graphics`] and [`General`], known at compile time.
//! Widening turns either into a `QueueType`; narrowing tries to go the other way and fails
//! where the wider capability does not take every command of the narrower one.

use vstd::prelude::*;

verus! {

/// The capability of a queue family as a value.
#[derive(Clone, Copy, Debug, PartialEq, Eq, Hash, Structural)]
pub enum QueueType {
    /// Graphics, compute and transfer commands.
    General,
    /// Graphics and transfer commands.
    Graphics,
    /// Compute and transfer commands.
    Compute,
    /// Transfer commands only.
    Transfer,
}

impl QueueType {
    /// Graphics commands are among those taken.
    pub open spec fn has_graphics(self) -> bool {
        self is General || self is Graphics
    }

    /// Compute commands are among those taken.
    pub open spec fn has_compute(self) -> bool {
        self is General || self is Compute
    }

    /// Transfer commands are among those taken: every queue takes them.
    pub open spec fn has_transfer(self) -> bool {
        true
    }

    /// `self` takes every kind of command that `other` takes.
    pub open spec fn covers(self, other: QueueType) -> bool {
        &&& other.has_graphics() ==> self.has_graphics()
        &&& other.has_compute() ==> self.has_compute()
        &&& other.has_transfer() ==> self.has_transfer()
    }

    /// Whether graphics commands are taken.
    pub fn supports_graphics(&self) -> (b: bool)
        ensures
            b == self.has_graphics(),
    {
        match self {
            QueueType::General | QueueType::Graphics => true,
            QueueType::Compute | QueueType::Transfer => false,
        }
    }

    /// Whether compute commands are taken.
    pub fn supports_compute(&self) -> (b: bool)
        ensures
            b == self.has_compute(),
    {
        match self {
            QueueType::General | QueueType::Compute => true,
            QueueType::Graphics | QueueType::Transfer => false,
        }
    }

    /// Whether transfer commands are taken.
    pub fn supports_transfer(&self) -> (b: bool)
        ensures
            b == self.has_transfer(),
    {
        true
    }

    /// Whether `self` takes every kind of command that `other` takes.
    pub fn supports_all_of(&self, other: QueueType) -> (b: bool)
        ensures
            b == self.covers(other),
    {
        (!other.supports_graphics() || self.supports_graphics()) && (!other.supports_compute()
            || self.supports_compute())
    }
}

/// A capability, as a value or as a marker type.
pub trait Capability: Copy {
    /// The capability as a value.
    spec fn queue_type(&self) -> QueueType;

    /// What narrowing from the value `queue_type` to this type gives.
    spec fn narrowed_from(queue_type: QueueType) -> Option<Self>;

    /// Narrows a capability value to this type.
    fn from_queue_type(queue_type: QueueType) -> (narrowed: Option<Self>)
        ensures
            narrowed == Self::narrowed_from(queue_type),
    ;

    /// Widens this capability to a value.
    fn into_queue_type(self) -> (queue_type: QueueType)
        ensures
            queue_type == self.queue_type(),
    ;

    /// Narrowing gives only a capability that the wider one covers.
    proof fn narrowing_is_sound(queue_type: QueueType)
        ensures
            Self::narrowed_from(queue_type) matches Some(narrowed) ==> queue_type.covers(
                narrowed.queue_type(),
            ),
    ;

    /// Narrowing succeeds wherever some capability of this type is covered.
    proof fn narrowing_is_complete(queue_type: QueueType, wanted: Self)
        ensures
            queue_type.covers(wanted.queue_type()) ==> Self::narrowed_from(queue_type) is Some,
    ;
}

/// A capability that may be narrowed to `U`.
pub trait Supports<U: Capability>: Capability {
    /// Tries to narrow this capability to `U`.
    fn supports(&self) -> (narrowed: Option<U>)
        ensures
            narrowed == U::narrowed_from(self.queue_type()),
    {
        U::from_queue_type(self.into_queue_type())
    }
}

impl Capability for QueueType {
    open spec fn queue_type(&self) -> QueueType {
        *self
    }

    open spec fn narrowed_from(queue_type: QueueType) -> Option<Self> {
        Some(queue_type)
    }

    fn from_queue_type(queue_type: QueueType) -> (narrowed: Option<Self>) {
        Some(queue_type)
    }

    fn into_queue_type(self) -> (queue_type: QueueType) {
        self
    }

    proof fn narrowing_is_sound(queue_type: QueueType) {
    }

    proof fn narrowing_is_complete(queue_type: QueueType, wanted: Self) {
    }
}

/// Marker: transfer commands only.
#[derive(Clone, Copy, Debug, PartialEq, Eq, Hash, Structural)]
pub struct Transfer;

/// Marker: compute and transfer commands.
#[derive(Clone, Copy, Debug, PartialEq, Eq, Hash, Structural)]
pub struct Compute;

/// Marker: graphics and transfer commands.
#[derive(Clone, Copy, Debug, PartialEq, Eq, Hash, Structural)]
pub struct Graphics;

/// Marker: graphics, compute and transfer commands.
#[derive(Clone, Copy, Debug, PartialEq, Eq, Hash, Structural)]
pub struct General;

impl Capability for Transfer {
    open spec fn queue_type(&self) -> QueueType {
        QueueType::Transfer
    }

    open spec fn narrowed_from(queue_type: QueueType) -> Option<Self> {
        if queue_type.covers(QueueType::Transfer) {
            Some(Transfer)
        } else {
            None
        }
    }

    fn from_queue_type(queue_type: QueueType) -> (narrowed: Option<Self>) {
        if queue_type.supports_all_of(QueueType::Transfer) {
            Some(Transfer)
        } else {
            None
        }
    }

    fn into_queue_type(self) -> (queue_type: QueueType) {
        QueueType::Transfer
    }

    proof fn narrowing_is_sound(queue_type: QueueType) {
    }

    proof fn narrowing_is_complete(queue_type: QueueType, wanted: Self) {
    }
}

impl Capability for Compute {
    open spec fn queue_type(&self) -> QueueType {
        QueueType::Compute
    }

    open spec fn narrowed_from(queue_type: QueueType) -> Option<Self> {
        if queue_type.covers(QueueType::Compute) {
            Some(Compute)
        } else {
            None
        }
    }

    fn from_queue_type(queue_type: QueueType) -> (narrowed: Option<Self>) {
        if queue_type.supports_all_of(QueueType::Compute) {
            Some(Compute)
        } else {
            None
        }
    }

    fn into_queue_type(self) -> (queue_type: QueueType) {
        QueueType::Compute
    }

    proof fn narrowing_is_sound(queue_type: QueueType) {
    }

    proof fn narrowing_is_complete(queue_type: QueueType, wanted: Self) {
    }
}

impl Capability for Graphics {
    open spec fn queue_type(&self) -> QueueType {
        QueueType::Graphics
    }

    open spec fn narrowed_from(queue_type: QueueType) -> Option<Self> {
        if queue_type.covers(QueueType::Graphics) {
            Some(Graphics)
        } else {
            None
        }
    }

    fn from_queue_type(queue_type: QueueType) -> (narrowed: Option<Self>) {
        if queue_type.supports_all_of(QueueType::Graphics) {
            Some(Graphics)
        } else {
            None
        }
    }

    fn into_queue_type(self) -> (queue_type: QueueType) {
        QueueType::Graphics
    }

    proof fn narrowing_is_sound(queue_type: QueueType) {
    }

    proof fn narrowing_is_complete(queue_type: QueueType, wanted: Self) {
    }
}

impl Capability for General {
    open spec fn queue_type(&self) -> QueueType {
        QueueType::General
    }

    open spec fn narrowed_from(queue_type: QueueType) -> Option<Self> {
        if queue_type.covers(QueueType::General) {
            Some(General)
        } else {
            None
        }
    }

    fn from_queue_type(queue_type: QueueType) -> (narrowed: Option<Self>) {
        if queue_type.supports_all_of(QueueType::General) {
            Some(General)
        } else {
            None
        }
    }

    fn into_queue_type(self) -> (queue_type: QueueType) {
        QueueType::General
    }

    proof fn narrowing_is_sound(queue_type: QueueType) {
    }

    proof fn narrowing_is_complete(queue_type: QueueType, wanted: Self) {
    }
}

impl Supports<Transfer> for QueueType {}

impl Supports<Compute> for QueueType {}

impl Supports<Graphics> for QueueType {}

impl Supports<General> for QueueType {}

impl Supports<Transfer> for Transfer {}

impl Supports<Transfer> for Compute {}

impl Supports<Compute> for Compute {}

impl Supports<Transfer> for Graphics {}

impl Supports<Graphics> for Graphics {}

impl Supports<Transfer> for General {}

impl Supports<Compute> for General {}

impl Supports<Graphics> for General {}

impl Supports<General> for General {}

/// Every capability covers itself.
pub proof fn lemma_covers_reflexive(a: QueueType)
    ensures
        a.covers(a),
{
}

/// What covers a capability covers all that the capability covers.
pub proof fn lemma_covers_transitive(a: QueueType, b: QueueType, c: QueueType)
    requires
        a.covers(b),
        b.covers(c),
    ensures
        a.covers(c),
{
}

/// Two capabilities that cover each other are the same.
pub proof fn lemma_covers_antisymmetric(a: QueueType, b: QueueType)
    requires
        a.covers(b),
        b.covers(a),
    ensures
        a == b,
{
}

/// `General` covers every capability, and every capability covers `Transfer`.
pub proof fn lemma_covers_bounds(a: QueueType)
    ensures
        QueueType::General.covers(a),
        a.covers(QueueType::Transfer),
{
}

/// The whole relation: a capability covers itself and `Transfer`, `General` covers all,
/// and nothing else holds. In particular neither of `Graphics` and `Compute` covers the
/// other.
pub proof fn lemma_covers_table(a: QueueType, b: QueueType)
    ensures
        a.covers(b) <==> (a == b || a is General || b is Transfer),
{
}

/// Widening a value changes nothing, so widening twice is widening once.
pub proof fn lemma_widen_idempotent<C: Capability>(capability: C)
    ensures
        capability.queue_type().queue_type() == capability.queue_type(),
{
}

/// Narrowing and then widening gives a capability that the first one covers.
pub proof fn lemma_narrow_then_widen<C: Capability, U: Capability>(capability: C)
    ensures
        U::narrowed_from(capability.queue_type()) matches Some(narrowed)
            ==> capability.queue_type().covers(narrowed.queue_type()),
{
    U::narrowing_is_sound(capability.queue_type());
}

/// Narrowing and then widening gives the first capability back, unless the narrowed one
/// takes fewer kinds of command than the first.
pub proof fn lemma_narrow_round_trip<C: Capability, U: Capability>(capability: C, narrowed: U)
    requires
        U::narrowed_from(capability.queue_type()) == Some(narrowed),
        narrowed.queue_type().covers(capability.queue_type()),
    ensures
        narrowed.queue_type() == capability.queue_type(),
{
    U::narrowing_is_sound(capability.queue_type());
}

/// A marker narrows to each marker that it may be narrowed to by type: between markers
/// narrowing never fails.
pub proof fn lemma_markers_narrow()
    ensures
        Transfer::narrowed_from(Transfer.queue_type()) == Some(Transfer),
        Transfer::narrowed_from(Compute.queue_type()) == Some(Transfer),
        Compute::narrowed_from(Compute.queue_type()) == Some(Compute),
        Transfer::narrowed_from(Graphics.queue_type()) == Some(Transfer),
        Graphics::narrowed_from(Graphics.queue_type()) == Some(Graphics),
        Transfer::narrowed_from(General.queue_type()) == Some(Transfer),
        Compute::narrowed_from(General.queue_type()) == Some(Compute),
        Graphics::narrowed_from(General.queue_type()) == Some(Graphics),
        General::narrowed_from(General.queue_type()) == Some(General),
{
}

} // verus!
