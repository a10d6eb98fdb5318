use vstd::prelude::*;

use crate::slot::Slot;

verus! {

/// How a forced computation leaves its frame.
///
/// A deferred computation either returns its success value or performs a
/// control-transfer signal instead of returning. The signal is either tagged
/// by this protocol — then the failure payload sits in the slot — or it is a
/// foreign abnormal exit that merely passes through; the protocol never
/// inspects a foreign payload, so it is carried as an opaque identifier.
pub enum Exit<T> {
    /// Normal return with the success value.
    Success(T),
    /// A control-transfer signal tagged by this protocol; the failure payload
    /// travels in the slot, not in the signal.
    Raised,
    /// An abnormal exit not tagged by this protocol, carrying its own opaque
    /// payload. It must reach the nearest boundary unchanged.
    Foreign(u64),
}

/// The complete effect of forcing a computation: the exit it took, together
/// with the slot it leaves behind.
///
/// The slot rides along because the frames of a propagation chain share one
/// cell: whoever catches the signal reads the payload out of it. The pairing
/// maintains the slot discipline as an invariant of the type: the cell holds
/// a payload exactly when a protocol signal is in flight.
pub struct Flow<T, E> {
    exit: Exit<T>,
    slot: Slot<E>,
}

impl<T, E> Flow<T, E> {
    /// A payload is in flight exactly while a protocol signal is.
    #[verifier::type_invariant]
    spec fn slot_discipline(self) -> bool {
        self.exit is Raised <==> self.slot@ is Some
    }

    /// The exit this flow took.
    pub closed spec fn exit(self) -> Exit<T> {
        self.exit
    }

    /// The payload sitting in the slot, if a protocol signal is in flight.
    pub closed spec fn payload(self) -> Option<E> {
        self.slot@
    }

    /// Return normally with a success value; the cell stays empty.
    pub fn success(value: T, slot: Slot<E>) -> (flow: Self)
        requires
            slot@ is None,
        ensures
            flow.exit() == Exit::Success(value),
            flow.payload() is None,
    {
        Flow { exit: Exit::Success(value), slot }
    }

    /// Fail: write the payload to the cell, then raise the protocol's signal.
    /// The write strictly precedes the signal that exposes it.
    ///
    /// The cell must be clear: the protocol keeps a single propagation in
    /// flight per thread at a time, so a failure never overwrites a pending
    /// unread payload.
    pub fn raise(error: E, slot: Slot<E>) -> (flow: Self)
        requires
            slot@ is None,
        ensures
            flow.exit() is Raised,
            flow.payload() == Some(error),
    {
        let mut slot = slot;
        slot.write(Some(error));
        Flow { exit: Exit::Raised, slot }
    }

    /// Continue a protocol signal whose payload already sits in the cell —
    /// the shape a converting frame produces after its guard has fired.
    pub fn from_raised(slot: Slot<E>) -> (flow: Self)
        requires
            slot@ is Some,
        ensures
            flow.exit() is Raised,
            flow.payload() == slot@,
    {
        Flow { exit: Exit::Raised, slot }
    }

    /// Pass a foreign abnormal exit through; the cell stays empty and the
    /// foreign payload is left untouched.
    pub fn foreign(payload: u64, slot: Slot<E>) -> (flow: Self)
        requires
            slot@ is None,
        ensures
            flow.exit() == Exit::Foreign::<T>(payload),
            flow.payload() is None,
    {
        Flow { exit: Exit::Foreign(payload), slot }
    }

    /// Take the flow apart: the exit, and the slot for whoever handles it.
    pub fn unpack(self) -> (parts: (Exit<T>, Slot<E>))
        ensures
            parts.0 == self.exit(),
            parts.1@ == self.payload(),
            self.exit() is Raised <==> self.payload() is Some,
    {
        proof {
            use_type_invariant(&self);
        }
        let Flow { exit, slot } = self;
        (exit, slot)
    }
}

} // verus!
