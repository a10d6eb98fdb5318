use vstd::prelude::*;

use crate::flow::Exit;
use crate::flow::Flow;
use crate::imp::MapErr;
use crate::imp::Marker;
use crate::slot::Slot;

verus! {

/// What a boundary hands back: either the protocol's own outcome,
/// materialized as a conventional tagged value, or a foreign signal that the
/// boundary refuses to catch and re-raises unchanged.
pub enum Resolution<T, E> {
    /// The outcome belonged to this protocol: the success value, or the
    /// failure payload read back out of the slot.
    Settled(Result<T, E>),
    /// The signal was not tagged by this protocol; it escapes the boundary
    /// with its payload untouched.
    Rethrown(u64),
}

/// The resolution a catching boundary makes of a given flow: a normal return
/// settles as success, a protocol signal settles as the payload in the slot,
/// and a foreign signal is rethrown unchanged.
pub open spec fn resolution_of<T, E>(flow: Flow<T, E>) -> Resolution<T, E> {
    match flow.exit() {
        Exit::Success(v) => Resolution::Settled(Ok(v)),
        Exit::Raised => Resolution::Settled(Err(flow.payload()->0)),
        Exit::Foreign(p) => Resolution::Rethrown(p),
    }
}

/// Properties of a generalized result type.
///
/// This unifies [`Result`] — the *direct* shape, which stores the tag and the
/// value eagerly — and the *deferred* shapes ([`crate::imp::IexResult`],
/// [`MapErr`]), which store a suspended computation that signals failure
/// through the slot. Callers are polymorphic over the shape: producing and
/// propagating ([`Outcome::get_value_or_panic`]) is separated from
/// materializing ([`Outcome::resolve`], [`Outcome::into_result`]), so an
/// unbroken chain of forwarded calls never builds a tagged value and only the
/// outermost boundary pays that cost.
#[must_use]
pub trait Outcome: crate::sealed::Sealed + Sized {
    /// The type of the success value.
    type Output;

    /// The type of the error value.
    type Error;

    /// May forcing `self` from a cleared slot produce `flow`? A deferred
    /// computation need not be deterministic, so this is a relation; every
    /// force produces a flow it admits.
    spec fn forces_to(self, flow: Flow<Self::Output, Self::Error>) -> bool;

    /// Is `self` ready to be forced: its computation accepts the capability
    /// token and a cleared slot, and any conversion it defers accepts every
    /// payload that can reach it.
    spec fn forceable(self) -> bool;

    /// May resolving `self` at a catching boundary produce `r`?
    spec fn resolves_to(self, r: Resolution<Self::Output, Self::Error>) -> bool;

    /// Produce the success value, or perform the control-transfer signal that
    /// carries the failure payload through the slot.
    ///
    /// The token attests that caller and computation agree on the slot's
    /// payload type; the slot arrives cleared, per the single-propagation
    /// discipline.
    fn get_value_or_panic(self, marker: Marker<Self::Error>, slot: Slot<Self::Error>) -> (flow:
        Flow<Self::Output, Self::Error>)
        requires
            self.forceable(),
            slot@ is None,
        ensures
            self.forces_to(flow),
    ;

    /// Apply a function to the failure value, leaving success untouched.
    ///
    /// The conversion is deferred: the returned outcome suspends `self`
    /// together with `map`, and only when it is forced does a conversion
    /// guard apply `map` — exactly once — to the payload in the slot. However
    /// many such wrappings are composed, each conversion runs once, at
    /// propagation time.
    fn map_err<F, Conv: FnOnce(Self::Error) -> F>(self, map: Conv) -> (mapped: MapErr<Self, Conv>)
        ensures
            mapped.inner() == self,
            mapped.conversion() == map,
    ;

    /// The boundary operation: establish a fresh catching boundary, force
    /// `self`, and materialize what happens. A signal tagged by this protocol
    /// is caught and its payload read back out of the slot; any other signal
    /// is rethrown unchanged, never coerced into an error value.
    fn resolve(self) -> (r: Resolution<Self::Output, Self::Error>)
        requires
            self.forceable(),
        ensures
            self.resolves_to(r),
    ;

    /// Cast to a plain [`Result`], for callers outside the protocol chain.
    ///
    /// A [`Result`] cannot re-raise a foreign signal, so this demands an
    /// outcome that cannot resolve to one; [`Outcome::resolve`] is the
    /// general boundary.
    fn into_result(self) -> (r: Result<Self::Output, Self::Error>)
        requires
            self.forceable(),
            forall|p: u64| !(#[trigger] self.resolves_to(Resolution::Rethrown(p))),
        ensures
            self.resolves_to(Resolution::Settled(r)),
    ;
}

/// Holds when no resolution of `outcome` can be a foreign signal — what
/// [`Outcome::into_result`] demands, since a plain [`Result`] has no way to
/// re-raise one.
pub open spec fn never_foreign<R: Outcome>(outcome: R) -> bool {
    forall|p: u64| !(#[trigger] outcome.resolves_to(Resolution::Rethrown(p)))
}

impl<T, E> crate::sealed::Sealed for Result<T, E> {

}

impl<T, E> Outcome for Result<T, E> {
    type Output = T;

    type Error = E;

    /// The direct shape is eager and deterministic: it forces to exactly the
    /// flow its tag prescribes.
    open spec fn forces_to(self, flow: Flow<T, E>) -> bool {
        match self {
            Ok(v) => flow.exit() == Exit::Success(v) && flow.payload() is None,
            Err(e) => flow.exit() is Raised && flow.payload() == Some(e),
        }
    }

    open spec fn forceable(self) -> bool {
        true
    }

    open spec fn resolves_to(self, r: Resolution<T, E>) -> bool {
        r == Resolution::Settled(self)
    }

    /// On success, return the value; on failure, write the payload to the
    /// slot and raise the protocol's signal — write first, signal second.
    fn get_value_or_panic(self, _marker: Marker<E>, slot: Slot<E>) -> (flow: Flow<T, E>) {
        match self {
            Ok(v) => Flow::success(v, slot),
            Err(e) => Flow::raise(e, slot),
        }
    }

    fn map_err<F, Conv: FnOnce(E) -> F>(self, map: Conv) -> (mapped: MapErr<Self, Conv>) {
        MapErr::new(self, map)
    }

    /// A tagged value is already materialized; no boundary work to do.
    fn resolve(self) -> (r: Resolution<T, E>) {
        Resolution::Settled(self)
    }

    fn into_result(self) -> (r: Result<T, E>) {
        self
    }
}

} // verus!
