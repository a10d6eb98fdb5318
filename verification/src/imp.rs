use vstd::prelude::*;

use core::marker::PhantomData;

use crate::flow::Exit;
use crate::flow::Flow;
use crate::mapper::ExceptionMapper;
use crate::outcome::resolution_of;
use crate::outcome::Outcome;
use crate::outcome::Resolution;
use crate::slot::Slot;

verus! {

/// The capability token: a zero-footprint, copyable proof that its holder is
/// entitled to treat the next slot write/read pair as payload type `E`.
///
/// It carries no runtime value. A token is minted only where a propagation
/// event begins — at a catching boundary, or where a forwarding call forces
/// the outcome it converts — and a deferred computation receives one for its
/// own declared error type, which it can only pass on to outcomes of exactly
/// that type.
pub struct Marker<E> {
    _type: PhantomData<E>,
}

impl<E> Clone for Marker<E> {
    fn clone(&self) -> (other: Self)
        ensures
            other == *self,
    {
        *self
    }
}

impl<E> Copy for Marker<E> {

}

impl<E> Marker<E> {
    /// Mint a token. Internal: holders outside the library only ever receive
    /// one, so every token in circulation traces back to a boundary or a
    /// forwarding call.
    pub(crate) fn new() -> Marker<E> {
        Marker { _type: PhantomData }
    }
}

/// A `#[iex] Result<T, E>`: the deferred shape of an outcome.
///
/// It stores a suspended computation which, invoked with the capability
/// token and the cleared slot, returns the success value directly or signals
/// the failure indirectly through the slot.
pub struct IexResult<T, E, Func> {
    computation: Func,
    _types: PhantomData<(T, E)>,
}

impl<T, E, Func> IexResult<T, E, Func> {
    /// The suspended computation.
    pub closed spec fn computation(self) -> Func {
        self.computation
    }

    /// Suspend a computation as a deferred outcome.
    pub fn new(f: Func) -> (r: Self)
        ensures
            r.computation() == f,
    {
        IexResult { computation: f, _types: PhantomData }
    }
}

impl<T, E, Func> crate::sealed::Sealed for IexResult<T, E, Func> {

}

impl<T, E, Func: FnOnce(Marker<E>, Slot<E>) -> Flow<T, E>> Outcome for IexResult<T, E, Func> {
    type Output = T;

    type Error = E;

    /// The deferred shape forces to whatever its computation can return when
    /// handed the token and a cleared slot.
    open spec fn forces_to(self, flow: Flow<T, E>) -> bool {
        exists|marker: Marker<E>, slot: Slot<E>|
            slot@ is None && #[trigger] call_ensures(self.computation(), (marker, slot), flow)
    }

    open spec fn forceable(self) -> bool {
        forall|marker: Marker<E>, slot: Slot<E>|
            slot@ is None ==> #[trigger] call_requires(self.computation(), (marker, slot))
    }

    open spec fn resolves_to(self, r: Resolution<T, E>) -> bool {
        exists|flow: Flow<T, E>| #[trigger] self.forces_to(flow) && r == resolution_of(flow)
    }

    /// Forcing a deferred outcome simply invokes the suspended computation.
    fn get_value_or_panic(self, marker: Marker<E>, slot: Slot<E>) -> (flow: Flow<T, E>) {
        let ghost this = self;
        let ghost arg_marker = marker;
        let ghost arg_slot = slot;
        let IexResult { computation, _types } = self;
        proof {
            assert(computation == this.computation());
            assert(call_requires(this.computation(), (arg_marker, arg_slot)));
        }
        let flow = computation(marker, slot);
        proof {
            assert(arg_slot@ is None && call_ensures(
                this.computation(),
                (arg_marker, arg_slot),
                flow,
            ));
        }
        flow
    }

    fn map_err<F, Conv: FnOnce(E) -> F>(self, map: Conv) -> (mapped: MapErr<Self, Conv>) {
        MapErr::new(self, map)
    }

    /// The catching boundary: clear the slot, force, and catch. The payload
    /// of a protocol signal is read back out of the slot exactly once,
    /// emptying the cell; a foreign signal is rethrown, payload untouched.
    fn resolve(self) -> (r: Resolution<T, E>) {
        let mut slot: Slot<E> = Slot::new();
        slot.write(None);
        let flow = self.get_value_or_panic(Marker::new(), slot);
        let (exit, caught) = flow.unpack();
        let mut caught = caught;
        match exit {
            Exit::Success(value) => Resolution::Settled(Ok(value)),
            Exit::Raised => {
                let payload = caught.read();
                Resolution::Settled(Err(payload.unwrap()))
            },
            Exit::Foreign(p) => Resolution::Rethrown(p),
        }
    }

    fn into_result(self) -> (r: Result<T, E>) {
        let ghost this = self;
        let resolution = self.resolve();
        match resolution {
            Resolution::Settled(result) => result,
            Resolution::Rethrown(p) => {
                proof {
                    assert(this.resolves_to(Resolution::Rethrown(p)));
                    assert(false);
                }
                vstd::pervasive::unreached()
            },
        }
    }
}

/// How a converting frame relates the flow it forced (`mid`, at the inner
/// error type) to the flow it hands on (`out`, at its own): a success value
/// passes through untouched; a protocol signal keeps propagating with its
/// payload converted in place by `map`; a foreign signal passes through with
/// the cell left empty and the conversion unrun.
pub open spec fn converts<T, E, F, Conv: FnOnce(E) -> F>(
    mid: Flow<T, E>,
    map: Conv,
    out: Flow<T, F>,
) -> bool {
    &&& mid.exit() matches Exit::Success(v) ==> out.exit() == Exit::Success(v) && out.payload()
        is None
    &&& mid.exit() is Raised ==> {
        &&& out.exit() is Raised
        &&& mid.payload() is Some
        &&& out.payload() is Some
        &&& call_ensures(map, (mid.payload()->0,), out.payload()->0)
    }
    &&& mid.exit() matches Exit::Foreign(p) ==> out.exit() == Exit::Foreign::<T>(p)
        && out.payload() is None
}

/// A deferred outcome whose failure value still awaits a conversion: `inner`
/// suspended together with `map`. Built by [`Outcome::map_err`]; forcing it
/// drives the converting forwarding path, so the conversion runs exactly
/// once, at propagation time.
pub struct MapErr<R, Conv> {
    inner: R,
    map: Conv,
}

impl<R, Conv> MapErr<R, Conv> {
    /// The outcome whose failure value awaits conversion.
    pub closed spec fn inner(self) -> R {
        self.inner
    }

    /// The pending conversion.
    pub closed spec fn conversion(self) -> Conv {
        self.map
    }

    /// Suspend `inner` together with a conversion of its failure value.
    pub fn new(inner: R, map: Conv) -> (mapped: Self)
        ensures
            mapped.inner() == inner,
            mapped.conversion() == map,
    {
        MapErr { inner, map }
    }
}

impl<R, Conv> crate::sealed::Sealed for MapErr<R, Conv> {

}

impl<R: Outcome, F, Conv: FnOnce(R::Error) -> F> Outcome for MapErr<R, Conv> {
    type Output = R::Output;

    type Error = F;

    open spec fn forces_to(self, flow: Flow<R::Output, F>) -> bool {
        exists|mid: Flow<R::Output, R::Error>|
            #[trigger] self.inner().forces_to(mid) && converts(mid, self.conversion(), flow)
    }

    open spec fn forceable(self) -> bool {
        &&& self.inner().forceable()
        &&& forall|mid: Flow<R::Output, R::Error>|
            #[trigger] self.inner().forces_to(mid) && mid.payload() is Some ==> call_requires(
                self.conversion(),
                (mid.payload()->0,),
            )
    }

    open spec fn resolves_to(self, r: Resolution<R::Output, F>) -> bool {
        exists|flow: Flow<R::Output, F>| #[trigger] self.forces_to(flow) && r == resolution_of(
            flow,
        )
    }

    /// Forcing applies the converting forwarding path to the suspended pair.
    fn get_value_or_panic(self, marker: Marker<F>, slot: Slot<F>) -> (flow: Flow<R::Output, F>) {
        let MapErr { inner, map } = self;
        iex_forward_mapping(inner, marker, slot, map)
    }

    fn map_err<G, MapG: FnOnce(F) -> G>(self, map: MapG) -> (mapped: MapErr<Self, MapG>) {
        MapErr::new(self, map)
    }

    /// The catching boundary, identical in shape to the one a plain deferred
    /// outcome establishes: clear, force, catch; rethrow what is not ours.
    fn resolve(self) -> (r: Resolution<R::Output, F>) {
        let mut slot: Slot<F> = Slot::new();
        slot.write(None);
        let flow = self.get_value_or_panic(Marker::new(), slot);
        let (exit, caught) = flow.unpack();
        let mut caught = caught;
        match exit {
            Exit::Success(value) => Resolution::Settled(Ok(value)),
            Exit::Raised => {
                let payload = caught.read();
                Resolution::Settled(Err(payload.unwrap()))
            },
            Exit::Foreign(p) => Resolution::Rethrown(p),
        }
    }

    fn into_result(self) -> (r: Result<R::Output, F>) {
        let ghost this = self;
        let resolution = self.resolve();
        match resolution {
            Resolution::Settled(result) => result,
            Resolution::Rethrown(p) => {
                proof {
                    assert(this.resolves_to(Resolution::Rethrown(p)));
                    assert(false);
                }
                vstd::pervasive::unreached()
            },
        }
    }
}

/// The boundary-crossing operator, identity path: the outcome's error type
/// *is* the enclosing function's error type, so the token is passed straight
/// through and no conversion guard is built — forwarding compiles to exactly
/// the forced call. That no conversion can run here is structural: this path
/// does not take one.
///
/// Which of the two paths a call site uses is selected statically by the
/// types, so exactly one of {identity path taken, conversion guard built}
/// happens per forwarding call.
pub fn iex_forward<R: Outcome>(
    outcome: R,
    marker: Marker<R::Error>,
    slot: Slot<R::Error>,
) -> (flow: Flow<R::Output, R::Error>)
    requires
        outcome.forceable(),
        slot@ is None,
    ensures
        outcome.forces_to(flow),
{
    outcome.get_value_or_panic(marker, slot)
}

/// The boundary-crossing operator, converting path: arm a conversion guard,
/// force the outcome, and either disarm the guard (normal return) or let it
/// fire on the slot the signal left behind. The guard is built once and ends
/// exactly once; a foreign signal fires it against an empty cell, which runs
/// no conversion and forwards the signal unchanged.
pub fn iex_forward_mapping<R: Outcome, F, Conv: FnOnce(R::Error) -> F>(
    outcome: R,
    _marker: Marker<F>,
    slot: Slot<F>,
    map: Conv,
) -> (flow: Flow<R::Output, F>)
    requires
        outcome.forceable(),
        slot@ is None,
        forall|mid: Flow<R::Output, R::Error>|
            #[trigger] outcome.forces_to(mid) && mid.payload() is Some ==> call_requires(
                map,
                (mid.payload()->0,),
            ),
    ensures
        exists|mid: Flow<R::Output, R::Error>|
            #[trigger] outcome.forces_to(mid) && converts(mid, map, flow),
{
    let exception_mapper = ExceptionMapper::new(map);
    let inner_slot: Slot<R::Error> = slot.recast();
    let forced = outcome.get_value_or_panic(Marker::new(), inner_slot);
    let (exit, forced_slot) = forced.unpack();
    match exit {
        Exit::Success(value) => {
            exception_mapper.swallow();
            Flow::success(value, forced_slot.recast())
        },
        Exit::Raised => {
            let out_slot = exception_mapper.fire(forced_slot);
            Flow::from_raised(out_slot)
        },
        Exit::Foreign(p) => {
            let out_slot = exception_mapper.fire(forced_slot);
            Flow::foreign(p, out_slot)
        },
    }
}

/// A non-`Copy` zero-size value: material for generated glue that must make
/// a binding one-shot.
pub struct NoCopy;

} // verus!
