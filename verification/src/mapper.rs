use vstd::prelude::*;

use core::marker::PhantomData;

use crate::slot::Slot;

verus! {

/// The conversion guard: wraps a one-shot error conversion and guarantees it
/// runs exactly once per propagation, on the failure path only.
///
/// Its three logical states map onto ownership. While the guard exists it is
/// *armed*: the conversion is pending. [`ExceptionMapper::swallow`] moves it
/// to *disarmed* — the success path, nothing in the slot to convert — and
/// [`ExceptionMapper::fire`] to *fired*. Both consume the guard, so no guard
/// fires twice, and a frame that builds one must end it one way or the other
/// before it can hand its slot on: the conversion is never left pending.
#[verifier::reject_recursive_types(U)]
pub struct ExceptionMapper<T, U, Conv: FnOnce(T) -> U> {
    map: Conv,
    _types: PhantomData<(T, U)>,
}

impl<T, U, Conv: FnOnce(T) -> U> ExceptionMapper<T, U, Conv> {
    /// The pending conversion.
    pub closed spec fn conversion(self) -> Conv {
        self.map
    }

    /// Arm a guard around a conversion function.
    pub fn new(map: Conv) -> (guard: Self)
        ensures
            guard.conversion() == map,
    {
        ExceptionMapper { map, _types: PhantomData }
    }

    /// Disarm: discard the guard, and the conversion with it, without running
    /// it. This is the success path — the slot holds nothing to convert.
    pub fn swallow(self) {
    }

    /// Fire: convert whatever payload sits in the slot, in place.
    ///
    /// The payload is taken out of the cell before the conversion runs and
    /// the result is written back only afterwards, so the conversion function
    /// may itself drive a whole nested propagation — it never observes, and
    /// can never clobber, the pending payload it was invoked for. An empty
    /// cell (a foreign signal passing through this frame) stays empty and the
    /// conversion does not run.
    pub fn fire(self, slot: Slot<T>) -> (out: Slot<U>)
        requires
            slot@ is Some ==> call_requires(self.conversion(), (slot@->0,)),
        ensures
            slot@ is None ==> out@ is None,
            slot@ is Some ==> out@ is Some && call_ensures(
                self.conversion(),
                (slot@->0,),
                out@->0,
            ),
    {
        let ExceptionMapper { map, _types } = self;
        let mut slot = slot;
        let payload = slot.read();
        match payload {
            None => slot.recast(),
            Some(error) => {
                let converted = map(error);
                let mut out: Slot<U> = slot.recast();
                out.write(Some(converted));
                out
            },
        }
    }
}

} // verus!
