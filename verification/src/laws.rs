use vstd::prelude::*;

use crate::flow::Exit;
use crate::flow::Flow;
use crate::imp::converts;
use crate::imp::IexResult;
use crate::imp::MapErr;
use crate::imp::Marker;
use crate::outcome::resolution_of;
use crate::outcome::Outcome;
use crate::outcome::Resolution;
use crate::slot::Slot;

verus! {

/// A direct success resolves to itself: for every success value `v`, a
/// boundary around `Ok(v)` settles as success with `v` unchanged.
pub proof fn direct_success_resolves_unchanged<T, E>(
    outcome: Result<T, E>,
    v: T,
    r: Resolution<T, E>,
)
    requires
        outcome == Ok::<T, E>(v),
        outcome.resolves_to(r),
    ensures
        r == Resolution::Settled(Ok::<T, E>(v)),
{
}

/// A deferred outcome is ready for a boundary as soon as its computation
/// accepts the capability token and a cleared slot.
pub proof fn deferred_forceable<T, E, Func: FnOnce(Marker<E>, Slot<E>) -> Flow<T, E>>(
    outcome: IexResult<T, E, Func>,
)
    requires
        forall|marker: Marker<E>, slot: Slot<E>|
            slot@ is None ==> #[trigger] call_requires(outcome.computation(), (marker, slot)),
    ensures
        outcome.forceable(),
{
}

/// A deferred success resolves to the success tag with the value unchanged:
/// when the computation can only return `v`, a boundary settles it as
/// `Ok(v)` — in particular, never as a foreign signal.
pub proof fn deferred_success_resolves_unchanged<
    T,
    E,
    Func: FnOnce(Marker<E>, Slot<E>) -> Flow<T, E>,
>(outcome: IexResult<T, E, Func>, v: T, r: Resolution<T, E>)
    requires
        forall|args: (Marker<E>, Slot<E>), flow: Flow<T, E>|
            #[trigger] call_ensures(outcome.computation(), args, flow) ==> flow.exit()
                == Exit::Success(v),
        outcome.resolves_to(r),
    ensures
        r == Resolution::Settled(Ok::<T, E>(v)),
{
    let flow = choose|flow: Flow<T, E>|
        #[trigger] outcome.forces_to(flow) && r == resolution_of(flow);
    let (marker, slot) = choose|marker: Marker<E>, slot: Slot<E>|
        slot@ is None && #[trigger] call_ensures(outcome.computation(), (marker, slot), flow);
    assert(call_ensures(outcome.computation(), (marker, slot), flow));
}

/// The round trip through the slot is lossless: a deferred outcome whose
/// computation can only fail with `e` resolves to the failure tag with `e`
/// unchanged.
pub proof fn deferred_failure_resolves_unchanged<
    T,
    E,
    Func: FnOnce(Marker<E>, Slot<E>) -> Flow<T, E>,
>(outcome: IexResult<T, E, Func>, e: E, r: Resolution<T, E>)
    requires
        forall|args: (Marker<E>, Slot<E>), flow: Flow<T, E>|
            #[trigger] call_ensures(outcome.computation(), args, flow) ==> flow.exit() is Raised
                && flow.payload() == Some(e),
        outcome.resolves_to(r),
    ensures
        r == Resolution::Settled(Err::<T, E>(e)),
{
    let flow = choose|flow: Flow<T, E>|
        #[trigger] outcome.forces_to(flow) && r == resolution_of(flow);
    let (marker, slot) = choose|marker: Marker<E>, slot: Slot<E>|
        slot@ is None && #[trigger] call_ensures(outcome.computation(), (marker, slot), flow);
    assert(call_ensures(outcome.computation(), (marker, slot), flow));
}

/// Deferring a conversion is observationally the same as eager mapping: a
/// boundary around `outcome.map_err(f)`, when the underlying outcome can only
/// fail with `e`, settles as a failure value that `f` admits for `e` — the
/// same as resolving first and applying `f` to the failure value after.
pub proof fn map_err_resolves_as_eager_conversion<R: Outcome, F, Conv: FnOnce(R::Error) -> F>(
    mapped: MapErr<R, Conv>,
    e: R::Error,
    r: Resolution<R::Output, F>,
)
    requires
        forall|mid: Flow<R::Output, R::Error>|
            #[trigger] mapped.inner().forces_to(mid) ==> mid.exit() is Raised && mid.payload()
                == Some(e),
        mapped.resolves_to(r),
    ensures
        exists|u: F|
            #[trigger] call_ensures(mapped.conversion(), (e,), u) && r == Resolution::Settled(
                Err::<R::Output, F>(u),
            ),
{
    let flow = choose|flow: Flow<R::Output, F>|
        #[trigger] mapped.forces_to(flow) && r == resolution_of(flow);
    let mid = choose|mid: Flow<R::Output, R::Error>|
        #[trigger] mapped.inner().forces_to(mid) && converts(mid, mapped.conversion(), flow);
    assert(mid.exit() is Raised && mid.payload() == Some(e));
    let u = flow.payload()->0;
    assert(call_ensures(mapped.conversion(), (e,), u) && r == Resolution::Settled(
        Err::<R::Output, F>(u),
    ));
}

/// Chained forwarding applies conversions outermost-last: when the innermost
/// outcome can only fail with `e` and two converting frames are stacked on
/// top, the boundary settles as a failure value reached by applying the inner
/// conversion to `e` first and the outer conversion to its result — the
/// left-to-right composition.
pub proof fn chained_conversions_compose<
    R: Outcome,
    F,
    G,
    ConvF: FnOnce(R::Error) -> F,
    ConvG: FnOnce(F) -> G,
>(chained: MapErr<MapErr<R, ConvF>, ConvG>, e: R::Error, r: Resolution<R::Output, G>)
    requires
        forall|mid: Flow<R::Output, R::Error>|
            #[trigger] chained.inner().inner().forces_to(mid) ==> mid.exit() is Raised
                && mid.payload() == Some(e),
        chained.resolves_to(r),
    ensures
        exists|u: F, w: G|
            #[trigger] call_ensures(chained.inner().conversion(), (e,), u) && #[trigger]
            call_ensures(chained.conversion(), (u,), w) && r == Resolution::Settled(
                Err::<R::Output, G>(w),
            ),
{
    let flow = choose|flow: Flow<R::Output, G>|
        #[trigger] chained.forces_to(flow) && r == resolution_of(flow);
    let mid_f = choose|mid_f: Flow<R::Output, F>|
        #[trigger] chained.inner().forces_to(mid_f) && converts(mid_f, chained.conversion(), flow);
    let mid_e = choose|mid_e: Flow<R::Output, R::Error>|
        #[trigger] chained.inner().inner().forces_to(mid_e) && converts(
            mid_e,
            chained.inner().conversion(),
            mid_f,
        );
    assert(mid_e.exit() is Raised && mid_e.payload() == Some(e));
    let u = mid_f.payload()->0;
    let w = flow.payload()->0;
    assert(call_ensures(chained.inner().conversion(), (e,), u) && call_ensures(
        chained.conversion(),
        (u,),
        w,
    ) && r == Resolution::Settled(Err::<R::Output, G>(w)));
}

/// A foreign abnormal exit re-escapes a boundary unchanged: a deferred
/// outcome whose computation can only exit with a foreign signal carrying `p`
/// resolves by rethrowing `p`, never by settling it as a failure value.
pub proof fn foreign_signal_reescapes_unchanged<
    T,
    E,
    Func: FnOnce(Marker<E>, Slot<E>) -> Flow<T, E>,
>(outcome: IexResult<T, E, Func>, p: u64, r: Resolution<T, E>)
    requires
        forall|args: (Marker<E>, Slot<E>), flow: Flow<T, E>|
            #[trigger] call_ensures(outcome.computation(), args, flow) ==> flow.exit()
                == Exit::Foreign::<T>(p),
        outcome.resolves_to(r),
    ensures
        r == Resolution::Rethrown::<T, E>(p),
{
    let flow = choose|flow: Flow<T, E>|
        #[trigger] outcome.forces_to(flow) && r == resolution_of(flow);
    let (marker, slot) = choose|marker: Marker<E>, slot: Slot<E>|
        slot@ is None && #[trigger] call_ensures(outcome.computation(), (marker, slot), flow);
    assert(call_ensures(outcome.computation(), (marker, slot), flow));
}

} // verus!
