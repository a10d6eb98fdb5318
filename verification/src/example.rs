use vstd::prelude::*;

use crate::flow::Exit;
use crate::flow::Flow;
use crate::imp::IexResult;
use crate::imp::Marker;
use crate::outcome::Outcome;
use crate::outcome::Resolution;
use crate::slot::Slot;

verus! {

/// A simple struct containing a method that runs the full deferred protocol.
pub struct HasIexMethod;

impl HasIexMethod {
    /// Such method. Very wow.
    ///
    /// The body is what generated glue would be for a fallible function that
    /// just succeeds: suspend the function body as a deferred outcome, then
    /// cast it to a plain [`Result`] at the boundary. The contract shows the
    /// whole trip is invisible to the caller.
    pub fn iex_method() -> (r: Result<(), ()>)
        ensures
            r == Ok::<(), ()>(()),
    {
        let computation = |_marker: Marker<()>, slot: Slot<()>| -> (flow: Flow<(), ()>)
            requires
                slot@ is None,
            ensures
                flow.exit() == Exit::Success(()),
            { Flow::success((), slot) };
        let ghost suspended = computation;
        let outcome = IexResult::new(computation);
        let ghost deferred = outcome;
        proof {
            assert forall|args: (Marker<()>, Slot<()>), flow: Flow<(), ()>| #[trigger] call_ensures(
                deferred.computation(),
                args,
                flow,
            ) implies flow.exit() == Exit::Success(()) by {
                assert(call_ensures(suspended, args, flow));
            }
            assert forall|marker: Marker<()>, slot: Slot<()>| slot@ is None implies #[trigger]
            call_requires(deferred.computation(), (marker, slot)) by {
                assert(call_requires(suspended, (marker, slot)));
            }
            crate::laws::deferred_forceable(deferred);
        }
        let resolution = outcome.resolve();
        proof {
            crate::laws::deferred_success_resolves_unchanged(deferred, (), resolution);
        }
        match resolution {
            Resolution::Settled(result) => result,
            Resolution::Rethrown(_) => {
                proof {
                    assert(false);
                }
                vstd::pervasive::unreached()
            },
        }
    }
}

/// Fallible talking.
pub trait SayHello {
    /// Say hello.
    fn provided_method(self) -> (r: Result<String, ()>) where Self: Sized
        ensures
            r is Ok,
    {
        Ok("Default implementation says Hello!".to_string())
    }

    /// Do nothing.
    fn required_method(&self) -> Result<(), ()>;
}

impl SayHello for String {
    /// Greets with the string itself.
    fn provided_method(self) -> (r: Result<String, ()>)
        ensures
            r == Ok::<String, ()>(self),
    {
        Ok(self)
    }

    fn required_method(&self) -> (r: Result<(), ()>)
        ensures
            r == Ok::<(), ()>(()),
    {
        Ok(())
    }
}

/// Add numbers and check for overflow.
///
/// This function tries to compute the sum of the two arguments and returns an
/// error if the sum doesn't fit in the result type. The returned error is the
/// overflowed sum.
pub fn add(a: i32, b: i32) -> (r: Result<i32, i32>)
    ensures
        i32::MIN <= a + b <= i32::MAX ==> r == Ok::<i32, i32>((a + b) as i32),
        a + b > i32::MAX ==> r == Err::<i32, i32>((a + b - 0x1_0000_0000) as i32),
        a + b < i32::MIN ==> r == Err::<i32, i32>((a + b + 0x1_0000_0000) as i32),
{
    a.checked_add(b).ok_or(a.wrapping_add(b))
}

} // verus!
