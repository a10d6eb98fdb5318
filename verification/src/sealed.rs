use vstd::prelude::*;

verus! {

/// Restricts [`crate::Outcome`] to the representations defined by this
/// library: the protocol is a closed convention between its eager and its
/// deferred result types, and a foreign implementation could not be held to
/// the slot discipline.
pub trait Sealed {
}

} // verus!
