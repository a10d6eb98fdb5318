//! Idiomatic exceptions: asymmetric fallible-result propagation.
//!
//! A chain of fallible operations can propagate a failure across function
//! boundaries through a control-transfer signal instead of an explicit tagged
//! return value, while the edges that need to inspect the outcome still see a
//! conventional [`Result`]. The success path carries no error value and no
//! discriminant; the failure path pays for that by routing its payload through
//! a single payload slot.
//!
//! The pieces:
//! - [`slot::Slot`]: the single-cell storage for the in-flight failure payload.
//! - [`flow::Flow`]: the complete effect of forcing a computation, either a
//!   normal return or a control-transfer signal, together with the slot.
//! - [`Outcome`]: the interface shared by the eager, tagged representation
//!   ([`Result`]) and the deferred, signal-based one ([`imp::IexResult`]).
//! - [`mapper::ExceptionMapper`]: the scoped guard that applies an error
//!   conversion exactly once on the failure path.
//! - [`imp::iex_forward`] and [`imp::iex_forward_mapping`]: the
//!   boundary-crossing operator in its two statically selected shapes.
//! - [`laws`]: the protocol's end-to-end guarantees — lossless round trips,
//!   deferred conversion agreeing with eager mapping, composition order,
//!   foreign signals re-escaping — stated and proved once, for every
//!   computation and every conversion.
//!
//! The host's unwinding machinery is opaque to a verifier, so this library
//! states the protocol over explicit values: the signal that a failing
//! computation would raise is the [`flow::Exit`] it returns, and the
//! thread-scoped slot is an owned cell handed from frame to frame. The
//! capability token ([`imp::Marker`]) keeps its role as the proof that a
//! producer and a consumer agree on the slot's payload type; here the
//! agreement is enforced by the slot's own type parameter, and an empty cell
//! alone may change that type ([`slot::Slot::recast`]).

pub mod example;
pub mod flow;
pub mod imp;
pub mod laws;
pub mod mapper;
pub mod outcome;
pub(crate) mod sealed;
pub mod slot;

pub use outcome::Outcome;
