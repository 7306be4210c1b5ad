//! A generic optional value with a friendlier name.
//!
//! [`Probably<T>`] is a closed sum type over exactly two variants: `Nothing`,
//! which carries no payload, and `Something(T)`, which carries exactly one
//! value of type `T`. The crate provides conversions to and from the native
//! optional type, a `flatten` operation for nested values, a short-circuit
//! extraction protocol for use in functions that themselves return a
//! `Probably`, and a mapping to a two-valued process outcome.

mod entry;
mod flow;
mod laws;
mod probably;

pub use entry::ProcessOutcome;
pub use flow::rewrap;
pub use flow::Branch;
pub use flow::Residual;
pub use laws::lemma_eq_equivalence;
pub use laws::lemma_flatten_laws;
pub use laws::lemma_native_round_trip;
pub use laws::lemma_nothing_sorts_first;
pub use laws::lemma_wrap_then_to_native;
pub use probably::Probably;
pub use probably::Probably::Nothing;
pub use probably::Probably::Something;
