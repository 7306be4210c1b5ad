use crate::probably::Probably;
use vstd::prelude::*;

verus! {

/// The evidence left behind when an extraction short-circuits: the enclosing
/// computation found `Nothing`, and no payload exists. It carries no data.
#[derive(Clone, Copy, PartialEq, Eq, Structural, Debug)]
pub struct Residual;

/// The outcome of one extraction step: either the payload is available and
/// local execution continues, or the enclosing function must stop at once and
/// produce `Nothing`.
#[derive(Clone, Copy, Debug)]
pub enum Branch<T> {
    /// A payload was present; execution continues with it.
    Continue(T),
    /// The value was `Nothing`; the enclosing function must return early.
    Break(Residual),
}

impl<T> Probably<T> {
    /// Rewraps a payload produced by local execution into `Something`.
    pub fn from_output(output: T) -> (r: Self)
        ensures
            r == Probably::Something(output),
    {
        Probably::Something(output)
    }

    /// The extraction step of the short-circuit protocol: on `Something(v)`
    /// it yields the payload `v` for continued execution; on `Nothing` it
    /// demands an early return from the enclosing function.
    pub fn branch(self) -> (r: Branch<T>)
        ensures
            match self {
                Probably::Nothing => r == Branch::<T>::Break(Residual),
                Probably::Something(v) => r == Branch::Continue(v),
            },
    {
        match self {
            Probably::Something(v) => Branch::Continue(v),
            Probably::Nothing => Branch::Break(Residual),
        }
    }

    /// Turns the evidence of a short-circuit back into the enclosing
    /// function's result, which is always `Nothing`.
    pub fn from_residual(residual: Residual) -> (r: Self)
        ensures
            r == Probably::<T>::Nothing,
    {
        match residual {
            Residual => Probably::Nothing,
        }
    }
}

/// Extracts the payload of `x` with the short-circuit protocol and wraps it
/// again: on `Nothing` the extraction returns early, before any of the code
/// after the extraction point runs; on `Something(v)` execution continues
/// with the payload `v` available, and rewraps it.
pub fn rewrap<T>(x: Probably<T>) -> (r: Probably<T>)
    ensures
        r == x,
{
    let v: T = match x.branch() {
        Branch::Continue(v) => v,
        Branch::Break(residual) => {
            return Probably::from_residual(residual);
        },
    };
    Probably::from_output(v)
}

} // verus!
