use crate::probably::Probably;
use vstd::prelude::*;

verus! {

/// A two-valued process-completion signal: the pure counterpart of a process
/// exit status. Entry-point glue outside this crate translates it into an
/// actual exit code.
#[derive(Clone, Copy, PartialEq, Eq, Structural, Debug)]
pub enum ProcessOutcome {
    /// The program completed with a value; exit code 0.
    Success,
    /// The program completed without a value; exit code 1.
    Failure,
}

impl ProcessOutcome {
    /// The conventional exit code of this outcome: 0 on `Success`, 1 on
    /// `Failure`.
    pub fn exit_code(self) -> (r: u8)
        ensures
            self == ProcessOutcome::Success ==> r == 0,
            self == ProcessOutcome::Failure ==> r == 1,
    {
        match self {
            ProcessOutcome::Success => 0,
            ProcessOutcome::Failure => 1,
        }
    }
}

impl<T> Probably<T> {
    /// Maps this value to a process-completion signal, for use when a
    /// `Probably` is the result of a program's entry point: `Something(_)`
    /// reports success, `Nothing` reports failure.
    pub fn report(self) -> (r: ProcessOutcome)
        ensures
            self is Something ==> r == ProcessOutcome::Success,
            self is Nothing ==> r == ProcessOutcome::Failure,
    {
        match self {
            Probably::Nothing => ProcessOutcome::Failure,
            Probably::Something(_) => ProcessOutcome::Success,
        }
    }
}

impl Probably<Vec<String>> {
    /// Builds the value a demonstration program starts from: `Nothing` when
    /// no arguments were supplied, `Something(args)` otherwise.
    pub fn from_args(args: Vec<String>) -> (r: Self)
        ensures
            args@.len() == 0 ==> r == Probably::<Vec<String>>::Nothing,
            args@.len() > 0 ==> r == Probably::Something(args),
    {
        if args.len() == 0 {
            Probably::Nothing
        } else {
            Probably::Something(args)
        }
    }
}

} // verus!
