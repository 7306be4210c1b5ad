use vstd::prelude::*;

verus! {

use core::cmp::Ordering;
use vstd::std_specs::cmp::PartialEqSpec;
use vstd::std_specs::cmp::PartialOrdSpec;

/// A two-variant optional value: either [`Probably::Nothing`], which carries
/// no payload, or [`Probably::Something`], which carries exactly one value of
/// type `T`.
///
/// `Nothing` sorts strictly before any `Something(_)`; two `Something` values
/// order by their payloads.
#[derive(Clone, Copy, Eq, Ord, Debug, Hash)]
pub enum Probably<T> {
    /// No value.
    Nothing,
    /// Some value of type `T`.
    Something(T),
}

impl<T> View for Probably<T> {
    type V = Option<T>;

    /// The native optional value that this `Probably` stands for:
    /// `Something(v)` is `Some(v)` and `Nothing` is `None`.
    open spec fn view(&self) -> Option<T> {
        match *self {
            Probably::Nothing => None,
            Probably::Something(v) => Some(v),
        }
    }
}

impl<T> Probably<T> {
    /// The `Probably` that stands for the native optional value `o`:
    /// `Some(v)` is `Something(v)` and `None` is `Nothing`.
    pub open spec fn from_native(o: Option<T>) -> Probably<T> {
        match o {
            None => Probably::Nothing,
            Some(v) => Probably::Something(v),
        }
    }

    /// Whether this value is `Nothing`.
    pub fn is_nothing(&self) -> (r: bool)
        ensures
            r == (*self is Nothing),
    {
        match self {
            Probably::Nothing => true,
            Probably::Something(_) => false,
        }
    }

    /// Whether this value is `Something(_)`.
    pub fn is_something(&self) -> (r: bool)
        ensures
            r == (*self is Something),
    {
        match self {
            Probably::Nothing => false,
            Probably::Something(_) => true,
        }
    }
}

impl<T> Probably<Probably<T>> {
    /// What collapsing exactly one level of nesting yields.
    pub open spec fn spec_flatten(self) -> Probably<T> {
        match self {
            Probably::Nothing => Probably::Nothing,
            Probably::Something(inner) => inner,
        }
    }

    /// Converts from `Probably<Probably<T>>` to `Probably<T>` by collapsing
    /// exactly one level of nesting. Flattening is not recursive: repeated
    /// nesting requires repeated calls.
    pub fn flatten(self) -> (r: Probably<T>)
        ensures
            r == self.spec_flatten(),
    {
        match self {
            Probably::Something(inner) => inner,
            Probably::Nothing => Probably::Nothing,
        }
    }
}

impl<T> From<T> for Probably<T> {
    /// Wraps a concrete value `v` into `Something(v)`.
    fn from(v: T) -> (r: Self) {
        Probably::Something(v)
    }
}

impl<T> vstd::std_specs::convert::FromSpecImpl<T> for Probably<T> {
    open spec fn obeys_from_spec() -> bool {
        true
    }

    open spec fn from_spec(v: T) -> Self {
        Probably::Something(v)
    }
}

impl<T> From<Option<T>> for Probably<T> {
    /// Converts the native optional into a `Probably`: present becomes
    /// `Something`, absent becomes `Nothing`.
    fn from(o: Option<T>) -> (r: Self) {
        match o {
            Some(v) => Probably::Something(v),
            None => Probably::Nothing,
        }
    }
}

impl<T> vstd::std_specs::convert::FromSpecImpl<Option<T>> for Probably<T> {
    open spec fn obeys_from_spec() -> bool {
        true
    }

    open spec fn from_spec(o: Option<T>) -> Self {
        Probably::from_native(o)
    }
}

impl<T> From<Probably<T>> for Option<T> {
    /// Converts a `Probably` into the native optional: `Something(v)` becomes
    /// `Some(v)`, `Nothing` becomes `None`.
    fn from(p: Probably<T>) -> (r: Self) {
        match p {
            Probably::Something(v) => Some(v),
            Probably::Nothing => None,
        }
    }
}

impl<T> vstd::std_specs::convert::FromSpecImpl<Probably<T>> for Option<T> {
    open spec fn obeys_from_spec() -> bool {
        true
    }

    open spec fn from_spec(p: Probably<T>) -> Self {
        p@
    }
}

impl<T: PartialEq> PartialEq for Probably<T> {
    /// `Nothing == Nothing`; `Something(a) == Something(b)` iff `a == b`;
    /// `Nothing != Something(_)` always.
    fn eq(&self, other: &Self) -> (r: bool) {
        match (self, other) {
            (Probably::Nothing, Probably::Nothing) => true,
            (Probably::Something(a), Probably::Something(b)) => a == b,
            _ => false,
        }
    }
}

impl<T: PartialEq> vstd::std_specs::cmp::PartialEqSpecImpl for Probably<T> {
    open spec fn obeys_eq_spec() -> bool {
        T::obeys_eq_spec()
    }

    open spec fn eq_spec(&self, other: &Self) -> bool {
        match (*self, *other) {
            (Probably::Nothing, Probably::Nothing) => true,
            (Probably::Something(a), Probably::Something(b)) => a.eq_spec(&b),
            _ => false,
        }
    }
}

impl<T: PartialOrd> PartialOrd for Probably<T> {
    /// `Nothing` sorts strictly before any `Something(_)`; two `Something`
    /// values compare by their payloads.
    fn partial_cmp(&self, other: &Self) -> (r: Option<Ordering>) {
        match (self, other) {
            (Probably::Nothing, Probably::Nothing) => Some(Ordering::Equal),
            (Probably::Nothing, Probably::Something(_)) => Some(Ordering::Less),
            (Probably::Something(_), Probably::Nothing) => Some(Ordering::Greater),
            (Probably::Something(a), Probably::Something(b)) => a.partial_cmp(b),
        }
    }
}

impl<T: PartialOrd> vstd::std_specs::cmp::PartialOrdSpecImpl for Probably<T> {
    open spec fn obeys_partial_cmp_spec() -> bool {
        T::obeys_partial_cmp_spec()
    }

    open spec fn partial_cmp_spec(&self, other: &Self) -> Option<Ordering> {
        match (*self, *other) {
            (Probably::Nothing, Probably::Nothing) => Some(Ordering::Equal),
            (Probably::Nothing, Probably::Something(_)) => Some(Ordering::Less),
            (Probably::Something(_), Probably::Nothing) => Some(Ordering::Greater),
            (Probably::Something(a), Probably::Something(b)) => a.partial_cmp_spec(&b),
        }
    }
}

impl<T> Default for Probably<T> {
    /// The default value is `Nothing`, independent of `T`.
    fn default() -> (r: Self)
        ensures
            r == Probably::<T>::Nothing,
    {
        Probably::Nothing
    }
}

} // verus!
