use crate::probably::Probably;
use vstd::prelude::*;

verus! {

use core::cmp::Ordering;
use vstd::std_specs::cmp::PartialEqSpec;
use vstd::std_specs::cmp::PartialOrdSpec;

/// Wrapping a concrete value and reading the result back as the native
/// optional yields the value, present; `Nothing` reads back as absent.
pub proof fn lemma_wrap_then_to_native<T>(v: T)
    ensures
        Probably::Something(v)@ == Some(v),
        Probably::<T>::Nothing@ == None::<T>,
{
}

/// Round trip: rebuilding a `Probably` from the native optional it stands
/// for yields the value itself.
pub proof fn lemma_native_round_trip<T>(x: Probably<T>)
    ensures
        Probably::from_native(x@) == x,
{
}

/// The flatten laws: flattening collapses exactly one level of nesting, and
/// only one — a doubly nested `Something` needs two flattens to reach its
/// innermost payload.
pub proof fn lemma_flatten_laws<T>(v: T)
    ensures
        Probably::Something(Probably::Something(v)).spec_flatten() == Probably::Something(v),
        Probably::Something(Probably::<T>::Nothing).spec_flatten() == Probably::<T>::Nothing,
        Probably::<Probably<T>>::Nothing.spec_flatten() == Probably::<T>::Nothing,
        Probably::Something(Probably::Something(Probably::Something(v))).spec_flatten()
            == Probably::Something(Probably::Something(v)),
        Probably::Something(Probably::Something(Probably::Something(v))).spec_flatten()
            .spec_flatten() == Probably::Something(v),
{
}

/// `Nothing` sorts strictly before any `Something(v)` whenever the payload
/// type supports ordering.
pub proof fn lemma_nothing_sorts_first<T: PartialOrd>(v: T)
    ensures
        Probably::<T>::Nothing.partial_cmp_spec(&Probably::Something(v)) == Some(Ordering::Less),
        Probably::Something(v).partial_cmp_spec(&Probably::<T>::Nothing) == Some(
            Ordering::Greater,
        ),
{
}

/// Equality on `Probably<T>` is reflexive, symmetric and transitive on both
/// variants, whenever equality on the payload type is itself an equivalence.
pub proof fn lemma_eq_equivalence<T: PartialEq>(a: Probably<T>, b: Probably<T>, c: Probably<T>)
    requires
        forall|x: T| #[trigger] x.eq_spec(&x),
        forall|x: T, y: T| #[trigger] x.eq_spec(&y) ==> y.eq_spec(&x),
        forall|x: T, y: T, z: T|
            #![trigger x.eq_spec(&y), y.eq_spec(&z)]
            x.eq_spec(&y) && y.eq_spec(&z) ==> x.eq_spec(&z),
    ensures
        a.eq_spec(&a),
        a.eq_spec(&b) ==> b.eq_spec(&a),
        a.eq_spec(&b) && b.eq_spec(&c) ==> a.eq_spec(&c),
{
}

} // verus!
