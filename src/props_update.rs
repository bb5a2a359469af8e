use vstd::prelude::*;
use vstd::std_specs::cmp::PartialEqSpec;
use vstd::laws_eq::obeys_concrete_eq;

verus! {

/// Whether `incoming` differs from `current` and so replaces it.
pub open spec fn props_changed<T: PartialEq>(current: T, incoming: T) -> bool {
    !current.eq_spec(&incoming)
}

/// The properties held after `incoming` has been offered in place of `current`.
pub open spec fn props_after<T: PartialEq>(current: T, incoming: T) -> T {
    if props_changed(current, incoming) {
        incoming
    } else {
        current
    }
}

/// Replaces `current` with `incoming` only when the two differ, and reports
/// whether a replacement took place (that is, whether a re-render is needed).
pub fn neq_assign<T: PartialEq>(current: &mut T, incoming: T) -> (changed: bool)
    ensures
        changed ==> *final(current) == incoming,
        !changed ==> *final(current) == *old(current),
        T::obeys_eq_spec() ==> changed == props_changed(*old(current), incoming),
        T::obeys_eq_spec() ==> *final(current) == props_after(*old(current), incoming),
        obeys_concrete_eq::<T>() ==> (changed <==> incoming != *old(current)),
{
    proof {
        reveal(obeys_concrete_eq);
    }
    if *current != incoming {
        *current = incoming;
        true
    } else {
        false
    }
}


/// Offering the current value again is never a change: what is held stays, and
/// no re-render is asked for.
pub proof fn lemma_update_reflexive<T: PartialEq>(p: T)
    requires
        obeys_concrete_eq::<T>(),
    ensures
        !props_changed(p, p),
        props_after(p, p) == p,
{
    reveal(obeys_concrete_eq);
}

/// Offering a value that differs from the current one is always a change: it is
/// reported, and the new value is held from then on.
pub proof fn lemma_update_replaces<T: PartialEq>(p1: T, p2: T)
    requires
        obeys_concrete_eq::<T>(),
        p1 != p2,
    ensures
        props_changed(p1, p2),
        props_after(p1, p2) == p2,
{
    reveal(obeys_concrete_eq);
}

} // verus!
