//! Ordered checks and the first one that fails.

use vstd::prelude::*;

verus! {

/// The result of a check: an error where a fault was found.
pub open spec fn outcome<E>(fault: Option<E>) -> Result<(), E> {
    match fault {
        Some(error) => Err(error),
        None => Ok(()),
    }
}

/// The first of two faults.
pub open spec fn first<E>(left: Option<E>, right: Option<E>) -> Option<E> {
    match left {
        Some(error) => Some(error),
        None => right,
    }
}

/// The fault of the first of `count` entries that has one.
pub open spec fn first_fault<E>(fault: spec_fn(int) -> Option<E>, count: int) -> Option<E>
    decreases count,
{
    if count <= 0 {
        None
    } else {
        first(first_fault(fault, count - 1), fault(count - 1))
    }
}

/// Checking entry by entry finds the fault of the earliest faulty entry, and finds none
/// exactly where no entry has one.
pub proof fn law_first_fault_is_the_earliest<E>(fault: spec_fn(int) -> Option<E>, count: int)
    ensures
        match first_fault(fault, count) {
            None => forall|i: int| 0 <= i < count ==> (#[trigger] fault(i)) is None,
            Some(error) => exists|i: int|
                0 <= i < count && #[trigger] fault(i) == Some(error) && forall|k: int|
                    0 <= k < i ==> (#[trigger] fault(k)) is None,
        },
    decreases count,
{
    if count > 0 {
        law_first_fault_is_the_earliest(fault, count - 1);
        if first_fault(fault, count - 1) is None && fault(count - 1) is Some {
            assert(fault(count - 1) == first_fault(fault, count));
        }
        if first_fault(fault, count - 1) is Some {
            let error = first_fault(fault, count - 1)->0;
            let i = choose|i: int|
                0 <= i < count - 1 && #[trigger] fault(i) == Some(error) && forall|k: int|
                    0 <= k < i ==> (#[trigger] fault(k)) is None;
            assert(fault(i) == Some(error));
        }
    }
}

/// A fault found stays the fault of every longer scan.
pub proof fn lemma_first_fault_stays<E>(fault: spec_fn(int) -> Option<E>, shorter: int, longer: int)
    requires
        shorter <= longer,
        first_fault(fault, shorter) is Some,
    ensures
        first_fault(fault, longer) == first_fault(fault, shorter),
    decreases longer - shorter,
{
    if shorter < longer {
        lemma_first_fault_stays(fault, shorter, longer - 1);
        if longer <= 0 {
            assert(first_fault(fault, shorter) is None);
        }
    }
}

/// Faults that agree on every entry of a scan have the same first one.
pub proof fn lemma_same_first_fault<E>(
    left: spec_fn(int) -> Option<E>,
    right: spec_fn(int) -> Option<E>,
    count: int,
)
    requires
        forall|i: int| 0 <= i < count ==> #[trigger] left(i) == right(i),
    ensures
        first_fault(left, count) == first_fault(right, count),
    decreases count,
{
    if count > 0 {
        lemma_same_first_fault(left, right, count - 1);
        assert(left(count - 1) == right(count - 1));
    }
}

/// A check succeeds exactly where there is no fault, and otherwise fails with that fault.
pub proof fn law_outcomes<E>(fault: Option<E>, error: E)
    ensures
        outcome(fault) is Ok <==> fault is None,
        outcome(fault) == Err::<(), E>(error) <==> fault == Some(error),
{
}

/// Of two faults the first one counts, and the second only without it.
pub proof fn law_first_of_two<E>(left: Option<E>, right: Option<E>)
    ensures
        first(left, right) is None <==> left is None && right is None,
        left is Some ==> first(left, right) == left,
        left is None ==> first(left, right) == right,
{
}

} // verus!
