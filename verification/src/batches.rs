//! Distribution of active targets over workers.
//!
//! Targets are split into consecutive chunks, one for each worker. The chunks put back
//! together are the targets in their original order, and of several failures the one of
//! the earliest evaluation is reported, so that the number of workers never shows.

use vstd::prelude::*;

use crate::riemann::RiemannMethod;

verus! {

use crate::order::increasing;

/// The most workers that are ever used.
pub const MAX_ACTIVE_TARGET_WORKERS: usize = 64;

/// The number of workers: a positive request, or what the machine offers, but never more
/// than the maximum.
pub fn active_target_worker_count(requested: Option<usize>, available: usize) -> (result: usize)
    ensures
        result == {
            let wanted = match requested {
                Some(workers) if workers > 0 => workers,
                _ => available,
            };
            if wanted < MAX_ACTIVE_TARGET_WORKERS {
                wanted
            } else {
                MAX_ACTIVE_TARGET_WORKERS
            }
        },
        result <= 64,
        requested matches Some(workers) ==> (0 < workers <= 64 ==> result == workers),
        requested matches Some(workers) ==> (workers > 64 ==> result == 64),
        requested is None || requested == Some(0usize) ==> result <= available && (result == available
            || result == 64),
{
    let wanted: usize = match requested {
        Some(workers) => if workers > 0 {
            workers
        } else {
            available
        },
        None => available,
    };
    if wanted < MAX_ACTIVE_TARGET_WORKERS {
        wanted
    } else {
        MAX_ACTIVE_TARGET_WORKERS
    }
}

/// The indices of the active particles, in order.
pub fn active_targets(active: &[bool]) -> (result: Vec<usize>)
    ensures
        increasing(result@),
        forall|index: usize|
            #[trigger] result@.contains(index) <==> index < active@.len() && active@[index as int],
{
    let mut result: Vec<usize> = Vec::new();
    let mut index: usize = 0;
    while index < active.len()
        invariant
            index <= active@.len(),
            increasing(result@),
            forall|k: int| 0 <= k < result@.len() ==> #[trigger] result@[k] < index,
            forall|other: usize|
                #[trigger] result@.contains(other) <==> other < index && active@[other as int],
        decreases active@.len() - index,
    {
        let ghost before = result@;
        if active[index] {
            result.push(index);
        }
        proof {
            assert forall|other: usize| #[trigger] result@.contains(other) <==> other < index + 1
                && active@[other as int] by {
                if result@.contains(other) {
                    let k = choose|k: int| 0 <= k < result@.len() && result@[k] == other;
                    if k < before.len() {
                        assert(before[k] == other);
                        assert(before.contains(other));
                    }
                }
                if before.contains(other) {
                    let k = choose|k: int| 0 <= k < before.len() && before[k] == other;
                    assert(result@[k] == other);
                }
                if other == index && active@[other as int] {
                    assert(result@[before.len() as int] == other);
                }
            }
        }
        index = index + 1;
    }
    result
}

/// The chunks put back together.
pub open spec fn joined(chunks: Seq<Vec<usize>>) -> Seq<usize>
    decreases chunks.len(),
{
    if chunks.len() == 0 {
        Seq::empty()
    } else {
        joined(chunks.drop_last()) + chunks.last()@
    }
}

/// The number of chunks that are filled: at least one worker, and no more than targets.
pub open spec fn used_workers(targets: int, requested: int) -> int {
    let wanted = if requested < 1 {
        1
    } else {
        requested
    };
    if wanted < targets {
        wanted
    } else {
        targets
    }
}

/// The length of a full chunk: the targets per filled chunk, rounded up.
pub open spec fn chunk_length(targets: int, requested: int) -> int {
    let workers = used_workers(targets, requested);
    if targets % workers == 0 {
        targets / workers
    } else {
        targets / workers + 1
    }
}

/// Split targets into consecutive chunks of equal size, the last one possibly shorter.
pub fn target_chunks(targets: &[usize], requested_workers: usize) -> (result: Vec<Vec<usize>>)
    ensures
        joined(result@) == targets@,
        targets@.len() > 0 ==> result@.len() <= used_workers(
            targets@.len() as int,
            requested_workers as int,
        ),
        forall|k: int| 0 <= k < result@.len() ==> (#[trigger] result@[k])@.len() > 0,
        forall|k: int|
            0 <= k < result@.len() - 1 ==> (#[trigger] result@[k])@.len() == chunk_length(
                targets@.len() as int,
                requested_workers as int,
            ),
        forall|k: int|
            0 <= k < result@.len() ==> (#[trigger] result@[k])@.len() <= chunk_length(
                targets@.len() as int,
                requested_workers as int,
            ),
        targets@.len() == 0 ==> result@.len() == 0,
{
    let mut chunks: Vec<Vec<usize>> = Vec::new();
    if targets.len() == 0 {
        assert(joined(chunks@) =~= targets@);
        return chunks;
    }
    let wanted: usize = if requested_workers < 1 {
        1
    } else {
        requested_workers
    };
    let workers: usize = if wanted < targets.len() {
        wanted
    } else {
        targets.len()
    };
    let quotient: usize = targets.len() / workers;
    let chunk_size: usize = if targets.len() % workers == 0 {
        quotient
    } else {
        proof {
            lemma_quotient_below(targets@.len() as int, workers as int);
        }
        quotient + 1
    };
    proof {
        lemma_chunks_cover(targets@.len() as int, workers as int, chunk_size as int);
    }
    let mut start: usize = 0;
    assert(joined(chunks@) =~= targets@.take(0));
    while start < targets.len()
        invariant
            start <= targets@.len(),
            chunk_size >= 1,
            workers >= 1,
            targets@.len() <= chunk_size * workers,
            joined(chunks@) == targets@.take(start as int),
            start < targets@.len() ==> start == chunks@.len() * chunk_size,
            start == targets@.len() ==> chunks@.len() <= workers,
            forall|k: int| 0 <= k < chunks@.len() ==> (#[trigger] chunks@[k])@.len() > 0,
            forall|k: int| 0 <= k < chunks@.len() ==> (#[trigger] chunks@[k])@.len() <= chunk_size,
            forall|k: int|
                0 <= k < chunks@.len() - 1 ==> (#[trigger] chunks@[k])@.len() == chunk_size,
            start < targets@.len() ==> forall|k: int|
                0 <= k < chunks@.len() ==> (#[trigger] chunks@[k])@.len() == chunk_size,
        decreases targets@.len() - start,
    {
        let size: usize = if targets.len() - start < chunk_size {
            targets.len() - start
        } else {
            chunk_size
        };
        let mut chunk: Vec<usize> = Vec::with_capacity(size);
        let mut k: usize = 0;
        while k < size
            invariant
                k <= size,
                start + size <= targets@.len(),
                targets@.len() <= usize::MAX,
                chunk@ == targets@.subrange(start as int, start + k),
            decreases size - k,
        {
            chunk.push(targets[start + k]);
            k = k + 1;
        }
        let ghost before = chunks@;
        chunks.push(chunk);
        proof {
            assert(chunks@.drop_last() =~= before);
            assert(joined(chunks@) =~= targets@.take(start + size));
            lemma_chunk_count(
                before.len() as int,
                chunk_size as int,
                workers as int,
                targets@.len() as int,
                start as int,
            );
        }
        start = start + size;
    }
    assert(targets@.take(targets@.len() as int) =~= targets@);
    chunks
}

/// What the chunks evaluate to, one after the other.
pub open spec fn evaluated<R>(chunks: Seq<Vec<usize>>, evaluate: spec_fn(usize) -> R) -> Seq<R>
    decreases chunks.len(),
{
    if chunks.len() == 0 {
        Seq::empty()
    } else {
        evaluated(chunks.drop_last(), evaluate) + chunks.last()@.map_values(evaluate)
    }
}

/// Evaluating the chunks one after the other evaluates the targets in order.
pub proof fn law_chunks_evaluate_in_order<R>(
    chunks: Seq<Vec<usize>>,
    evaluate: spec_fn(usize) -> R,
)
    ensures
        evaluated(chunks, evaluate) == joined(chunks).map_values(evaluate),
    decreases chunks.len(),
{
    if chunks.len() > 0 {
        law_chunks_evaluate_in_order(chunks.drop_last(), evaluate);
    }
    assert(evaluated(chunks, evaluate) =~= joined(chunks).map_values(evaluate));
}

/// How the targets are divided does not show: two divisions of the same targets evaluate to
/// the same results in the same order.
pub proof fn law_results_do_not_depend_on_workers<R>(
    left: Seq<Vec<usize>>,
    right: Seq<Vec<usize>>,
    evaluate: spec_fn(usize) -> R,
)
    requires
        joined(left) == joined(right),
    ensures
        evaluated(left, evaluate) == evaluated(right, evaluate),
{
    law_chunks_evaluate_in_order(left, evaluate);
    law_chunks_evaluate_in_order(right, evaluate);
}

proof fn lemma_quotient_below(total: int, workers: int)
    requires
        1 <= workers <= total,
        total % workers != 0,
    ensures
        total / workers + 1 <= total,
{
    vstd::arithmetic::div_mod::lemma_fundamental_div_mod(total, workers);
    if workers == 1 {
        assert(total % 1 == 0);
    }
    let quotient = total / workers;
    assert(quotient * 2 <= total) by (nonlinear_arith)
        requires
            workers >= 2,
            total == workers * quotient + total % workers,
            total % workers >= 0,
            quotient >= 0,
    ;
}

proof fn lemma_chunks_cover(total: int, workers: int, chunk_size: int)
    requires
        1 <= workers <= total,
        chunk_size == if total % workers == 0 {
            total / workers
        } else {
            total / workers + 1
        },
    ensures
        chunk_size >= 1,
        total <= chunk_size * workers,
{
    vstd::arithmetic::div_mod::lemma_fundamental_div_mod(total, workers);
    let quotient = total / workers;
    assert(quotient >= 1) by (nonlinear_arith)
        requires
            total == workers * quotient + total % workers,
            total % workers < workers,
            total >= workers,
            workers >= 1,
    ;
    assert(total <= chunk_size * workers) by (nonlinear_arith)
        requires
            total == workers * quotient + total % workers,
            0 <= total % workers < workers,
            (total % workers == 0 && chunk_size == quotient) || chunk_size == quotient + 1,
            workers >= 1,
    ;
}

proof fn lemma_chunk_count(count: int, chunk_size: int, workers: int, total: int, start: int)
    requires
        chunk_size >= 1,
        workers >= 1,
        count >= 0,
        start == count * chunk_size,
        start < total <= chunk_size * workers,
    ensures
        count + 1 <= workers,
        (count + 1) * chunk_size == start + chunk_size,
{
    assert(count < workers) by (nonlinear_arith)
        requires
            count * chunk_size < chunk_size * workers,
            chunk_size >= 1,
    ;
    assert((count + 1) * chunk_size == count * chunk_size + chunk_size) by (nonlinear_arith);
}

/// Whether entry `at` is a failure with the smallest ordinal, and the first such.
pub open spec fn is_earliest(failures: Seq<Option<usize>>, at: int) -> bool {
    &&& 0 <= at < failures.len()
    &&& failures[at] is Some
    &&& forall|k: int|
        0 <= k < failures.len() && (#[trigger] failures[k]) is Some ==> failures[at]->0
            < failures[k]->0 || (failures[at]->0 == failures[k]->0 && at <= k)
}

/// Find the failure of the earliest evaluation. Entries without an ordinal succeeded.
pub fn earliest_failure(failures: &[Option<usize>]) -> (result: Option<usize>)
    ensures
        match result {
            Some(at) => is_earliest(failures@, at as int),
            None => forall|k: int| 0 <= k < failures@.len() ==> (#[trigger] failures@[k]) is None,
        },
        result is None <==> forall|k: int| 0 <= k < failures@.len() ==> (#[trigger] failures@[k]) is None,
        result matches Some(at) ==> at < failures@.len() && failures@[at as int] is Some && forall|k: int|
            0 <= k < failures@.len() && (#[trigger] failures@[k]) is Some ==> failures@[at as int]->0
                <= failures@[k]->0,
{
    let mut earliest: Option<(usize, usize)> = None;
    let mut index: usize = 0;
    while index < failures.len()
        invariant
            index <= failures@.len(),
            match earliest {
                Some(found) => {
                    &&& found.0 < index
                    &&& failures@[found.0 as int] == Some(found.1)
                    &&& forall|k: int|
                        0 <= k < index && (#[trigger] failures@[k]) is Some ==> found.1
                            < failures@[k]->0 || (found.1 == failures@[k]->0 && found.0 <= k)
                },
                None => forall|k: int| 0 <= k < index ==> (#[trigger] failures@[k]) is None,
            },
        decreases failures@.len() - index,
    {
        if let Some(ordinal) = failures[index] {
            let replace: bool = match earliest {
                Some(found) => ordinal < found.1,
                None => true,
            };
            if replace {
                earliest = Some((index, ordinal));
            }
        }
        index = index + 1;
    }
    match earliest {
        Some(found) => Some(found.0),
        None => None,
    }
}

/// Which failure is reported depends on the ordinals alone: however the entries are
/// arranged, the reported ordinal is the smallest.
pub proof fn law_reported_failure_is_the_smallest(
    left: Seq<Option<usize>>,
    right: Seq<Option<usize>>,
    at: int,
    other: int,
)
    requires
        is_earliest(left, at),
        is_earliest(right, other),
        forall|entry: Option<usize>| left.contains(entry) <==> right.contains(entry),
    ensures
        left[at] == right[other],
{
    assert(left.contains(left[at]));
    assert(right.contains(right[other]));
    let k = choose|k: int| 0 <= k < right.len() && right[k] == left[at];
    let m = choose|m: int| 0 <= m < left.len() && left[m] == right[other];
    assert(right[k] is Some);
    assert(left[m] is Some);
}

/// How many pairs each solver handled.
#[derive(Clone, Copy, Debug, PartialEq, Eq, Structural)]
pub struct MethodCounts {
    pub hllc: usize,
    pub kurganov_tadmor: usize,
    pub exact: usize,
    pub vacuum: usize,
}

/// How many entries of a sequence are a given method.
pub open spec fn occurrences(methods: Seq<RiemannMethod>, method: RiemannMethod) -> int
    decreases methods.len(),
{
    if methods.len() == 0 {
        0
    } else {
        occurrences(methods.drop_last(), method) + if methods.last() == method {
            1int
        } else {
            0
        }
    }
}

proof fn lemma_occurrences_bounded(methods: Seq<RiemannMethod>, method: RiemannMethod)
    ensures
        0 <= occurrences(methods, method) <= methods.len(),
    decreases methods.len(),
{
    if methods.len() > 0 {
        lemma_occurrences_bounded(methods.drop_last(), method);
    }
}

/// Every method is counted once: the four counts add up to the number of pairs.
pub proof fn law_method_counts_add_up(methods: Seq<RiemannMethod>)
    ensures
        occurrences(methods, RiemannMethod::Hllc) + occurrences(
            methods,
            RiemannMethod::KurganovTadmor,
        ) + occurrences(methods, RiemannMethod::Exact) + occurrences(methods, RiemannMethod::Vacuum)
            == methods.len(),
    decreases methods.len(),
{
    if methods.len() > 0 {
        law_method_counts_add_up(methods.drop_last());
    }
}

/// Count the solvers of a list of pairs.
pub fn count_methods(methods: &[RiemannMethod]) -> (result: MethodCounts)
    ensures
        result.hllc == occurrences(methods@, RiemannMethod::Hllc),
        result.kurganov_tadmor == occurrences(methods@, RiemannMethod::KurganovTadmor),
        result.exact == occurrences(methods@, RiemannMethod::Exact),
        result.vacuum == occurrences(methods@, RiemannMethod::Vacuum),
        result.hllc + result.kurganov_tadmor + result.exact + result.vacuum == methods@.len(),
{
    let mut counts: MethodCounts = MethodCounts {
        hllc: 0,
        kurganov_tadmor: 0,
        exact: 0,
        vacuum: 0,
    };
    let mut index: usize = 0;
    while index < methods.len()
        invariant
            index <= methods@.len(),
            counts.hllc == occurrences(methods@.take(index as int), RiemannMethod::Hllc),
            counts.kurganov_tadmor == occurrences(
                methods@.take(index as int),
                RiemannMethod::KurganovTadmor,
            ),
            counts.exact == occurrences(methods@.take(index as int), RiemannMethod::Exact),
            counts.vacuum == occurrences(methods@.take(index as int), RiemannMethod::Vacuum),
        decreases methods@.len() - index,
    {
        proof {
            let shorter = methods@.take(index as int);
            assert(methods@.take(index + 1).drop_last() =~= shorter);
            lemma_occurrences_bounded(shorter, RiemannMethod::Hllc);
            lemma_occurrences_bounded(shorter, RiemannMethod::KurganovTadmor);
            lemma_occurrences_bounded(shorter, RiemannMethod::Exact);
            lemma_occurrences_bounded(shorter, RiemannMethod::Vacuum);
        }
        match methods[index] {
            RiemannMethod::Hllc => {
                counts.hllc = counts.hllc + 1;
            },
            RiemannMethod::KurganovTadmor => {
                counts.kurganov_tadmor = counts.kurganov_tadmor + 1;
            },
            RiemannMethod::Exact => {
                counts.exact = counts.exact + 1;
            },
            RiemannMethod::Vacuum => {
                counts.vacuum = counts.vacuum + 1;
            },
        }
        index = index + 1;
    }
    assert(methods@.take(methods@.len() as int) =~= methods@);
    proof {
        law_method_counts_add_up(methods@);
    }
    counts
}

/// The place of a solver in a table of counts.
pub fn method_index(method: RiemannMethod) -> (result: usize)
    ensures
        result == match method {
            RiemannMethod::Hllc => 0usize,
            RiemannMethod::KurganovTadmor => 1,
            RiemannMethod::Exact => 2,
            RiemannMethod::Vacuum => 3,
        },
        result < 4,
        result == 0 <==> method == RiemannMethod::Hllc,
        result == 3 <==> method == RiemannMethod::Vacuum,
        result == 2 <==> method == RiemannMethod::Exact,
{
    match method {
        RiemannMethod::Hllc => 0,
        RiemannMethod::KurganovTadmor => 1,
        RiemannMethod::Exact => 2,
        RiemannMethod::Vacuum => 3,
    }
}

/// Mark the neighbors that a set of targets asks to wake.
pub fn mark_wakeups(count: usize, wakeup_neighbors: &[usize]) -> (result: Vec<bool>)
    requires
        forall|k: int|
            0 <= k < wakeup_neighbors@.len() ==> (#[trigger] wakeup_neighbors@[k]) < count,
    ensures
        result@.len() == count,
        forall|i: int|
            0 <= i < count ==> (#[trigger] result@[i] <==> wakeup_neighbors@.contains(i as usize)),
{
    let mut wakeup: Vec<bool> = Vec::with_capacity(count);
    let mut index: usize = 0;
    while index < count
        invariant
            index <= count,
            wakeup@.len() == index,
            forall|k: int| 0 <= k < index ==> !(#[trigger] wakeup@[k]),
        decreases count - index,
    {
        wakeup.push(false);
        index = index + 1;
    }
    let mut at: usize = 0;
    while at < wakeup_neighbors.len()
        invariant
            at <= wakeup_neighbors@.len(),
            wakeup@.len() == count,
            forall|k: int|
                0 <= k < wakeup_neighbors@.len() ==> (#[trigger] wakeup_neighbors@[k]) < count,
            forall|i: int|
                0 <= i < count ==> (#[trigger] wakeup@[i] <==> exists|k: int|
                    0 <= k < at && #[trigger] wakeup_neighbors@[k] == i),
        decreases wakeup_neighbors@.len() - at,
    {
        let neighbor: usize = wakeup_neighbors[at];
        assert(wakeup_neighbors@[at as int] < count);
        let ghost before = wakeup@;
        wakeup.set(neighbor, true);
        assert forall|i: int| 0 <= i < count implies (#[trigger] wakeup@[i] <==> exists|k: int|
            0 <= k < at + 1 && #[trigger] wakeup_neighbors@[k] == i) by {
            assert(before[i] <==> exists|k: int| 0 <= k < at && #[trigger] wakeup_neighbors@[k] == i);
            if i == neighbor {
                assert(wakeup_neighbors@[at as int] == i);
            }
        }
        at = at + 1;
    }
    proof {
        assert forall|i: int| 0 <= i < count implies (#[trigger] wakeup@[i]
            <==> wakeup_neighbors@.contains(i as usize)) by {
            if wakeup@[i] {
                let k = choose|k: int|
                    0 <= k < wakeup_neighbors@.len() && #[trigger] wakeup_neighbors@[k] == i;
                assert(wakeup_neighbors@[k] == i as usize);
            }
            if wakeup_neighbors@.contains(i as usize) {
                let k = choose|k: int|
                    0 <= k < wakeup_neighbors@.len() && wakeup_neighbors@[k] == i as usize;
                assert(wakeup_neighbors@[k] == i);
            }
        }
    }
    wakeup
}

/// Never more workers are used than there are targets or than were asked for, and at least one
/// where there is a target.
pub proof fn law_used_workers(targets: int, requested: int)
    requires
        0 <= targets,
        0 <= requested,
    ensures
        used_workers(targets, requested) <= targets,
        requested >= 1 ==> used_workers(targets, requested) <= requested,
        targets >= 1 ==> used_workers(targets, requested) >= 1,
        used_workers(targets, requested) == targets || used_workers(targets, requested) == requested
            || used_workers(targets, requested) == 1,
        requested >= targets ==> used_workers(targets, requested) == targets,
        1 <= requested <= targets ==> used_workers(targets, requested) == requested,
{
}

/// The chunks are as short as they can be: as many as there are workers hold every target, and
/// one target fewer in each would leave some over.
pub proof fn law_chunk_lengths(targets: int, requested: int)
    requires
        1 <= targets,
        0 <= requested,
    ensures
        chunk_length(targets, requested) >= 1,
        chunk_length(targets, requested) * used_workers(targets, requested) >= targets,
        (chunk_length(targets, requested) - 1) * used_workers(targets, requested) < targets,
{
    let workers = used_workers(targets, requested);
    let length = chunk_length(targets, requested);
    vstd::arithmetic::div_mod::lemma_fundamental_div_mod(targets, workers);
    vstd::arithmetic::div_mod::lemma_mod_bound(targets, workers);
    let quotient = targets / workers;
    assert(workers * quotient == quotient * workers) by (nonlinear_arith);
    assert((quotient + 1) * workers == quotient * workers + workers) by (nonlinear_arith);
    assert((quotient - 1) * workers == quotient * workers - workers) by (nonlinear_arith);
    if quotient < 1 {
        assert(quotient * workers <= 0) by (nonlinear_arith)
            requires
                quotient < 1,
                workers >= 1,
        ;
    }
}

/// Joining keeps the order: one chunk is itself, and joining two lists of chunks one after the
/// other joins what each of them holds.
pub proof fn law_joining_chunks(left: Seq<Vec<usize>>, right: Seq<Vec<usize>>, chunk: Vec<usize>)
    ensures
        joined(seq![chunk]) == chunk@,
        joined(left + right) == joined(left) + joined(right),
        joined(Seq::<Vec<usize>>::empty()).len() == 0,
    decreases right.len(),
{
    reveal_with_fuel(joined, 2);
    assert(seq![chunk].drop_last() =~= Seq::<Vec<usize>>::empty());
    assert(joined(seq![chunk]) =~= chunk@);
    if right.len() == 0 {
        assert(left + right =~= left);
        assert(joined(left) + joined(right) =~= joined(left));
    } else {
        law_joining_chunks(left, right.drop_last(), chunk);
        assert((left + right).drop_last() =~= left + right.drop_last());
        assert(joined(left + right) =~= joined(left) + joined(right));
    }
}

/// The reported failure is one of the failures, and no other has a smaller ordinal or the same
/// ordinal earlier in the list.
pub proof fn law_earliest_failures(failures: Seq<Option<usize>>, at: int, k: int)
    requires
        is_earliest(failures, at),
        0 <= k < failures.len(),
        failures[k] is Some,
    ensures
        0 <= at < failures.len(),
        failures[at] is Some,
        failures[at]->0 <= failures[k]->0,
        k < at ==> failures[at]->0 < failures[k]->0,
        is_earliest(failures, k) ==> k == at,
{
}

/// A method is counted once for each time that it occurs.
pub proof fn law_occurrences(
    left: Seq<RiemannMethod>,
    right: Seq<RiemannMethod>,
    method: RiemannMethod,
    other: RiemannMethod,
)
    ensures
        occurrences(seq![method], method) == 1,
        other != method ==> occurrences(seq![other], method) == 0,
        occurrences(left + right, method) == occurrences(left, method) + occurrences(right, method),
        occurrences(Seq::empty(), method) == 0,
    decreases right.len(),
{
    reveal_with_fuel(occurrences, 2);
    assert(seq![method].drop_last() =~= Seq::<RiemannMethod>::empty());
    assert(seq![other].drop_last() =~= Seq::<RiemannMethod>::empty());
    if right.len() == 0 {
        assert(left + right =~= left);
    } else {
        law_occurrences(left, right.drop_last(), method, other);
        assert((left + right).drop_last() =~= left + right.drop_last());
    }
}

/// At most sixty-four workers are used.
pub proof fn law_worker_limit()
    ensures
        MAX_ACTIVE_TARGET_WORKERS == 64,
{
}

/// A method has a count exactly where it occurs.
pub proof fn law_counted_methods_occur(methods: Seq<RiemannMethod>, method: RiemannMethod)
    ensures
        0 <= occurrences(methods, method) <= methods.len(),
        occurrences(methods, method) > 0 <==> methods.contains(method),
    decreases methods.len(),
{
    if methods.len() > 0 {
        let shorter = methods.drop_last();
        law_counted_methods_occur(shorter, method);
        assert(methods =~= shorter.push(methods.last()));
        if methods.last() == method {
            assert(methods[methods.len() - 1] == method);
        }
        if shorter.contains(method) {
            let k = choose|k: int| 0 <= k < shorter.len() && shorter[k] == method;
            assert(methods[k] == method);
        }
        if methods.contains(method) && methods.last() != method {
            let k = choose|k: int| 0 <= k < methods.len() && methods[k] == method;
            assert(shorter[k] == method);
        }
    }
}

} // verus!
