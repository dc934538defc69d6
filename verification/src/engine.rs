//! The update engine: one pass over the electric field, then one pass over the
//! magnetic field, each defined item by item so that a sequential pass and a
//! pass handed out to workers index by index obey one boundary policy.
//!
//! Boundary policy. The electric field is written at the interior indices
//! `1 ..= n - 2` only. The magnetic field is written at every index that has a
//! right-hand electric neighbour, `0 ..= n - 2`, which is all of it.

use vstd::prelude::*;

verus! {

/// A sample rule accepts every triple `(current, ahead, behind)`.
pub open spec fn total<T, F: Fn(T, T, T) -> T>(step: F) -> bool {
    forall|cur: T, ahead: T, behind: T| call_requires(step, (cur, ahead, behind))
}

/// A sample rule returns one value for each triple.
pub open spec fn functional<T, F: Fn(T, T, T) -> T>(step: F) -> bool {
    forall|cur: T, ahead: T, behind: T, r1: T, r2: T|
        call_ensures(step, (cur, ahead, behind), r1) && call_ensures(step, (cur, ahead, behind), r2)
            ==> r1 == r2
}

/// Index `i` of the electric field is written: it is interior.
pub open spec fn ex_written(i: int, hy_len: int) -> bool {
    0 < i < hy_len
}

/// Index `i` of the magnetic field is written: it has a right-hand electric neighbour.
pub open spec fn hy_written(i: int, ex_len: int) -> bool {
    0 <= i && i + 1 < ex_len
}

/// `out` is an admissible new value of electric sample `i`.
pub open spec fn ex_item_spec<T, F: Fn(T, T, T) -> T>(
    step: F,
    i: int,
    cur: T,
    hy: Seq<T>,
    out: T,
) -> bool {
    if ex_written(i, hy.len() as int) {
        call_ensures(step, (cur, hy[i], hy[i - 1]), out)
    } else {
        out == cur
    }
}

/// `out` is an admissible new value of magnetic sample `i`.
pub open spec fn hy_item_spec<T, F: Fn(T, T, T) -> T>(
    step: F,
    i: int,
    cur: T,
    ex: Seq<T>,
    out: T,
) -> bool {
    if hy_written(i, ex.len() as int) {
        call_ensures(step, (cur, ex[i + 1], ex[i]), out)
    } else {
        out == cur
    }
}

/// `after` is an electric field that one update pass may leave behind.
pub open spec fn ex_updated<T, F: Fn(T, T, T) -> T>(
    step: F,
    before: Seq<T>,
    hy: Seq<T>,
    after: Seq<T>,
) -> bool {
    &&& after.len() == before.len()
    &&& forall|i: int|
        0 <= i < before.len() ==> ex_item_spec(step, i, before[i], hy, #[trigger] after[i])
}

/// `after` is a magnetic field that one update pass may leave behind.
pub open spec fn hy_updated<T, F: Fn(T, T, T) -> T>(
    step: F,
    before: Seq<T>,
    ex: Seq<T>,
    after: Seq<T>,
) -> bool {
    &&& after.len() == before.len()
    &&& forall|i: int|
        0 <= i < before.len() ==> hy_item_spec(step, i, before[i], ex, #[trigger] after[i])
}

/// The new value of electric sample `i`, whose current value is `cur`.
/// This is the unit of work of a pass that is split over workers.
pub fn ex_item<T: Copy, F: Fn(T, T, T) -> T>(i: usize, cur: T, hy: &Vec<T>, step: &F) -> (out: T)
    requires
        total(*step),
    ensures
        ex_item_spec(*step, i as int, cur, hy@, out),
{
    if 0 < i && i < hy.len() {
        step(cur, hy[i], hy[i - 1])
    } else {
        cur
    }
}

/// The new value of magnetic sample `i`, whose current value is `cur`.
/// This is the unit of work of a pass that is split over workers.
pub fn hy_item<T: Copy, F: Fn(T, T, T) -> T>(i: usize, cur: T, ex: &Vec<T>, step: &F) -> (out: T)
    requires
        total(*step),
    ensures
        hy_item_spec(*step, i as int, cur, ex@, out),
{
    if i < ex.len() && i + 1 < ex.len() {
        step(cur, ex[i + 1], ex[i])
    } else {
        cur
    }
}

/// One sequential pass over the electric field, in increasing index order.
pub fn update_ex<T: Copy, F: Fn(T, T, T) -> T>(ex: &mut Vec<T>, hy: &Vec<T>, step: &F)
    requires
        total(*step),
    ensures
        ex_updated(*step, old(ex)@, hy@, final(ex)@),
{
    let n: usize = ex.len();
    let mut i: usize = 0;
    while i < n
        invariant
            i <= n,
            ex.len() == n,
            n == old(ex).len(),
            total(*step),
            forall|j: int|
                0 <= j < i ==> ex_item_spec(*step, j, old(ex)@[j], hy@, #[trigger] ex@[j]),
            forall|j: int| i <= j < n ==> #[trigger] ex@[j] == old(ex)@[j],
        decreases n - i,
    {
        let cur: T = ex[i];
        let next: T = ex_item(i, cur, hy, step);
        ex.set(i, next);
        i += 1;
    }
}

/// One sequential pass over the magnetic field, in increasing index order.
pub fn update_hy<T: Copy, F: Fn(T, T, T) -> T>(hy: &mut Vec<T>, ex: &Vec<T>, step: &F)
    requires
        total(*step),
    ensures
        hy_updated(*step, old(hy)@, ex@, final(hy)@),
{
    let n: usize = hy.len();
    let mut i: usize = 0;
    while i < n
        invariant
            i <= n,
            hy.len() == n,
            n == old(hy).len(),
            total(*step),
            forall|j: int|
                0 <= j < i ==> hy_item_spec(*step, j, old(hy)@[j], ex@, #[trigger] hy@[j]),
            forall|j: int| i <= j < n ==> #[trigger] hy@[j] == old(hy)@[j],
        decreases n - i,
    {
        let cur: T = hy[i];
        let next: T = hy_item(i, cur, ex, step);
        hy.set(i, next);
        i += 1;
    }
}

} // verus!
