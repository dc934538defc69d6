//! The update passes with their items handed out to a pool of workers: each
//! worker writes only the items it was given, and a pass returns once all of
//! them are written.

use vstd::prelude::*;
use rayon::iter::{IndexedParallelIterator, IntoParallelRefMutIterator, ParallelIterator};
use crate::engine::{ex_item, ex_item_spec, ex_updated, hy_item, hy_item_spec, hy_updated, total};

verus! {

/// Runs `rayon`'s `par_iter_mut().enumerate().for_each(..)` over `v`. The
/// contract claims what `rayon` documents of the three: every item is visited
/// once, together with its index, the vector keeps its length, and the call
/// returns after the last visit. Each item is replaced by what `item` returns
/// for its index and the value found there. This is believed, not proved.
#[verifier::external_body]
fn for_each_indexed<T: Copy + Send, G: Fn(usize, T) -> T + Sync>(v: &mut Vec<T>, item: &G)
    requires
        forall|i: usize|
            i < old(v)@.len() ==> call_requires(*item, (i, #[trigger] old(v)@[i as int])),
    ensures
        final(v)@.len() == old(v)@.len(),
        forall|i: usize|
            i < old(v)@.len() ==> call_ensures(
                *item,
                (i, old(v)@[i as int]),
                #[trigger] final(v)@[i as int],
            ),
{
    v.par_iter_mut().enumerate().for_each(|(i, x)| *x = item(i, *x));
}

/// One pass over the electric field, its items computed by the worker pool.
/// It leaves what the sequential pass leaves.
pub fn par_update_ex<T: Copy + Send + Sync, F: Fn(T, T, T) -> T + Sync>(
    ex: &mut Vec<T>,
    hy: &Vec<T>,
    step: &F,
)
    requires
        total(*step),
    ensures
        ex_updated(*step, old(ex)@, hy@, final(ex)@),
{
    let item = |i: usize, cur: T| -> (out: T)
        ensures
            ex_item_spec(*step, i as int, cur, hy@, out),
        { ex_item(i, cur, hy, step) };
    for_each_indexed(ex, &item);
    assert forall|i: int| 0 <= i < old(ex)@.len() implies ex_item_spec(
        *step,
        i,
        old(ex)@[i],
        hy@,
        #[trigger] ex@[i],
    ) by {
        assert(old(ex)@.len() == old(ex).len());
        let k = i as usize;
        assert(call_ensures(item, (k, old(ex)@[k as int]), ex@[k as int]));
    }
}

/// One pass over the magnetic field, its items computed by the worker pool.
/// It leaves what the sequential pass leaves.
pub fn par_update_hy<T: Copy + Send + Sync, F: Fn(T, T, T) -> T + Sync>(
    hy: &mut Vec<T>,
    ex: &Vec<T>,
    step: &F,
)
    requires
        total(*step),
    ensures
        hy_updated(*step, old(hy)@, ex@, final(hy)@),
{
    let item = |i: usize, cur: T| -> (out: T)
        ensures
            hy_item_spec(*step, i as int, cur, ex@, out),
        { hy_item(i, cur, ex, step) };
    for_each_indexed(hy, &item);
    assert forall|i: int| 0 <= i < old(hy)@.len() implies hy_item_spec(
        *step,
        i,
        old(hy)@[i],
        ex@,
        #[trigger] hy@[i],
    ) by {
        assert(old(hy)@.len() == old(hy).len());
        let k = i as usize;
        assert(call_ensures(item, (k, old(hy)@[k as int]), hy@[k as int]));
    }
}

} // verus!
