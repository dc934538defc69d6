//! What holds of every run: the shape, the fixed ends, and that the result does
//! not depend on the order in which the items of a pass are computed.

use vstd::prelude::*;
use crate::engine::{ex_item_spec, ex_updated, functional, hy_item_spec, hy_updated};
use crate::field::{staggered, ticked};

verus! {

/// A run: a sequence of states, each one time step after the one before.
pub open spec fn is_run<T, F: Fn(T, T, T) -> T, G: Fn(T, T, T) -> T>(
    e_step: F,
    h_step: G,
    exs: Seq<Seq<T>>,
    hys: Seq<Seq<T>>,
) -> bool {
    &&& exs.len() >= 1
    &&& exs.len() == hys.len()
    &&& forall|k: int|
        0 <= k < exs.len() - 1 ==> ticked(
            e_step,
            h_step,
            #[trigger] exs[k],
            hys[k],
            exs[k + 1],
            hys[k + 1],
        )
}

/// Two electric passes from the same arrays, under a rule that returns one
/// value for each triple, leave the same array.
pub proof fn lemma_ex_pass_deterministic<T, F: Fn(T, T, T) -> T>(
    step: F,
    before: Seq<T>,
    hy: Seq<T>,
    a: Seq<T>,
    b: Seq<T>,
)
    requires
        functional(step),
        ex_updated(step, before, hy, a),
        ex_updated(step, before, hy, b),
    ensures
        a == b,
{
    assert forall|i: int| 0 <= i < a.len() implies a[i] == b[i] by {
        assert(ex_item_spec(step, i, before[i], hy, a[i]));
        assert(ex_item_spec(step, i, before[i], hy, b[i]));
    }
    assert(a =~= b);
}

/// Two magnetic passes from the same arrays, under a rule that returns one
/// value for each triple, leave the same array.
pub proof fn lemma_hy_pass_deterministic<T, F: Fn(T, T, T) -> T>(
    step: F,
    before: Seq<T>,
    ex: Seq<T>,
    a: Seq<T>,
    b: Seq<T>,
)
    requires
        functional(step),
        hy_updated(step, before, ex, a),
        hy_updated(step, before, ex, b),
    ensures
        a == b,
{
    assert forall|i: int| 0 <= i < a.len() implies a[i] == b[i] by {
        assert(hy_item_spec(step, i, before[i], ex, a[i]));
        assert(hy_item_spec(step, i, before[i], ex, b[i]));
    }
    assert(a =~= b);
}

/// A time step keeps the staggered shape and writes neither end of the
/// electric field.
pub proof fn lemma_tick_keeps_ends<T, F: Fn(T, T, T) -> T, G: Fn(T, T, T) -> T>(
    e_step: F,
    h_step: G,
    ex0: Seq<T>,
    hy0: Seq<T>,
    ex1: Seq<T>,
    hy1: Seq<T>,
)
    requires
        staggered(ex0, hy0),
        ticked(e_step, h_step, ex0, hy0, ex1, hy1),
    ensures
        staggered(ex1, hy1),
        ex1.first() == ex0.first(),
        ex1.last() == ex0.last(),
{
    let n = ex0.len() as int;
    assert(ex_item_spec(e_step, 0, ex0[0], hy0, ex1[0]));
    assert(ex_item_spec(e_step, n - 1, ex0[n - 1], hy0, ex1[n - 1]));
}

/// Two time steps from the same state, one computed in index order and one
/// assembled item by item in any order or partition, end in the same state
/// where each rule returns one value for each triple.
pub proof fn lemma_strategies_agree<T, F: Fn(T, T, T) -> T, G: Fn(T, T, T) -> T>(
    e_step: F,
    h_step: G,
    ex0: Seq<T>,
    hy0: Seq<T>,
    seq_ex: Seq<T>,
    seq_hy: Seq<T>,
    par_ex: Seq<T>,
    par_hy: Seq<T>,
)
    requires
        functional(e_step),
        functional(h_step),
        ticked(e_step, h_step, ex0, hy0, seq_ex, seq_hy),
        par_ex.len() == ex0.len(),
        par_hy.len() == hy0.len(),
        forall|i: int|
            0 <= i < ex0.len() ==> ex_item_spec(e_step, i, ex0[i], hy0, #[trigger] par_ex[i]),
        forall|i: int|
            0 <= i < hy0.len() ==> hy_item_spec(h_step, i, hy0[i], par_ex, #[trigger] par_hy[i]),
    ensures
        seq_ex == par_ex,
        seq_hy == par_hy,
{
    lemma_ex_pass_deterministic(e_step, ex0, hy0, seq_ex, par_ex);
    lemma_hy_pass_deterministic(h_step, hy0, seq_ex, seq_hy, par_hy);
}

/// Every state of a run that starts in the staggered shape has that shape,
/// and its electric field has the ends that the first state had.
pub proof fn lemma_run_invariant<T, F: Fn(T, T, T) -> T, G: Fn(T, T, T) -> T>(
    e_step: F,
    h_step: G,
    exs: Seq<Seq<T>>,
    hys: Seq<Seq<T>>,
    k: int,
)
    requires
        is_run(e_step, h_step, exs, hys),
        staggered(exs[0], hys[0]),
        0 <= k < exs.len(),
    ensures
        staggered(exs[k], hys[k]),
        exs[k].len() == exs[0].len(),
        exs[k].first() == exs[0].first(),
        exs[k].last() == exs[0].last(),
    decreases k,
{
    if k > 0 {
        lemma_run_invariant(e_step, h_step, exs, hys, k - 1);
        assert(ticked(e_step, h_step, exs[k - 1], hys[k - 1], exs[k - 1 + 1], hys[k - 1 + 1]));
        lemma_tick_keeps_ends(e_step, h_step, exs[k - 1], hys[k - 1], exs[k], hys[k]);
    }
}

/// Two runs of the same number of steps from the same state, under rules that
/// return one value for each triple, pass through the same states.
pub proof fn lemma_run_deterministic<T, F: Fn(T, T, T) -> T, G: Fn(T, T, T) -> T>(
    e_step: F,
    h_step: G,
    exs_a: Seq<Seq<T>>,
    hys_a: Seq<Seq<T>>,
    exs_b: Seq<Seq<T>>,
    hys_b: Seq<Seq<T>>,
    k: int,
)
    requires
        functional(e_step),
        functional(h_step),
        is_run(e_step, h_step, exs_a, hys_a),
        is_run(e_step, h_step, exs_b, hys_b),
        exs_a.len() == exs_b.len(),
        exs_a[0] == exs_b[0],
        hys_a[0] == hys_b[0],
        0 <= k < exs_a.len(),
    ensures
        exs_a[k] == exs_b[k],
        hys_a[k] == hys_b[k],
    decreases k,
{
    if k > 0 {
        lemma_run_deterministic(e_step, h_step, exs_a, hys_a, exs_b, hys_b, k - 1);
        assert(ticked(e_step, h_step, exs_a[k - 1], hys_a[k - 1], exs_a[k - 1 + 1], hys_a[k - 1 + 1]));
        assert(ticked(e_step, h_step, exs_b[k - 1], hys_b[k - 1], exs_b[k - 1 + 1], hys_b[k - 1 + 1]));
        lemma_ex_pass_deterministic(e_step, exs_a[k - 1], hys_a[k - 1], exs_a[k], exs_b[k]);
        lemma_hy_pass_deterministic(h_step, hys_a[k - 1], exs_a[k], hys_a[k], hys_b[k]);
    }
}

} // verus!
