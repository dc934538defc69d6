//! The field state: two coupled arrays on a staggered grid.

use vstd::prelude::*;
use crate::engine::{ex_updated, hy_updated, total, update_ex, update_hy};
use crate::parallel::{par_update_ex, par_update_hy};

verus! {

/// The staggered shape: one magnetic sample between each two electric samples.
pub open spec fn staggered<T>(ex: Seq<T>, hy: Seq<T>) -> bool {
    hy.len() + 1 == ex.len()
}

/// One time step: the electric pass first, then the magnetic pass on the
/// electric field that the first pass left.
pub open spec fn ticked<T, F: Fn(T, T, T) -> T, G: Fn(T, T, T) -> T>(
    e_step: F,
    h_step: G,
    ex0: Seq<T>,
    hy0: Seq<T>,
    ex1: Seq<T>,
    hy1: Seq<T>,
) -> bool {
    &&& ex_updated(e_step, ex0, hy0, ex1)
    &&& hy_updated(h_step, hy0, ex1, hy1)
}

/// The electric samples `ex` and, half a step between them, the magnetic
/// samples `hy`. Neither array is ever resized.
pub struct FieldState<T> {
    ex: Vec<T>,
    hy: Vec<T>,
}

impl<T: Copy> FieldState<T> {
    /// The electric samples.
    pub closed spec fn ex_seq(&self) -> Seq<T> {
        self.ex@
    }

    /// The magnetic samples.
    pub closed spec fn hy_seq(&self) -> Seq<T> {
        self.hy@
    }

    /// The shape invariant.
    pub open spec fn wf(&self) -> bool {
        staggered(self.ex_seq(), self.hy_seq())
    }

    /// A grid of `n` electric samples shaped by `pulse` and `n - 1` magnetic
    /// samples at rest.
    pub fn new<P: Fn(usize) -> T>(n: usize, rest: T, pulse: &P) -> (s: Self)
        requires
            n >= 1,
            forall|i: usize| i < n ==> call_requires(*pulse, (i,)),
        ensures
            s.wf(),
            s.ex_seq().len() == n,
            forall|i: int| 0 <= i < n ==> call_ensures(*pulse, (i as usize,), #[trigger] s.ex_seq()[i]),
            forall|i: int| 0 <= i < n - 1 ==> #[trigger] s.hy_seq()[i] == rest,
    {
        let mut ex: Vec<T> = Vec::new();
        let mut hy: Vec<T> = Vec::new();
        let mut i: usize = 0;
        while i < n
            invariant
                i <= n,
                n >= 1,
                ex.len() == i,
                hy.len() == (if i == 0 { 0 } else { i - 1 }),
                forall|k: usize| k < n ==> call_requires(*pulse, (k,)),
                forall|k: int| 0 <= k < i ==> call_ensures(*pulse, (k as usize,), #[trigger] ex@[k]),
                forall|k: int| 0 <= k < hy.len() ==> #[trigger] hy@[k] == rest,
            decreases n - i,
        {
            if i > 0 {
                hy.push(rest);
            }
            let sample: T = pulse(i);
            ex.push(sample);
            i += 1;
        }
        FieldState { ex, hy }
    }

    /// The state made of two arrays, where they have the staggered shape.
    pub fn from_parts(ex: Vec<T>, hy: Vec<T>) -> (s: Option<Self>)
        ensures
            s.is_some() <==> staggered(ex@, hy@),
            s.is_some() ==> s.unwrap().wf() && s.unwrap().ex_seq() == ex@ && s.unwrap().hy_seq()
                == hy@,
    {
        if ex.len() >= 1 && hy.len() == ex.len() - 1 {
            Some(FieldState { ex, hy })
        } else {
            None
        }
    }

    /// The two arrays, electric first.
    pub fn into_parts(self) -> (parts: (Vec<T>, Vec<T>))
        ensures
            parts.0@ == self.ex_seq(),
            parts.1@ == self.hy_seq(),
    {
        (self.ex, self.hy)
    }

    /// The electric samples, on loan.
    pub fn ex(&self) -> (ex: &Vec<T>)
        ensures
            ex@ == self.ex_seq(),
    {
        &self.ex
    }

    /// The magnetic samples, on loan.
    pub fn hy(&self) -> (hy: &Vec<T>)
        ensures
            hy@ == self.hy_seq(),
    {
        &self.hy
    }

    /// The number of electric samples.
    pub fn size(&self) -> (n: usize)
        ensures
            n == self.ex_seq().len(),
    {
        self.ex.len()
    }

    /// One time step, sequentially: the electric pass, then the magnetic pass.
    /// The shape is kept and the two ends of the electric field are not written.
    pub fn tick<F: Fn(T, T, T) -> T, G: Fn(T, T, T) -> T>(&mut self, e_step: &F, h_step: &G)
        requires
            old(self).wf(),
            total(*e_step),
            total(*h_step),
        ensures
            final(self).wf(),
            ticked(
                *e_step,
                *h_step,
                old(self).ex_seq(),
                old(self).hy_seq(),
                final(self).ex_seq(),
                final(self).hy_seq(),
            ),
            final(self).ex_seq().first() == old(self).ex_seq().first(),
            final(self).ex_seq().last() == old(self).ex_seq().last(),
    {
        update_ex(&mut self.ex, &self.hy, e_step);
        update_hy(&mut self.hy, &self.ex, h_step);
        proof {
            crate::run::lemma_tick_keeps_ends(
                *e_step,
                *h_step,
                old(self).ex_seq(),
                old(self).hy_seq(),
                self.ex_seq(),
                self.hy_seq(),
            );
        }
    }

    /// One time step with the items of each pass handed out to the worker
    /// pool: the electric pass, and when all of it is written, the magnetic
    /// pass. It is the same step as `tick`.
    pub fn par_tick<F: Fn(T, T, T) -> T + Sync, G: Fn(T, T, T) -> T + Sync>(
        &mut self,
        e_step: &F,
        h_step: &G,
    ) where T: Send + Sync
        requires
            old(self).wf(),
            total(*e_step),
            total(*h_step),
        ensures
            final(self).wf(),
            ticked(
                *e_step,
                *h_step,
                old(self).ex_seq(),
                old(self).hy_seq(),
                final(self).ex_seq(),
                final(self).hy_seq(),
            ),
            final(self).ex_seq().first() == old(self).ex_seq().first(),
            final(self).ex_seq().last() == old(self).ex_seq().last(),
    {
        par_update_ex(&mut self.ex, &self.hy, e_step);
        par_update_hy(&mut self.hy, &self.ex, h_step);
        proof {
            crate::run::lemma_tick_keeps_ends(
                *e_step,
                *h_step,
                old(self).ex_seq(),
                old(self).hy_seq(),
                self.ex_seq(),
                self.hy_seq(),
            );
        }
    }
}

} // verus!
