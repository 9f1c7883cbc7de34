//! Bulk recomputation over the dependency graph.
//!
//! The dependency edges recorded in `eq_reads` form a directed acyclic
//! graph; `spec_order` fixes one topological order over the thirty derived
//! parameters.  `recompute_all` walks that order once, recomputing each
//! derived value from values that are already up to date.  Because the order
//! is consistent with the edges, one pass reaches a fixed point: running it
//! again changes nothing, which `lemma_recompute_idempotent` proves.

use vstd::prelude::*;

use crate::equations::{eq_eval, eq_reads, eval_equation, lemma_eq_eval_frame, Equation};
use crate::params::{param_derivation, param_name, pm_with_value, vals, ParamModel, Parameters, N_PARAMS};

verus! {

/// How many parameters are derived.
pub const N_DERIVED: usize = 30;

/// The parameter index recomputed at each step of the pass.
pub open spec fn spec_order(k: int) -> int {
    if k == 0 {
        1
    } else if k == 1 {
        6
    } else if k == 2 {
        7
    } else if k == 3 {
        9
    } else if k == 4 {
        11
    } else if k == 5 {
        12
    } else if k == 6 {
        16
    } else if k == 7 {
        15
    } else if k == 8 {
        14
    } else if k == 9 {
        17
    } else if k == 10 {
        18
    } else if k == 11 {
        19
    } else if k == 12 {
        20
    } else if k == 13 {
        22
    } else if k == 14 {
        25
    } else if k == 15 {
        27
    } else if k == 16 {
        29
    } else if k == 17 {
        33
    } else if k == 18 {
        32
    } else if k == 19 {
        34
    } else if k == 20 {
        31
    } else if k == 21 {
        23
    } else if k == 22 {
        36
    } else if k == 23 {
        35
    } else if k == 24 {
        37
    } else if k == 25 {
        38
    } else if k == 26 {
        39
    } else if k == 27 {
        40
    } else if k == 28 {
        41
    } else {
        42
    }
}

/// The step at which a parameter index is recomputed; -1 for an independent
/// input.
pub open spec fn pos_of(i: int) -> int {
    if i == 1 {
        0
    } else if i == 6 {
        1
    } else if i == 7 {
        2
    } else if i == 9 {
        3
    } else if i == 11 {
        4
    } else if i == 12 {
        5
    } else if i == 16 {
        6
    } else if i == 15 {
        7
    } else if i == 14 {
        8
    } else if i == 17 {
        9
    } else if i == 18 {
        10
    } else if i == 19 {
        11
    } else if i == 20 {
        12
    } else if i == 22 {
        13
    } else if i == 25 {
        14
    } else if i == 27 {
        15
    } else if i == 29 {
        16
    } else if i == 33 {
        17
    } else if i == 32 {
        18
    } else if i == 34 {
        19
    } else if i == 31 {
        20
    } else if i == 23 {
        21
    } else if i == 36 {
        22
    } else if i == 35 {
        23
    } else if i == 37 {
        24
    } else if i == 38 {
        25
    } else if i == 39 {
        26
    } else if i == 40 {
        27
    } else if i == 41 {
        28
    } else if i == 42 {
        29
    } else {
        -1
    }
}

/// The equation applied at each step: the derivation of the parameter at
/// that step's index.
pub open spec fn step_eq(k: int) -> Equation {
    param_derivation(spec_order(k))->Some_0
}

/// One recomputation step: overwrite the value at this step's index with
/// its equation evaluated against the current values.
pub open spec fn recompute_step(s: Seq<ParamModel>, k: int) -> Seq<ParamModel> {
    let i = spec_order(k);
    s.update(i, pm_with_value(s[i], eq_eval(step_eq(k), vals(s))))
}

/// The first `k` recomputation steps, in order.
pub open spec fn recompute_upto(s: Seq<ParamModel>, k: int) -> Seq<ParamModel>
    decreases k,
{
    if k <= 0 {
        s
    } else {
        recompute_step(recompute_upto(s, k - 1), k - 1)
    }
}

/// One whole recomputation pass.
pub open spec fn spec_recompute(s: Seq<ParamModel>) -> Seq<ParamModel> {
    recompute_upto(s, N_DERIVED as int)
}

/// The order table and the position table are inverse, the order stays in
/// bounds, and each ordered index carries the equation of its step.
proof fn lemma_order_tables(k: int)
    requires
        0 <= k < N_DERIVED,
    ensures
        0 <= spec_order(k) < N_PARAMS,
        pos_of(spec_order(k)) == k,
        param_derivation(spec_order(k)) == Some(step_eq(k)),
{
}

/// The order is topological: every dependency of the step-`k` equation is
/// either an independent input or recomputed at an earlier step.
proof fn lemma_order_topological(k: int, j: int)
    requires
        0 <= k < N_DERIVED,
        eq_reads(step_eq(k), j),
    ensures
        0 <= j < N_PARAMS,
        pos_of(j) < k,
{
}

/// Recomputation preserves the arena length.
proof fn lemma_upto_len(s: Seq<ParamModel>, k: int)
    requires
        s.len() == N_PARAMS,
        0 <= k <= N_DERIVED,
    ensures
        recompute_upto(s, k).len() == N_PARAMS,
    decreases k,
{
    if k > 0 {
        lemma_upto_len(s, k - 1);
    }
}

/// A parameter recomputed before step `k` (or never) keeps its value from
/// step `k` to step `m`.
proof fn lemma_value_stable(s: Seq<ParamModel>, j: int, k: int, m: int)
    requires
        s.len() == N_PARAMS,
        0 <= j < N_PARAMS,
        pos_of(j) < k,
        0 <= k <= m <= N_DERIVED,
    ensures
        recompute_upto(s, m)[j] == recompute_upto(s, k)[j],
    decreases m - k,
{
    if m > k {
        lemma_value_stable(s, j, k, m - 1);
        lemma_upto_len(s, m - 1);
        lemma_order_tables(m - 1);
        assert(spec_order(m - 1) != j);
    }
}

/// After the pass, each derived parameter holds exactly its equation
/// evaluated against the values that stood when its step ran.
proof fn lemma_pass_value(s: Seq<ParamModel>, k: int)
    requires
        s.len() == N_PARAMS,
        0 <= k < N_DERIVED,
    ensures
        spec_recompute(s)[spec_order(k)].value == eq_eval(
            step_eq(k),
            vals(recompute_upto(s, k)),
        ),
{
    lemma_order_tables(k);
    lemma_upto_len(s, k);
    let i = spec_order(k);
    assert(recompute_upto(s, k + 1) == recompute_step(recompute_upto(s, k), k));
    assert(recompute_upto(s, k + 1)[i].value == eq_eval(step_eq(k), vals(recompute_upto(s, k))));
    lemma_value_stable(s, i, k + 1, N_DERIVED as int);
}

/// The values an equation reads at its step are final: they agree with the
/// values after the whole pass.
proof fn lemma_deps_final(s: Seq<ParamModel>, k: int)
    requires
        s.len() == N_PARAMS,
        0 <= k < N_DERIVED,
    ensures
        eq_eval(step_eq(k), vals(spec_recompute(s))) == eq_eval(
            step_eq(k),
            vals(recompute_upto(s, k)),
        ),
{
    lemma_upto_len(s, k);
    let a = vals(spec_recompute(s));
    let b = vals(recompute_upto(s, k));
    assert forall|j: int| #[trigger] eq_reads(step_eq(k), j) implies a[j] == b[j] by {
        lemma_order_topological(k, j);
        lemma_value_stable(s, j, k, N_DERIVED as int);
        lemma_upto_len(s, N_DERIVED as int);
        assert(a[j] == spec_recompute(s)[j].value);
        assert(b[j] == recompute_upto(s, k)[j].value);
    }
    lemma_eq_eval_frame(step_eq(k), a, b);
}

/// Dependency ordering: one topologically-ordered pass reaches a fixed
/// point, so recomputing a second time changes no value.
pub proof fn lemma_recompute_idempotent(s: Seq<ParamModel>)
    requires
        s.len() == N_PARAMS,
    ensures
        spec_recompute(spec_recompute(s)) == spec_recompute(s),
{
    let t = spec_recompute(s);
    lemma_upto_len(s, N_DERIVED as int);
    assert forall|k: int| 0 <= k <= N_DERIVED implies recompute_upto(t, k) =~= t by {
        lemma_second_pass_prefix(s, k);
    }
    assert(recompute_upto(t, N_DERIVED as int) =~= t);
}

/// Every prefix of the second pass leaves the state of the first pass
/// untouched.
proof fn lemma_second_pass_prefix(s: Seq<ParamModel>, k: int)
    requires
        s.len() == N_PARAMS,
        0 <= k <= N_DERIVED,
    ensures
        recompute_upto(spec_recompute(s), k) == spec_recompute(s),
    decreases k,
{
    let t = spec_recompute(s);
    lemma_upto_len(s, N_DERIVED as int);
    if k > 0 {
        lemma_second_pass_prefix(s, k - 1);
        lemma_order_tables(k - 1);
        let i = spec_order(k - 1);
        lemma_deps_final(s, k - 1);
        lemma_pass_value(s, k - 1);
        assert(eq_eval(step_eq(k - 1), vals(t)) == t[i].value);
        assert(recompute_upto(t, k) == recompute_step(t, k - 1));
        assert(pm_with_value(t[i], t[i].value) == t[i]);
        assert(recompute_step(t, k - 1) =~= t);
    }
}

/// The parameter index recomputed at each step of the pass.
fn order_index(k: usize) -> (i: usize)
    requires
        k < N_DERIVED,
    ensures
        i as int == spec_order(k as int),
        i < N_PARAMS,
{
    proof {
        lemma_order_tables(k as int);
    }
    if k == 0 {
        1
    } else if k == 1 {
        6
    } else if k == 2 {
        7
    } else if k == 3 {
        9
    } else if k == 4 {
        11
    } else if k == 5 {
        12
    } else if k == 6 {
        16
    } else if k == 7 {
        15
    } else if k == 8 {
        14
    } else if k == 9 {
        17
    } else if k == 10 {
        18
    } else if k == 11 {
        19
    } else if k == 12 {
        20
    } else if k == 13 {
        22
    } else if k == 14 {
        25
    } else if k == 15 {
        27
    } else if k == 16 {
        29
    } else if k == 17 {
        33
    } else if k == 18 {
        32
    } else if k == 19 {
        34
    } else if k == 20 {
        31
    } else if k == 21 {
        23
    } else if k == 22 {
        36
    } else if k == 23 {
        35
    } else if k == 24 {
        37
    } else if k == 25 {
        38
    } else if k == 26 {
        39
    } else if k == 27 {
        40
    } else if k == 28 {
        41
    } else {
        42
    }
}

impl Parameters {
    /// Recompute every derived parameter, in an order consistent with the
    /// dependency graph, overwriting each value in place.  Names, units,
    /// bounds, precisions and derivations are untouched.
    pub fn recompute_all(&mut self)
        requires
            old(self).wf(),
        ensures
            final(self).wf(),
            final(self)@ == spec_recompute(old(self)@),
    {
        let ghost s0 = self@;
        let mut k: usize = 0;
        while k < N_DERIVED
            invariant
                self.wf(),
                k <= N_DERIVED,
                s0.len() == N_PARAMS,
                self@ =~= recompute_upto(s0, k as int),
            decreases N_DERIVED - k,
        {
            let i = order_index(k);
            proof {
                lemma_order_tables(k as int);
                lemma_upto_len(s0, k as int);
            }
            match self.params[i].derivation {
                Some(e) => {
                    proof {
                        assert(self@[i as int].derivation == param_derivation(i as int));
                        assert(e == step_eq(k as int));
                    }
                    let nv = eval_equation(e, self);
                    let ghost before = self@;
                    self.set_value_at(i, nv);
                    proof {
                        assert(self@ =~= recompute_step(before, k as int));
                        assert forall|j: int| 0 <= j < N_PARAMS implies (#[trigger] self@[j]).name
                            == param_name(j) && self@[j].derivation == param_derivation(j) by {
                            assert(before[j].name == param_name(j));
                            assert(before[j].derivation == param_derivation(j));
                        }
                    }
                },
                None => {
                    proof {
                        assert(self@[i as int].derivation == param_derivation(i as int));
                        assert(false);
                    }
                },
            }
            k = k + 1;
        }
        proof {
            assert(self@ =~= recompute_upto(s0, N_DERIVED as int));
        }
    }
}

} // verus!
