//! What holds of the library as a whole: SumCheck and SumFold proofs made by the
//! honest provers are accepted by the verifiers, the folded instance's claim is its
//! true sum, the two SumFold provers agree, the claimed sums reach only the folded
//! claim, the merge of the parties' proofs is the merge of their element-wise sum
//! and does not depend on their order, the eq table holds `eq(r, b)` and fixing
//! every variable evaluates a multilinear extension, the network check accepts
//! the parties' honest answers, and the verifiers refuse what breaks any of their
//! checks: a round of any position, a disagreeing party, an inconsistent folded
//! claim, a wrong response of any party.

use vstd::prelude::*;
use vstd::arithmetic::div_mod::*;
use vstd::arithmetic::mul::*;
use vstd::arithmetic::power2::*;
use crate::algebra::{
    lemma_field_units, lemma_fmul_assoc, lemma_fmul_comm, lemma_fsum_blocks,
    lemma_fsum_scale, lemma_fsum_swap,
};
use crate::field::{Fe, fadd, fe_vals, finv, fmul, fsub, fsum, lemma_fsum_ext, modulus};
use crate::poly::{VirtualPolynomial, all_field, eq_eval, eq_vec, fix_many, interpolation};
use crate::roundpoly::{
    hyper_sum, lemma_run_checks, lemma_run_state, lemma_verifier_replays, opt_field, point_at,
    poly_at, prods_fit, run_wf, tables_field,
};
use crate::snark::{
    combined_msgs, combined_sum_t, combined_v, expected_response, first_bad_response,
    first_invalid, merge_verdict, msg_entry, num_rounds,
};
use crate::structs::SumFoldProof;
use crate::sumcheck::{
    IOPProof, PolyIOPErrors, aux_bytes, aux_label, degree_fits, init_ops, msg_vals, ops_with_aux,
    prover_run, run_rounds, sumcheck_verdict, verifier_rounds,
};
use crate::sumfold::{
    fold_aux, folded_sum, instance_tables, interleave, interleaved_tables, is_pow2, log2_of,
    rho_label, sumfold_inputs, sumfold_result, sumfold_run, sumfold_verifier_view,
};
use crate::transcript::{TranscriptOp, challenge_values, message_op, ops_after_challenges};

verus! {

// ---------------------------------------------------------------------------
// Sums and evaluations of virtual polynomials
// ---------------------------------------------------------------------------

/// The sum of a virtual polynomial over the boolean hypercube.
pub open spec fn poly_sum(poly: VirtualPolynomial) -> nat {
    hyper_sum(poly.tables(), None, poly.prods(), pow2(poly.aux_info.num_variables as nat))
}

/// A virtual polynomial at the point `r`: its products over the tables with every
/// variable fixed to `r`.
pub open spec fn poly_eval_at(poly: VirtualPolynomial, r: Seq<nat>) -> nat {
    poly_at(Seq::new(poly.tables().len(), |j: int| fix_many(poly.tables()[j], r)), poly.prods(), 0)
}

/// The tables and coefficients of a virtual polynomial hold field values.
proof fn lemma_vp_field(poly: VirtualPolynomial)
    ensures
        tables_field(poly.tables()),
        forall|p: int| 0 <= p < poly.prods().len() ==> (#[trigger] poly.prods()[p]).0 < modulus(),
{
    assert forall|j: int, k: int| 0 <= j < poly.tables().len() && 0 <= k < poly.tables()[j].len()
        implies #[trigger] poly.tables()[j][k] < modulus() by {
        poly.flattened_ml_extensions@[j].evaluations@[k].lemma_val_bound();
    }
    assert forall|p: int| 0 <= p < poly.prods().len() implies (#[trigger] poly.prods()[p]).0 < modulus() by {
        poly.products@[p].0.lemma_val_bound();
    }
}

/// The eq table holds field values.
proof fn lemma_eq_vec_field(r: Seq<nat>)
    ensures
        all_field(eq_vec(r)),
    decreases r.len(),
{
    if r.len() > 0 {
        lemma_eq_vec_field(r.drop_first());
    }
}

/// A sum of one field value is that value.
proof fn lemma_fsum_one(x: nat)
    requires
        x < modulus(),
    ensures
        fsum(seq![x]) == x,
{
    assert(seq![x].drop_last() =~= Seq::<nat>::empty());
    assert(fsum(Seq::<nat>::empty()) == 0);
    assert(fsum(seq![x]) == fadd(fsum(seq![x].drop_last()), x));
    lemma_field_units(x);
}

// ---------------------------------------------------------------------------
// SumCheck
// ---------------------------------------------------------------------------

/// SumCheck is complete and its first check sound: on the messages the prover
/// sends for `poly` from a transcript that has absorbed `ops`, a verifier starting
/// from the same transcript derives the prover's challenges and ends with the
/// prover's transcript; the first message's values at zero and one add up to the
/// sum of `poly` over the hypercube (what `extract_sum` returns); and the verdict on
/// a claimed sum is `poly` at the challenge point when the claim is that sum, and
/// `InvalidProof` when it is not.
#[verifier::spinoff_prover]
pub proof fn law_sumcheck_complete(poly: VirtualPolynomial, ops: Seq<TranscriptOp>, claimed: nat)
    requires
        poly.wf(),
        poly.aux_info.num_variables >= 1,
        poly.aux_info.max_degree >= 1,
        degree_fits(poly.aux_info.max_degree as nat),
    ensures
        ({
            let s = prover_run(&poly, ops);
            let n = poly.aux_info.num_variables as nat;
            let d = poly.aux_info.max_degree as nat;
            let (chals, vops) = verifier_rounds(ops_with_aux(ops, poly.aux_info), s.msgs, n);
            &&& chals == s.chals
            &&& vops == s.ops
            &&& fadd(s.msgs[0][0], s.msgs[0][1]) == poly_sum(poly)
            &&& sumcheck_verdict(claimed, s.msgs, chals, n, d) == if claimed == poly_sum(poly) {
                Ok::<nat, PolyIOPErrors>(poly_eval_at(poly, chals))
            } else {
                Err::<nat, PolyIOPErrors>(PolyIOPErrors::InvalidProof)
            }
        }),
{
    let ts = poly.tables();
    let prods = poly.prods();
    let n = poly.aux_info.num_variables as nat;
    let d = poly.aux_info.max_degree as nat;
    let size = pow2(n);
    let ops1 = ops_with_aux(ops, poly.aux_info);
    let s = prover_run(&poly, ops);
    crate::upoly::lemma_lagrange_defined(d + 1);
    lemma_vp_field(poly);
    assert(run_wf(ts, None, prods, size, n, 0)) by {
        assert(n + 0 == n);
        assert forall|p: int, q: int| 0 <= p < prods.len() && 0 <= q < prods[p].1.len()
            implies (#[trigger] prods[p].1[q]) < ts.len() by {}
    }
    assert(prods_fit(prods, d));
    lemma_verifier_replays(ts, None, prods, d, size, ops1, n, n);
    lemma_run_checks(ts, None, prods, d, size, ops1, n, 0, d);
    lemma_run_state(ts, None, prods, d, size, ops1, n, 0, n);
    crate::sumcheck::lemma_run_rounds_len(ts, None, prods, d, size, ops1, n);
    crate::sumcheck::lemma_run_rounds_msg_len(ts, None, prods, d, size, ops1, n);
    crate::sumcheck::lemma_run_rounds_tables(ts, None, prods, d, size, ops1, n);
    // the last round leaves one entry: the polynomial at the challenge point
    assert((n - n) as nat + 0 == 0);
    lemma2_to64();
    let fin = Seq::new(ts.len(), |j: int| fix_many(ts[j], s.chals));
    assert(s.tables == fin);
    let last = poly_at(fin, prods, 0);
    assert(Seq::new(1, |x: int| point_at(s.tables, s.eqt, prods, x)) =~= seq![last]);
    lemma_fsum_one(last);
    assert(interpolation(s.msgs[n - 1], s.chals[n - 1]) == poly_eval_at(poly, s.chals));
    // the verdict
    assert(!(exists|i: int| 0 <= i < n && (#[trigger] s.msgs[i]).len() != d + 1));
    if claimed == poly_sum(poly) {
        assert forall|i: int| 0 <= i < n implies fadd((#[trigger] s.msgs[i])[0], s.msgs[i][1])
            == crate::sumcheck::expected_at(claimed, s.msgs, s.chals, i) by {}
    } else {
        assert(fadd(s.msgs[0][0], s.msgs[0][1]) != crate::sumcheck::expected_at(claimed, s.msgs, s.chals, 0));
    }
}

// ---------------------------------------------------------------------------
// SumFold
// ---------------------------------------------------------------------------

/// `sum_{i < m} g(y, i)`.
pub open spec fn row_sum(g: spec_fn(int, int) -> nat, y: int, m: nat) -> nat {
    fsum(Seq::new(m, |i: int| g(y, i)))
}

/// `sum_{y < n} g(y, i)`.
pub open spec fn col_sum(g: spec_fn(int, int) -> nat, i: int, n: nat) -> nat {
    fsum(Seq::new(n, |y: int| g(y, i)))
}

/// The first round of SumFold: the weighted sum over the interleaved tables is
/// the sum of the instances' sums, each weighted by `eq(rho, i)`.
#[verifier::spinoff_prover]
proof fn lemma_interleaved_sum(
    ps: Seq<Seq<Seq<nat>>>,
    t: nat,
    w: Seq<nat>,
    prods: Seq<(nat, Seq<usize>)>,
    m: nat,
    size: nat,
)
    requires
        m >= 1,
        ps.len() == m,
        w.len() == m,
        forall|p: int, q: int|
            0 <= p < prods.len() && 0 <= q < prods[p].1.len() ==> (#[trigger] prods[p].1[q]) < t,
        forall|i: int, j: int| 0 <= i < m && 0 <= j < t ==> (#[trigger] ps[i][j]).len() == size,
    ensures
        hyper_sum(interleaved_tables(ps, t, m, size), Some(w), prods, m * size) == folded_sum(
            w,
            Seq::new(m, |i: int| hyper_sum(ps[i], None, prods, size)),
            m,
        ),
{
    let ilv = interleaved_tables(ps, t, m, size);
    let g = |x: int| point_at(ilv, Some(w), prods, x);
    let g2 = |y: int, i: int| point_at(ilv, Some(w), prods, y * m + i);
    let gg = |y: int, i: int| fmul(w[i], poly_at(ps[i], prods, y));
    // entry y m + i of the interleaved tables is entry y of instance i
    assert forall|y: int, i: int| 0 <= y < size && 0 <= i < m implies point_at(ilv, Some(w), prods, y * m + i)
        == fmul(w[i], #[trigger] poly_at(ps[i], prods, y)) by {
        let x = y * m + i;
        lemma_fundamental_div_mod_converse(x, m as int, y, i);
        lemma_mul_is_commutative(y, m as int);
        assert(x < m * size) by (nonlinear_arith)
            requires
                0 <= y < size,
                0 <= i < m,
                x == y * m + i,
        ;
        assert forall|p: int| 0 <= p < prods.len() implies #[trigger] fprod_at(ilv, prods, p, x) == fprod_at(
            ps[i],
            prods,
            p,
            y,
        ) by {
            let idx = prods[p].1;
            assert forall|q: int| 0 <= q < idx.len() implies #[trigger] ilv[idx[q] as int][x]
                == ps[i][idx[q] as int][y] by {
                assert(idx[q] < t);
            }
            crate::field::lemma_fprod_ext(
                Seq::new(idx.len(), |q: int| ilv[idx[q] as int][x]),
                Seq::new(idx.len(), |q: int| ps[i][idx[q] as int][y]),
            );
        }
        lemma_fsum_ext(
            Seq::new(prods.len(), |p: int| fmul(prods[p].0, fprod_at(ilv, prods, p, x))),
            Seq::new(prods.len(), |p: int| fmul(prods[p].0, fprod_at(ps[i], prods, p, y))),
        );
        assert(Seq::new(prods.len(), |p: int| fmul(prods[p].0, fprod_at(ilv, prods, p, x))) =~= Seq::new(
            prods.len(),
            |p: int| fmul(prods[p].0, crate::field::fprod(Seq::new(prods[p].1.len(), |q: int| ilv[prods[p].1[q] as int][x]))),
        ));
        assert(Seq::new(prods.len(), |p: int| fmul(prods[p].0, fprod_at(ps[i], prods, p, y))) =~= Seq::new(
            prods.len(),
            |p: int| fmul(prods[p].0, crate::field::fprod(Seq::new(prods[p].1.len(), |q: int| ps[i][prods[p].1[q] as int][y]))),
        ));
    }
    // regroup the entries into blocks of m, exchange the sums, and pull out the weights
    lemma_mul_is_commutative(m as int, size as int);
    lemma_fsum_blocks(size, m, g);
    assert forall|y: int| 0 <= y < size implies #[trigger] row_sum(g2, y, m) == row_sum(gg, y, m) by {
        assert forall|i: int| 0 <= i < m implies #[trigger] g2(y, i) == gg(y, i) by {
            assert(point_at(ilv, Some(w), prods, y * m + i) == fmul(w[i], poly_at(ps[i], prods, y)));
        }
        lemma_fsum_ext(Seq::new(m, |i: int| g2(y, i)), Seq::new(m, |i: int| gg(y, i)));
    }
    lemma_fsum_ext(
        Seq::new(size, |y: int| row_sum(g2, y, m)),
        Seq::new(size, |y: int| row_sum(gg, y, m)),
    );
    assert(Seq::new(size, |y: int| row_sum(g2, y, m)) =~= Seq::new(
        size,
        |y: int| fsum(Seq::new(m, |i: int| g(y * m + i))),
    )) by {
        assert forall|y: int| 0 <= y < size implies #[trigger] row_sum(g2, y, m) == fsum(
            Seq::new(m, |i: int| g(y * m + i)),
        ) by {
            assert(Seq::new(m, |i: int| g2(y, i)) =~= Seq::new(m, |i: int| g(y * m + i)));
        }
    }
    lemma_fsum_swap(size, m, gg);
    assert(Seq::new(size, |y: int| row_sum(gg, y, m)) =~= Seq::new(
        size,
        |y: int| fsum(Seq::new(m, |i: int| gg(y, i))),
    ));
    let sums = Seq::new(m, |i: int| hyper_sum(ps[i], None, prods, size));
    assert forall|i: int| 0 <= i < m implies #[trigger] col_sum(gg, i, size) == fmul(w[i], sums[i]) by {
        let pi = |y: int| poly_at(ps[i], prods, y);
        lemma_fsum_scale(size, w[i], pi);
        let a = Seq::new(size, |y: int| gg(y, i));
        let b = Seq::new(size, |k: int| fmul(w[i], pi(k)));
        assert(a =~= b);
        assert(col_sum(gg, i, size) == fsum(a));
        assert(fsum(b) == fmul(w[i], fsum(Seq::new(size, pi))));
        assert(Seq::new(size, pi) =~= Seq::new(size, |x: int| point_at(ps[i], None, prods, x)));
        assert(fsum(Seq::new(size, pi)) == hyper_sum(ps[i], None, prods, size));
        assert(sums[i] == hyper_sum(ps[i], None, prods, size));
    }
    lemma_fsum_ext(
        Seq::new(m, |i: int| col_sum(gg, i, size)),
        Seq::new(m, |i: int| fmul(w[i], sums[i])),
    );
    assert(Seq::new(m, |i: int| col_sum(gg, i, size)) =~= Seq::new(
        m,
        |i: int| fsum(Seq::new(size, |y: int| gg(y, i))),
    ));
    assert(Seq::new(m * size, g) =~= Seq::new(m * size, |x: int| point_at(ilv, Some(w), prods, x)));
    assert(size * m == m * size);
}

/// The product of the multiplicands of product `p` at entry `x`.
pub open spec fn fprod_at(ts: Seq<Seq<nat>>, prods: Seq<(nat, Seq<usize>)>, p: int, x: int) -> nat {
    crate::field::fprod(Seq::new(prods[p].1.len(), |q: int| ts[prods[p].1[q] as int][x]))
}

/// The SumFold proof made of a SumFold outcome.
pub open spec fn outcome_proof(out: (IOPProof, Fe, crate::poly::AuxInfo, VirtualPolynomial, Fe)) -> SumFoldProof {
    SumFoldProof { proof: out.0, sum_t: out.1, q_aux_info: out.2, v: out.4 }
}

/// The SumFold run's inputs fit its rounds.
#[verifier::spinoff_prover]
proof fn lemma_sumfold_run_wf(polys: Seq<VirtualPolynomial>, sums: Seq<Fe>, rho: Seq<nat>)
    requires
        is_pow2(polys.len() as nat),
        sumfold_inputs(polys, sums, log2_of(polys.len() as nat)),
        rho.len() == log2_of(polys.len() as nat),
    ensures
        ({
            let l = log2_of(polys.len() as nat);
            let p0 = polys[0];
            let nv = p0.aux_info.num_variables as nat;
            let its = interleaved_tables(
                instance_tables(polys),
                p0.flattened_ml_extensions@.len() as nat,
                polys.len() as nat,
                pow2(nv),
            );
            &&& run_wf(its, Some(eq_vec(rho)), p0.prods(), pow2(l + nv), l, nv)
            &&& prods_fit(p0.prods(), p0.aux_info.max_degree as nat)
            &&& l >= 1
            &&& l as usize as nat == l
            &&& pow2(l + nv) == polys.len() * pow2(nv)
        }),
{
    let l = log2_of(polys.len() as nat);
    let p0 = polys[0];
    let nv = p0.aux_info.num_variables as nat;
    let m = polys.len();
    let t = p0.flattened_ml_extensions@.len() as nat;
    let size = pow2(nv);
    let its = interleaved_tables(instance_tables(polys), t, m, size);
    let e = eq_vec(rho);
    let prods = p0.prods();
    let total = pow2(l + nv);
    assert(pow2(l) == m);
    lemma_pow2_adds(l, nv);
    lemma_pow2_pos(nv);
    crate::poly::lemma_eq_vec_len(rho);
    lemma_eq_vec_field(rho);
    lemma_vp_field(p0);
    lemma_mul_is_commutative(m as int, size as int);
    assert(tables_field(its)) by {
        assert forall|j: int, k: int| 0 <= j < its.len() && 0 <= k < its[j].len()
            implies #[trigger] its[j][k] < modulus() by {
            let i = k % (m as int);
            let y = k / (m as int);
            lemma_mod_bound(k, m as int);
            lemma_fundamental_div_mod(k, m as int);
            assert(y < size) by {
                lemma_div_by_multiple_is_strongly_ordered(k, (m * size) as int, size as int, m as int);
                lemma_div_by_multiple(size as int, m as int);
                lemma_div_pos_is_pos(k, m as int);
            }
            lemma_vp_field(polys[i]);
            assert(polys[i].tables()[j].len() == pow2(nv));
        }
    }
    assert forall|j: int| 0 <= j < its.len() implies (#[trigger] its[j]).len() == total by {}
    assert forall|p: int, q: int| 0 <= p < prods.len() && 0 <= q < prods[p].1.len()
        implies (#[trigger] prods[p].1[q]) < its.len() by {}
    assert(l >= 1) by {
        if l == 0 {
            lemma2_to64();
        }
    }
    assert(l as usize as nat == l) by {
        lemma_mul_inequality(1, size as int, m as int);
        assert(m <= m * size);
        if l >= 64 {
            lemma2_to64_rest();
            if l > 64 {
                lemma_pow2_strictly_increases(64, l);
            }
            assert(pow2(l) >= 0x1_0000_0000_0000_0000);
        }
    }
}

/// One party's proof, combined on its own, is itself.
#[verifier::spinoff_prover]
proof fn lemma_single_party(sfp: SumFoldProof)
    ensures
        combined_msgs(seq![sfp]) == msg_vals(sfp.proof.proofs@),
        combined_sum_t(seq![sfp]) == sfp.sum_t.val(),
        combined_v(seq![sfp]) == sfp.v.val(),
        first_invalid(seq![sfp], 1) is None,
        num_rounds(seq![sfp]) == sfp.q_aux_info.num_variables as nat,
{
    let ps = seq![sfp];
    assert(msg_vals(sfp.proof.proofs@).len() == sfp.proof.proofs@.len());
    assert forall|rr: int| 0 <= rr < sfp.proof.proofs@.len() implies #[trigger] combined_msgs(ps)[rr] == msg_vals(
        sfp.proof.proofs@,
    )[rr] by {
        let ev = sfp.proof.proofs@[rr].evaluations@;
        assert forall|j: int| 0 <= j < ev.len() implies #[trigger] combined_msgs(ps)[rr][j] == fe_vals(ev)[j] by {
            ev[j].lemma_val_bound();
            assert(Seq::new(1, |p: int| msg_entry(ps, p, rr, j)) =~= seq![ev[j].val()]);
            lemma_fsum_one(ev[j].val());
        }
        assert(combined_msgs(ps)[rr] =~= fe_vals(ev));
    }
    assert(combined_msgs(ps) =~= msg_vals(sfp.proof.proofs@));
    sfp.sum_t.lemma_val_bound();
    assert(Seq::new(1, |p: int| ps[p].sum_t.val()) =~= seq![sfp.sum_t.val()]);
    lemma_fsum_one(sfp.sum_t.val());
    sfp.v.lemma_val_bound();
    assert(Seq::new(1, |p: int| ps[p].v.val()) =~= seq![sfp.v.val()]);
    lemma_fsum_one(sfp.v.val());
}

/// The first SumFold claim is the sum over the interleaved tables, when every
/// instance claims its true sum.
proof fn lemma_sumfold_first_claim(polys: Seq<VirtualPolynomial>, sums: Seq<Fe>, rho: Seq<nat>)
    requires
        is_pow2(polys.len() as nat),
        sumfold_inputs(polys, sums, log2_of(polys.len() as nat)),
        rho.len() == log2_of(polys.len() as nat),
        forall|i: int|
            0 <= i < polys.len() ==> (#[trigger] polys[i]).prods() == polys[0].prods() && sums[i].val()
                == poly_sum(polys[i]),
    ensures
        ({
            let l = log2_of(polys.len() as nat);
            let p0 = polys[0];
            let nv = p0.aux_info.num_variables as nat;
            let its = interleaved_tables(
                instance_tables(polys),
                p0.flattened_ml_extensions@.len() as nat,
                polys.len() as nat,
                pow2(nv),
            );
            hyper_sum(its, Some(eq_vec(rho)), p0.prods(), pow2(l + nv)) == folded_sum(
                eq_vec(rho),
                fe_vals(sums),
                polys.len() as nat,
            )
        }),
{
    let l = log2_of(polys.len() as nat);
    let p0 = polys[0];
    let nv = p0.aux_info.num_variables as nat;
    let m = polys.len() as nat;
    let t = p0.flattened_ml_extensions@.len() as nat;
    let size = pow2(nv);
    let e = eq_vec(rho);
    let prods = p0.prods();
    let ps = instance_tables(polys);
    lemma_sumfold_run_wf(polys, sums, rho);
    crate::poly::lemma_eq_vec_len(rho);
    assert(pow2(l) == m);
    assert forall|i: int, j: int| 0 <= i < m && 0 <= j < t implies (#[trigger] ps[i][j]).len() == size by {
        assert(polys[i].tables()[j].len() == pow2(nv));
    }
    lemma_interleaved_sum(ps, t, e, prods, m, size);
    let tsums = Seq::new(m, |i: int| hyper_sum(ps[i], None, prods, size));
    assert forall|i: int| 0 <= i < m implies #[trigger] fmul(e[i], tsums[i]) == fmul(e[i], fe_vals(sums)[i]) by {
        assert(polys[i].prods() == prods);
    }
    lemma_fsum_ext(
        Seq::new(m, |i: int| fmul(e[i], tsums[i])),
        Seq::new(m, |i: int| fmul(e[i], fe_vals(sums)[i])),
    );
}

/// SumFold is complete: when instances that share their products and claim
/// their true sums are folded on a fresh transcript, the SumFold proof that comes
/// out, combined as the only party's proof, is accepted by
/// `merge_and_verify_sumfold` with the folded claim `v`.
#[verifier::spinoff_prover]
pub proof fn law_sumfold_complete(
    polys: Seq<VirtualPolynomial>,
    sums: Seq<Fe>,
    r: Result<(IOPProof, Fe, crate::poly::AuxInfo, VirtualPolynomial, Fe), PolyIOPErrors>,
    final_ops: Seq<TranscriptOp>,
)
    requires
        is_pow2(polys.len() as nat),
        sumfold_inputs(polys, sums, log2_of(polys.len() as nat)),
        forall|i: int|
            0 <= i < polys.len() ==> (#[trigger] polys[i]).prods() == polys[0].prods() && sums[i].val()
                == poly_sum(polys[i]),
        sumfold_result(polys, sums, log2_of(polys.len() as nat), init_ops(), r, final_ops),
        r is Ok,
    ensures
        crate::snark::merge_inputs(seq![outcome_proof(r->Ok_0)]),
        merge_verdict(seq![outcome_proof(r->Ok_0)]) == Ok::<nat, crate::errors::DeSnarkError>(
            (r->Ok_0).4.val(),
        ),
{
    let l = log2_of(polys.len() as nat);
    let p0 = polys[0];
    let nv = p0.aux_info.num_variables as nat;
    let m = polys.len();
    let t = p0.flattened_ml_extensions@.len() as nat;
    let d0 = p0.aux_info.max_degree as nat;
    let out = r->Ok_0;
    let sfp = outcome_proof(out);
    let ps = seq![sfp];
    let (rho, s) = sumfold_run(polys, l, init_ops());
    crate::sumfold::lemma_sumfold_defined(rho, s, d0);
    let ops1 = init_ops().push(message_op(aux_label(), aux_bytes(fold_aux(p0, l))));
    let ops2 = ops_after_challenges(ops1, rho_label(), l);
    let its = interleaved_tables(instance_tables(polys), t, m, pow2(nv));
    let e = eq_vec(rho);
    let prods = p0.prods();
    let deg = d0 + 1;
    let total = pow2(l + nv);
    crate::transcript::lemma_challenge_values_len(ops1, rho_label(), l);
    lemma_sumfold_run_wf(polys, sums, rho);
    lemma_single_party(sfp);
    // the verifier derives the prover's rho and challenges
    lemma_verifier_replays(its, Some(e), prods, deg, total, ops2, l, l);
    crate::sumcheck::lemma_run_rounds_msg_len(its, Some(e), prods, deg, total, ops2, l);
    assert(ops_with_aux(init_ops(), out.2) == ops1);
    let (vrho, vchals) = sumfold_verifier_view(out.2, combined_msgs(ps));
    assert(vrho == rho);
    assert(vchals == s.chals);
    // the SumCheck over the instance variables accepts with the last round's value
    lemma_run_checks(its, Some(e), prods, deg, total, ops2, l, nv, d0);
    lemma_sumfold_first_claim(polys, sums, rho);
    assert(!(exists|i: int| 0 <= i < l && (#[trigger] s.msgs[i]).len() != deg + 1));
    assert forall|i: int| 0 <= i < l implies fadd((#[trigger] s.msgs[i])[0], s.msgs[i][1])
        == crate::sumcheck::expected_at(combined_sum_t(ps), s.msgs, s.chals, i) by {}
    let c = interpolation(s.msgs[l - 1], s.chals[l - 1]);
    assert(sumcheck_verdict(combined_sum_t(ps), s.msgs, s.chals, l, deg) == Ok::<nat, PolyIOPErrors>(c));
    // the consistency check: v eq(rho, r_b) == c
    let ev = eq_eval(rho, s.chals);
    let w = finv(ev);
    lemma_fmul_assoc(c, w, ev);
    lemma_fmul_comm(w, ev);
    crate::algebra::lemma_fsum_bound(Seq::new(s.size, |x: int| point_at(s.tables, s.eqt, prods, x)));
    lemma_field_units(c);
    assert(c == fmul(combined_v(ps), ev));
    // the honest proof fits the merge
    crate::sumcheck::lemma_run_rounds_len(its, Some(e), prods, deg, total, ops2, l);
    assert(msg_vals(out.0.proofs@).len() == out.0.proofs@.len());
    assert forall|i: int| 0 <= i < l implies (#[trigger] out.0.proofs@[i]).evaluations@.len() <= 0x7FF_FFFF by {
        assert(msg_vals(out.0.proofs@)[i] == fe_vals(out.0.proofs@[i].evaluations@));
        assert(s.msgs[i].len() == deg + 1);
    }
}

/// A product over `n + 1` factors is the first factor times the product of the
/// others.
proof fn lemma_fprod_front(n: nat, f: spec_fn(int) -> nat)
    ensures
        crate::field::fprod(Seq::new(n + 1, f)) == fmul(
            f(0),
            crate::field::fprod(Seq::new(n, |i: int| f(i + 1))),
        ),
    decreases n,
{
    let g = |i: int| f(i + 1);
    crate::field::lemma_fprod_new_step(n, f);
    if n == 0 {
        assert(Seq::new(0, f) =~= Seq::<nat>::empty());
        assert(Seq::new(0, g) =~= Seq::<nat>::empty());
        lemma_fmul_comm(1, f(0));
    } else {
        let k = (n - 1) as nat;
        lemma_fprod_front(k, f);
        crate::field::lemma_fprod_new_step(k, g);
        lemma_fmul_assoc(f(0), crate::field::fprod(Seq::new(k, g)), f(n as int));
        assert(k + 1 == n);
        assert(Seq::new(k, |i: int| f(i + 1)) =~= Seq::new(k, g));
        assert(Seq::new(n, |i: int| f(i + 1)) =~= Seq::new(n, g));
    }
}

/// The two entries of a pair of the eq tables, multiplied and added, are the
/// first factor of `eq` times the entry of the smaller tables.
#[verifier::spinoff_prover]
proof fn lemma_eq_pair(a0: nat, b0: nat, x: nat, y: nat)
    ensures
        fadd(
            fmul(fsub(x, fmul(a0, x)), fsub(y, fmul(b0, y))),
            fmul(fmul(a0, x), fmul(b0, y)),
        ) == fmul(crate::poly::eq_term(b0, a0), fmul(x, y)),
{
    let (ai, bi, xi, yi) = (a0 as int, b0 as int, x as int, y as int);
    crate::algebra::lemma_md_md(ai);
    crate::algebra::lemma_md_md(bi);
    crate::algebra::lemma_md_md(xi);
    crate::algebra::lemma_md_md(yi);
    crate::algebra::lemma_md_md(1);
    crate::algebra::lemma_lift_mul(a0, x, ai, xi);
    crate::algebra::lemma_lift_mul(b0, y, bi, yi);
    crate::algebra::lemma_md_md(ai * xi);
    crate::algebra::lemma_md_md(bi * yi);
    crate::algebra::lemma_lift_sub(x, fmul(a0, x), xi, ai * xi);
    crate::algebra::lemma_lift_sub(y, fmul(b0, y), yi, bi * yi);
    crate::algebra::lemma_md_md(xi - ai * xi);
    crate::algebra::lemma_md_md(yi - bi * yi);
    crate::algebra::lemma_lift_mul(fsub(x, fmul(a0, x)), fsub(y, fmul(b0, y)), xi - ai * xi, yi - bi * yi);
    crate::algebra::lemma_lift_mul(fmul(a0, x), fmul(b0, y), ai * xi, bi * yi);
    crate::algebra::lemma_md_md((xi - ai * xi) * (yi - bi * yi));
    crate::algebra::lemma_md_md((ai * xi) * (bi * yi));
    crate::algebra::lemma_lift_add(
        fmul(fsub(x, fmul(a0, x)), fsub(y, fmul(b0, y))),
        fmul(fmul(a0, x), fmul(b0, y)),
        (xi - ai * xi) * (yi - bi * yi),
        (ai * xi) * (bi * yi),
    );
    // right side
    crate::algebra::lemma_lift_mul(b0, a0, bi, ai);
    crate::algebra::lemma_lift_sub(1, b0, 1, bi);
    crate::algebra::lemma_lift_sub(1, a0, 1, ai);
    crate::algebra::lemma_md_md(1 - bi);
    crate::algebra::lemma_md_md(1 - ai);
    crate::algebra::lemma_lift_mul(fsub(1, b0), fsub(1, a0), 1 - bi, 1 - ai);
    crate::algebra::lemma_md_md(bi * ai);
    crate::algebra::lemma_md_md((1 - bi) * (1 - ai));
    crate::algebra::lemma_lift_add(fmul(b0, a0), fmul(fsub(1, b0), fsub(1, a0)), bi * ai, (1 - bi) * (1 - ai));
    crate::algebra::lemma_lift_mul(x, y, xi, yi);
    crate::algebra::lemma_md_md(bi * ai + (1 - bi) * (1 - ai));
    crate::algebra::lemma_md_md(xi * yi);
    crate::algebra::lemma_lift_mul(
        crate::poly::eq_term(b0, a0),
        fmul(x, y),
        bi * ai + (1 - bi) * (1 - ai),
        xi * yi,
    );
    let xy = xi * yi;
    assert(xi - ai * xi == xi * (1 - ai)) by (nonlinear_arith);
    assert(yi - bi * yi == yi * (1 - bi)) by (nonlinear_arith);
    assert((xi * (1 - ai)) * (yi * (1 - bi)) == xy * ((1 - bi) * (1 - ai))) by (nonlinear_arith)
        requires
            xy == xi * yi,
    ;
    assert((ai * xi) * (bi * yi) == xy * (bi * ai)) by (nonlinear_arith)
        requires
            xy == xi * yi,
    ;
    assert(xy * ((1 - bi) * (1 - ai)) + xy * (bi * ai) == (bi * ai + (1 - bi) * (1 - ai)) * xy) by (nonlinear_arith);
}

/// The entries of two eq tables, multiplied and summed, give `eq` of the points.
#[verifier::spinoff_prover]
proof fn lemma_eq_inner(a: Seq<nat>, b: Seq<nat>)
    requires
        a.len() == b.len(),
    ensures
        fsum(Seq::new(pow2(a.len()), |i: int| fmul(eq_vec(a)[i], eq_vec(b)[i]))) == eq_eval(b, a),
    decreases a.len(),
{
    let n = a.len();
    let g = |i: int| fmul(eq_vec(a)[i], eq_vec(b)[i]);
    if n == 0 {
        lemma2_to64();
        assert(Seq::new(pow2(n), g) =~= seq![fmul(1, 1)]);
        lemma_fsum_one(fmul(1, 1));
        assert(fmul(1, 1) == 1);
        assert(Seq::new(0, |i: int| crate::poly::eq_term(b[i], a[i])) =~= Seq::<nat>::empty());
        assert(crate::field::fprod(Seq::<nat>::empty()) == 1);
    } else {
        let (a1, b1) = (a.drop_first(), b.drop_first());
        let (ea, eb) = (eq_vec(a1), eq_vec(b1));
        let h = (n - 1) as nat;
        crate::poly::lemma_eq_vec_len(a1);
        crate::poly::lemma_eq_vec_len(b1);
        lemma_pow2_unfold(n);
        lemma_eq_inner(a1, b1);
        let et = crate::poly::eq_term(b[0], a[0]);
        let inner = |k: int| fmul(ea[k], eb[k]);
        crate::field::lemma_fsum_pairs(pow2(h), g);
        assert forall|k: int| 0 <= k < pow2(h) implies #[trigger] inner(k) == inner(k) && fadd(g(2 * k), g(2 * k + 1))
            == fmul(et, inner(k)) by {
            lemma_eq_pair(a[0], b[0], ea[k], eb[k]);
            assert((2 * k) / 2 == k);
            assert((2 * k + 1) / 2 == k);
        }
        lemma_fsum_ext(
            Seq::new(pow2(h), |k: int| fadd(g(2 * k), g(2 * k + 1))),
            Seq::new(pow2(h), |k: int| fmul(et, inner(k))),
        );
        lemma_fsum_scale(pow2(h), et, inner);
        assert(Seq::new(pow2(h), inner) =~= Seq::new(pow2(a1.len()), |i: int| fmul(eq_vec(a1)[i], eq_vec(b1)[i])));
        lemma_fprod_front(h, |i: int| crate::poly::eq_term(b[i], a[i]));
        assert(Seq::new(h, |i: int| crate::poly::eq_term(b[i + 1], a[i + 1])) =~= Seq::new(
            a1.len(),
            |i: int| crate::poly::eq_term(b1[i], a1[i]),
        ));
        assert(h + 1 == n);
        assert(2 * pow2(h) == pow2(n));
        assert(Seq::new(pow2(n), g) =~= Seq::new(2 * pow2(h), g));
        assert(fsum(Seq::new(pow2(h), |k: int| fadd(g(2 * k), g(2 * k + 1)))) == fmul(et, fsum(Seq::new(pow2(h), inner))));
        assert(fsum(Seq::new(pow2(h), inner)) == eq_eval(b1, a1));
        let f = |i: int| crate::poly::eq_term(b[i], a[i]);
        assert(Seq::new(b.len(), |i: int| crate::poly::eq_term(b[i], a[i])) =~= Seq::new(h + 1, f));
        assert(eq_eval(b, a) == crate::field::fprod(Seq::new(h + 1, f)));
        assert(Seq::new(h, |i: int| f(i + 1)) =~= Seq::new(b1.len(), |i: int| crate::poly::eq_term(b1[i], a1[i])));
        assert(eq_eval(b1, a1) == crate::field::fprod(Seq::new(h, |i: int| f(i + 1))));
        assert(eq_eval(b, a) == fmul(et, eq_eval(b1, a1)));
    }
}

/// After `n` rounds the eq table, when there is one, has its lowest `n` variables
/// fixed to the challenges.
proof fn lemma_run_rounds_eqt(
    ts: Seq<Seq<nat>>,
    eqt: Option<Seq<nat>>,
    prods: Seq<(nat, Seq<usize>)>,
    deg: nat,
    size: nat,
    ops: Seq<TranscriptOp>,
    n: nat,
)
    ensures
        ({
            let s = run_rounds(ts, eqt, prods, deg, size, ops, n);
            s.eqt == match eqt {
                Some(e) => Some(fix_many(e, s.chals)),
                None => None::<Seq<nat>>,
            }
        }),
    decreases n,
{
    if n > 0 {
        let k = (n - 1) as nat;
        lemma_run_rounds_eqt(ts, eqt, prods, deg, size, ops, k);
        let s = run_rounds(ts, eqt, prods, deg, size, ops, n);
        let s0 = run_rounds(ts, eqt, prods, deg, size, ops, k);
        assert(s.chals.drop_last() =~= s0.chals);
    }
}

/// SumFold folds into a true instance: whenever SumFold succeeds, the folded claim
/// `v` is the sum of the folded polynomial over the hypercube, whatever the
/// instances claimed.
#[verifier::spinoff_prover]
pub proof fn law_sumfold_folded_instance(
    polys: Seq<VirtualPolynomial>,
    sums: Seq<Fe>,
    ops: Seq<TranscriptOp>,
    r: Result<(IOPProof, Fe, crate::poly::AuxInfo, VirtualPolynomial, Fe), PolyIOPErrors>,
    final_ops: Seq<TranscriptOp>,
)
    requires
        is_pow2(polys.len() as nat),
        sumfold_inputs(polys, sums, log2_of(polys.len() as nat)),
        sumfold_result(polys, sums, log2_of(polys.len() as nat), ops, r, final_ops),
        r is Ok,
    ensures
        (r->Ok_0).4.val() == poly_sum((r->Ok_0).3),
{
    let l = log2_of(polys.len() as nat);
    let p0 = polys[0];
    let nv = p0.aux_info.num_variables as nat;
    let m = polys.len();
    let t = p0.flattened_ml_extensions@.len() as nat;
    let d0 = p0.aux_info.max_degree as nat;
    let size = pow2(nv);
    let out = r->Ok_0;
    let folded = out.3;
    let (rho, s) = sumfold_run(polys, l, ops);
    crate::sumfold::lemma_sumfold_defined(rho, s, d0);
    let ops1 = ops.push(message_op(aux_label(), aux_bytes(fold_aux(p0, l))));
    let ops2 = ops_after_challenges(ops1, rho_label(), l);
    let ps = instance_tables(polys);
    let its = interleaved_tables(ps, t, m, size);
    let e = eq_vec(rho);
    let prods = p0.prods();
    let deg = d0 + 1;
    let total = pow2(l + nv);
    crate::transcript::lemma_challenge_values_len(ops1, rho_label(), l);
    lemma_sumfold_run_wf(polys, sums, rho);
    lemma_run_checks(its, Some(e), prods, deg, total, ops2, l, nv, d0);
    lemma_run_state(its, Some(e), prods, deg, total, ops2, l, nv, l);
    crate::sumcheck::lemma_run_rounds_len(its, Some(e), prods, deg, total, ops2, l);
    crate::sumcheck::lemma_run_rounds_tables(its, Some(e), prods, deg, total, ops2, l);
    lemma_run_rounds_eqt(its, Some(e), prods, deg, total, ops2, l);
    assert((l - l) as nat + nv == nv);
    assert(s.size == size);
    // the eq table, every variable fixed, is the single value eq(rho, r_b)
    crate::poly::lemma_eq_vec_len(rho);
    lemma_eq_vec_field(rho);
    assert(e.len() == pow2(s.chals.len()) * 1);
    crate::poly::lemma_fix_many_weighted(e, s.chals, 1);
    let ev = eq_eval(rho, s.chals);
    lemma_eq_inner(s.chals, rho);
    let fe = fix_many(e, s.chals);
    assert(fe[0] == ev) by {
        assert(Seq::new(pow2(s.chals.len()), |i: int| fmul(eq_vec(s.chals)[i], e[0 * pow2(s.chals.len()) + i]))
            =~= Seq::new(pow2(s.chals.len()), |i: int| fmul(eq_vec(s.chals)[i], eq_vec(rho)[i])));
    }
    // the tables, every instance variable fixed, are the folded tables
    assert forall|j: int| 0 <= j < t implies #[trigger] s.tables[j] == folded.tables()[j] by {
        assert forall|i: int, x: int| 0 <= i < ps.len() && 0 <= x < size implies (#[trigger] ps[i][j][x]) < modulus() by {
            assert(ps[i] == polys[i].tables());
            assert(polys[i].tables()[j] == fe_vals(polys[i].flattened_ml_extensions@[j].evaluations@));
            assert(polys[i].tables()[j].len() == pow2(nv));
            polys[i].flattened_ml_extensions@[j].evaluations@[x].lemma_val_bound();
        }
        crate::sumfold::lemma_interleave_fix_many(ps, j, l, size, s.chals);
    }
    assert(s.tables =~= folded.tables());
    // c == eq(rho, r_b) * (sum of the folded polynomial)
    let pv = |x: int| poly_at(s.tables, prods, x);
    assert forall|x: int| 0 <= x < size implies #[trigger] point_at(s.tables, s.eqt, prods, x) == fmul(ev, pv(x)) by {
        assert(x % 1 == 0);
    }
    lemma_fsum_ext(
        Seq::new(size, |x: int| point_at(s.tables, s.eqt, prods, x)),
        Seq::new(size, |x: int| fmul(ev, pv(x))),
    );
    lemma_fsum_scale(size, ev, pv);
    assert(Seq::new(size, pv) =~= Seq::new(size, |x: int| point_at(folded.tables(), None, folded.prods(), x)));
    let total_sum = poly_sum(folded);
    let c = interpolation(s.msgs[l - 1], s.chals[l - 1]);
    assert(c == fmul(ev, total_sum));
    // v = c / eq(rho, r_b)
    let w = finv(ev);
    lemma_fmul_assoc(ev, total_sum, w);
    lemma_fmul_comm(ev, total_sum);
    lemma_fmul_assoc(total_sum, ev, w);
    crate::algebra::lemma_fsum_bound(Seq::new(size, |x: int| point_at(folded.tables(), None, folded.prods(), x)));
    lemma_field_units(total_sum);
}

/// The two SumFold provers agree: any two outcomes that `sum_fold` and
/// `sum_fold_v2` may return for the same instances from the same transcript leave
/// the same transcript, succeed together, fail with the same error, and when they
/// succeed hold the same messages, challenges, claims, auxiliary information and
/// folded polynomial.
pub proof fn law_sum_fold_versions_agree(
    polys: Seq<VirtualPolynomial>,
    sums: Seq<Fe>,
    ops: Seq<TranscriptOp>,
    r1: Result<(IOPProof, Fe, crate::poly::AuxInfo, VirtualPolynomial, Fe), PolyIOPErrors>,
    f1: Seq<TranscriptOp>,
    r2: Result<(IOPProof, Fe, crate::poly::AuxInfo, VirtualPolynomial, Fe), PolyIOPErrors>,
    f2: Seq<TranscriptOp>,
)
    requires
        crate::sumfold::sumfold_outcome(polys, sums, ops, r1, f1),
        crate::sumfold::sumfold_outcome(polys, sums, ops, r2, f2),
    ensures
        f1 == f2,
        r1 is Ok <==> r2 is Ok,
        r1 is Err ==> r1 == r2,
        r1 is Ok ==> {
            let (a, b) = (r1->Ok_0, r2->Ok_0);
            &&& msg_vals(a.0.proofs@) == msg_vals(b.0.proofs@)
            &&& fe_vals(a.0.point@) == fe_vals(b.0.point@)
            &&& a.1.val() == b.1.val()
            &&& a.2 == b.2
            &&& a.3.aux_info == b.3.aux_info
            &&& a.3.prods() == b.3.prods()
            &&& a.3.tables() == b.3.tables()
            &&& a.4.val() == b.4.val()
        },
{
}

/// The claimed sums reach SumFold's claim `sum_t` and nothing else: for the same
/// instances from the same transcript, outcomes under claimed sums `s1` and `s2`
/// leave the same transcript, succeed together, fail with the same error, agree in
/// the messages, challenges, auxiliary information, folded polynomial and `v`, and
/// their claims differ by `sum_i eq(rho, i) (s1_i - s2_i)`.
pub proof fn law_sumfold_sums_reach_only_claim(
    polys: Seq<VirtualPolynomial>,
    s1: Seq<Fe>,
    s2: Seq<Fe>,
    ops: Seq<TranscriptOp>,
    r1: Result<(IOPProof, Fe, crate::poly::AuxInfo, VirtualPolynomial, Fe), PolyIOPErrors>,
    f1: Seq<TranscriptOp>,
    r2: Result<(IOPProof, Fe, crate::poly::AuxInfo, VirtualPolynomial, Fe), PolyIOPErrors>,
    f2: Seq<TranscriptOp>,
)
    requires
        crate::sumfold::sumfold_outcome(polys, s1, ops, r1, f1),
        crate::sumfold::sumfold_outcome(polys, s2, ops, r2, f2),
    ensures
        f1 == f2,
        r1 is Ok <==> r2 is Ok,
        r1 is Err ==> r1 == r2,
        r1 is Ok ==> {
            let (a, b) = (r1->Ok_0, r2->Ok_0);
            let m = polys.len();
            let rho = sumfold_run(polys, log2_of(m as nat), ops).0;
            &&& msg_vals(a.0.proofs@) == msg_vals(b.0.proofs@)
            &&& fe_vals(a.0.point@) == fe_vals(b.0.point@)
            &&& a.2 == b.2
            &&& a.3.aux_info == b.3.aux_info
            &&& a.3.prods() == b.3.prods()
            &&& a.3.tables() == b.3.tables()
            &&& a.4.val() == b.4.val()
            &&& fsub(a.1.val(), b.1.val()) == fsum(
                Seq::new(m, |i: int| fmul(eq_vec(rho)[i], fsub(fe_vals(s1)[i], fe_vals(s2)[i]))),
            )
        },
{
    if r1 is Ok && polys.len() != 1 {
        let m = polys.len();
        let rho = sumfold_run(polys, log2_of(m as nat), ops).0;
        lemma_folded_sum_diff(eq_vec(rho), fe_vals(s1), fe_vals(s2), m);
    }
}

/// Folded sums under one set of weights differ by the fold of the differences.
proof fn lemma_folded_sum_diff(w: Seq<nat>, a: Seq<nat>, b: Seq<nat>, m: nat)
    ensures
        fsub(folded_sum(w, a, m), folded_sum(w, b, m)) == fsum(
            Seq::new(m, |i: int| fmul(w[i], fsub(a[i], b[i]))),
        ),
{
    let g1 = |i: int| fmul(w[i], a[i]);
    let g2 = |i: int| fmul(w[i], b[i]);
    let d = |i: int| fmul(w[i], fsub(a[i], b[i]));
    assert forall|i: int| 0 <= i < m implies #[trigger] fadd(g2(i), d(i)) == g1(i) by {
        let (wi, x1, x2) = (w[i] as int, a[i] as int, b[i] as int);
        crate::algebra::lemma_md_md(wi);
        crate::algebra::lemma_md_md(x1);
        crate::algebra::lemma_md_md(x2);
        crate::algebra::lemma_lift_sub(a[i], b[i], x1, x2);
        crate::algebra::lemma_md_md(x1 - x2);
        crate::algebra::lemma_lift_mul(w[i], fsub(a[i], b[i]), wi, x1 - x2);
        crate::algebra::lemma_lift_mul(w[i], b[i], wi, x2);
        crate::algebra::lemma_lift_mul(w[i], a[i], wi, x1);
        crate::algebra::lemma_md_md(wi * x2);
        crate::algebra::lemma_md_md(wi * (x1 - x2));
        crate::algebra::lemma_lift_add(g2(i), d(i), wi * x2, wi * (x1 - x2));
        assert(wi * x2 + wi * (x1 - x2) == wi * x1) by (nonlinear_arith);
    }
    crate::algebra::lemma_fsum_add(m, g2, d);
    assert(Seq::new(m, |i: int| fadd(g2(i), d(i))) =~= Seq::new(m, g1));
    let (t1, t2, dd) = (fsum(Seq::new(m, g1)), fsum(Seq::new(m, g2)), fsum(Seq::new(m, d)));
    crate::algebra::lemma_fsum_bound(Seq::new(m, g2));
    crate::algebra::lemma_fsum_bound(Seq::new(m, d));
    // (t2 + dd) - t2 == dd
    crate::algebra::lemma_md_md(t2 as int);
    crate::algebra::lemma_md_md(dd as int);
    crate::algebra::lemma_lift_val(t2);
    crate::algebra::lemma_lift_val(dd);
    crate::algebra::lemma_lift_add(t2, dd, t2 as int, dd as int);
    crate::algebra::lemma_md_md(t2 as int + dd as int);
    crate::algebra::lemma_lift_sub(t1, t2, t2 as int + dd as int, t2 as int);
    assert(t2 as int + dd as int - t2 as int == dd as int);
}

/// The parties' proofs share their auxiliary information, have its number of
/// rounds, and round by round messages of one length.
pub open spec fn parties_uniform(ps: Seq<SumFoldProof>) -> bool {
    &&& ps.len() >= 1
    &&& forall|p: int|
        0 <= p < ps.len() ==> {
            &&& (#[trigger] ps[p]).q_aux_info == ps[0].q_aux_info
            &&& ps[p].proof.proofs@.len() == num_rounds(ps)
            &&& forall|r: int|
                0 <= r < num_rounds(ps) ==> (#[trigger] ps[p].proof.proofs@[r]).evaluations@.len()
                    == ps[0].proof.proofs@[r].evaluations@.len()
        }
}

/// Parties that all agree with party 0 raise no structural problem.
proof fn lemma_no_invalid(ps: Seq<SumFoldProof>, i: int)
    requires
        i >= 1,
        ps.len() >= 1,
        forall|p: int|
            0 <= p < ps.len() ==> (#[trigger] ps[p]).q_aux_info == ps[0].q_aux_info
                && ps[p].proof.proofs@.len() == num_rounds(ps),
    ensures
        first_invalid(ps, i) is None,
    decreases ps.len() - i,
{
    if i < ps.len() {
        assert(ps[i].q_aux_info == ps[0].q_aux_info);
        lemma_no_invalid(ps, i + 1);
    }
}

/// `merge_and_verify_sumfold` treats the parties' proofs as the one proof that
/// holds their element-wise sums: when every party agrees with party 0 and `p` has
/// party 0's auxiliary information and message lengths, every message entry of `p`
/// the sum of the parties' entries, and `p`'s claims `T` and `v` the sums of
/// theirs, the verdict on the parties' proofs is the verdict on `[p]`.
pub proof fn law_merge_is_sum(ps: Seq<SumFoldProof>, p: SumFoldProof)
    requires
        ps.len() >= 1,
        first_invalid(ps, 1) is None,
        p.q_aux_info == ps[0].q_aux_info,
        p.proof.proofs@.len() == ps[0].proof.proofs@.len(),
        forall|r: int|
            0 <= r < p.proof.proofs@.len() ==> (#[trigger] p.proof.proofs@[r]).evaluations@.len()
                == ps[0].proof.proofs@[r].evaluations@.len(),
        forall|r: int, j: int|
            0 <= r < p.proof.proofs@.len() && 0 <= j < p.proof.proofs@[r].evaluations@.len() ==> (
            #[trigger] p.proof.proofs@[r].evaluations@[j]).val() == fsum(
                Seq::new(ps.len(), |q: int| msg_entry(ps, q, r, j)),
            ),
        p.sum_t.val() == fsum(Seq::new(ps.len(), |q: int| ps[q].sum_t.val())),
        p.v.val() == fsum(Seq::new(ps.len(), |q: int| ps[q].v.val())),
    ensures
        merge_verdict(ps) == merge_verdict(seq![p]),
{
    lemma_single_party(p);
    let cm = combined_msgs(ps);
    let pm = msg_vals(p.proof.proofs@);
    assert forall|r: int| 0 <= r < cm.len() implies #[trigger] cm[r] == pm[r] by {
        assert(cm[r] =~= pm[r]);
    }
    assert(cm =~= pm);
}

/// The order of the parties does not matter: on proofs that share their auxiliary
/// information, round count and message lengths, `merge_and_verify_sumfold` gives
/// the same verdict whatever permutation `pi` the parties come in.
pub proof fn law_merge_order_free(ps: Seq<SumFoldProof>, pi: Seq<int>)
    requires
        parties_uniform(ps),
        crate::algebra::is_permutation(pi, ps.len()),
    ensures
        merge_verdict(Seq::new(ps.len(), |q: int| ps[pi[q]])) == merge_verdict(ps),
{
    let k = ps.len();
    let qs = Seq::new(k, |q: int| ps[pi[q]]);
    let nr = num_rounds(ps);
    assert(ps[pi[0]].q_aux_info == ps[0].q_aux_info);
    assert(num_rounds(qs) == nr);
    assert forall|q: int| 0 <= q < k implies (#[trigger] qs[q]).q_aux_info == qs[0].q_aux_info
        && qs[q].proof.proofs@.len() == num_rounds(qs) by {
        assert(ps[pi[q]].q_aux_info == ps[0].q_aux_info);
    }
    lemma_no_invalid(ps, 1);
    lemma_no_invalid(qs, 1);
    // the combined messages agree entry by entry
    let cq = combined_msgs(qs);
    let cp = combined_msgs(ps);
    assert forall|r: int| 0 <= r < nr implies #[trigger] cq[r] == cp[r] by {
        assert(ps[pi[0]].proof.proofs@[r].evaluations@.len() == ps[0].proof.proofs@[r].evaluations@.len());
        assert forall|j: int| 0 <= j < cp[r].len() implies #[trigger] cq[r][j] == cp[r][j] by {
            let f = |q: int| msg_entry(ps, q, r, j);
            assert forall|q: int| 0 <= q < k implies #[trigger] f(q) < modulus() by {
                if r < ps[q].proof.proofs@.len() && j < ps[q].proof.proofs@[r].evaluations@.len() {
                    ps[q].proof.proofs@[r].evaluations@[j].lemma_val_bound();
                }
            }
            crate::algebra::lemma_fsum_permute(k, f, pi);
            assert(Seq::new(k, |q: int| msg_entry(qs, q, r, j)) =~= Seq::new(k, |q: int| f(pi[q])));
        }
        assert(cq[r] =~= cp[r]);
    }
    assert(cq =~= cp);
    // so do the claims
    let ft = |q: int| ps[q].sum_t.val();
    let fv = |q: int| ps[q].v.val();
    assert forall|q: int| 0 <= q < k implies #[trigger] ft(q) < modulus() by {
        ps[q].sum_t.lemma_val_bound();
    }
    assert forall|q: int| 0 <= q < k implies #[trigger] fv(q) < modulus() by {
        ps[q].v.lemma_val_bound();
    }
    crate::algebra::lemma_fsum_permute(k, ft, pi);
    crate::algebra::lemma_fsum_permute(k, fv, pi);
    assert(Seq::new(k, |q: int| qs[q].sum_t.val()) =~= Seq::new(k, |q: int| ft(pi[q])));
    assert(Seq::new(k, |q: int| qs[q].v.val()) =~= Seq::new(k, |q: int| fv(pi[q])));
    assert(Seq::new(k, |q: int| ps[q].sum_t.val()) =~= Seq::new(k, ft));
    assert(Seq::new(k, |q: int| ps[q].v.val()) =~= Seq::new(k, fv));
}

/// The folding phase gives what SumFold gives: from the same transcript, any
/// outcome `prove_sumfold` may return for a power of two of instances and any
/// outcome `sum_fold` may return for their polynomials and claimed sums leave the
/// same transcript and succeed together; on success the folded instance is
/// `sum_fold`'s folded polynomial with claim `v`, and the SumFold proof holds
/// `sum_fold`'s messages, challenges, claim `T`, auxiliary information and `v`.
pub proof fn law_prove_sumfold_is_sum_fold(
    instances: Seq<crate::structs::SumCheckInstance>,
    ops: Seq<TranscriptOp>,
    r: Result<(crate::structs::SumCheckInstance, SumFoldProof), crate::errors::DeSnarkError>,
    f: Seq<TranscriptOp>,
    r1: Result<(IOPProof, Fe, crate::poly::AuxInfo, VirtualPolynomial, Fe), PolyIOPErrors>,
    f1: Seq<TranscriptOp>,
)
    requires
        is_pow2(instances.len() as nat),
        crate::sumfold::sumfold_outcome(
            crate::snark::inst_polys(instances),
            crate::snark::inst_sums(instances),
            ops,
            crate::snark::as_fold_outcome(r),
            f,
        ),
        r matches Ok((inst, sfp)) ==> inst.sum == sfp.v,
        crate::sumfold::sumfold_outcome(
            crate::snark::inst_polys(instances),
            crate::snark::inst_sums(instances),
            ops,
            r1,
            f1,
        ),
    ensures
        f == f1,
        r is Ok <==> r1 is Ok,
        r matches Ok((inst, sfp)) ==> {
            let b = r1->Ok_0;
            &&& msg_vals(sfp.proof.proofs@) == msg_vals(b.0.proofs@)
            &&& fe_vals(sfp.proof.point@) == fe_vals(b.0.point@)
            &&& sfp.sum_t.val() == b.1.val()
            &&& sfp.q_aux_info == b.2
            &&& inst.poly.aux_info == b.3.aux_info
            &&& inst.poly.prods() == b.3.prods()
            &&& inst.poly.tables() == b.3.tables()
            &&& inst.sum.val() == b.4.val()
            &&& sfp.v.val() == b.4.val()
        },
{
    law_sum_fold_versions_agree(
        crate::snark::inst_polys(instances),
        crate::snark::inst_sums(instances),
        ops,
        crate::snark::as_fold_outcome(r),
        f,
        r1,
        f1,
    );
}

// ---------------------------------------------------------------------------
// The eq table
// ---------------------------------------------------------------------------

/// The `n` bits of `b`, lowest first.
pub open spec fn bits(b: nat, n: nat) -> Seq<nat> {
    Seq::new(n, |i: int| (b / pow2(i as nat)) % 2)
}

/// One factor of `eq` at a bit: `r` for one, `1 - r` for zero.
proof fn lemma_eq_term_bit(r: nat, bit: nat, x: nat)
    requires
        bit < 2,
    ensures
        fmul(crate::poly::eq_term(r, bit), x) == if bit == 1 {
            fmul(r, x)
        } else {
            fsub(x, fmul(r, x))
        },
{
    let (ri, xi) = (r as int, x as int);
    crate::algebra::lemma_md_md(ri);
    crate::algebra::lemma_md_md(xi);
    crate::algebra::lemma_md_md(1);
    crate::algebra::lemma_md_md(0);
    let bi = bit as int;
    crate::algebra::lemma_md_md(bi);
    crate::algebra::lemma_lift_mul(r, bit, ri, bi);
    crate::algebra::lemma_lift_sub(1, r, 1, ri);
    crate::algebra::lemma_lift_sub(1, bit, 1, bi);
    crate::algebra::lemma_md_md(ri * bi);
    crate::algebra::lemma_md_md(1 - ri);
    crate::algebra::lemma_md_md(1 - bi);
    crate::algebra::lemma_lift_mul(fsub(1, r), fsub(1, bit), 1 - ri, 1 - bi);
    crate::algebra::lemma_md_md((1 - ri) * (1 - bi));
    crate::algebra::lemma_lift_add(fmul(r, bit), fmul(fsub(1, r), fsub(1, bit)), ri * bi, (1 - ri) * (1 - bi));
    let e = ri * bi + (1 - ri) * (1 - bi);
    crate::algebra::lemma_md_md(e);
    crate::algebra::lemma_lift_mul(crate::poly::eq_term(r, bit), x, e, xi);
    crate::algebra::lemma_lift_mul(r, x, ri, xi);
    crate::algebra::lemma_md_md(ri * xi);
    crate::algebra::lemma_lift_sub(x, fmul(r, x), xi, ri * xi);
    if bit == 1 {
        assert(e * xi == ri * xi) by (nonlinear_arith)
            requires
                e == ri * 1 + (1 - ri) * (1 - 1),
        ;
    } else {
        assert(e * xi == xi - ri * xi) by (nonlinear_arith)
            requires
                e == ri * 0 + (1 - ri) * (1 - 0),
        ;
    }
}

/// The eq table holds `eq(r, b)` at every point `b` of the hypercube: entry `b`
/// of `build_eq_x_r_vec(r)` is `eq_evaluate(r, bits of b)`.
pub proof fn law_eq_table_entries(r: Seq<nat>, b: nat)
    requires
        b < pow2(r.len()),
    ensures
        eq_vec(r)[b as int] == eq_eval(r, bits(b, r.len())),
    decreases r.len(),
{
    let n = r.len();
    if n == 0 {
        lemma2_to64();
        assert(Seq::new(0, |i: int| crate::poly::eq_term(r[i], bits(b, n)[i])) =~= Seq::<nat>::empty());
        assert(crate::field::fprod(Seq::<nat>::empty()) == 1);
    } else {
        let r1 = r.drop_first();
        let h = (n - 1) as nat;
        lemma_pow2_unfold(n);
        crate::poly::lemma_eq_vec_len(r1);
        let b1 = b / 2;
        let bit = b % 2;
        law_eq_table_entries(r1, b1);
        let rest = eq_vec(r1)[b1 as int];
        // entry b of the table is the first factor times entry b / 2 of the smaller one
        assert(eq_vec(r)[b as int] == if bit == 1 {
            fmul(r[0], rest)
        } else {
            fsub(rest, fmul(r[0], rest))
        });
        lemma_eq_term_bit(r[0], bit, rest);
        // the bits of b are its lowest bit, then the bits of b / 2
        assert forall|i: int| 0 <= i < h implies #[trigger] bits(b, n)[i + 1] == bits(b1, h)[i] by {
            lemma_pow2_unfold((i + 1) as nat);
            lemma_pow2_pos(i as nat);
            vstd::arithmetic::div_mod::lemma_div_denominator(b as int, 2, pow2(i as nat) as int);
            assert(pow2((i + 1) as nat) == 2 * pow2(i as nat));
            lemma_mul_is_commutative(2, pow2(i as nat) as int);
        }
        lemma2_to64();
        assert(bits(b, n)[0] == bit);
        let f = |i: int| crate::poly::eq_term(r[i], bits(b, n)[i]);
        lemma_fprod_front(h, f);
        assert(Seq::new(n, |i: int| crate::poly::eq_term(r[i], bits(b, n)[i])) =~= Seq::new(h + 1, f));
        assert(Seq::new(h, |i: int| f(i + 1)) =~= Seq::new(
            r1.len(),
            |i: int| crate::poly::eq_term(r1[i], bits(b1, h)[i]),
        ));
        crate::algebra::lemma_fprod_bound(Seq::new(r1.len(), |i: int| crate::poly::eq_term(r1[i], bits(b1, h)[i])));
        lemma_fmul_comm(crate::poly::eq_term(r[0], bit), rest);
    }
}

/// Fixing every variable of a table evaluates its multilinear extension: what is
/// left is the single value `sum_b eq(r, b) t[b]` over the points `b` of the
/// hypercube.
pub proof fn law_fix_all_variables(t: Seq<nat>, r: Seq<nat>)
    requires
        t.len() == pow2(r.len()),
        all_field(t),
    ensures
        fix_many(t, r) == seq![
            fsum(Seq::new(pow2(r.len()), |b: int| fmul(eq_eval(r, bits(b as nat, r.len())), t[b]))),
        ],
{
    let n = pow2(r.len());
    assert(t.len() == n * 1);
    crate::poly::lemma_fix_many_weighted(t, r, 1);
    crate::poly::lemma_eq_vec_len(r);
    assert forall|b: int| 0 <= b < n implies #[trigger] fmul(eq_vec(r)[b], t[0 * n + b]) == fmul(
        eq_eval(r, bits(b as nat, r.len())),
        t[b],
    ) by {
        law_eq_table_entries(r, b as nat);
    }
    lemma_fsum_ext(
        Seq::new(n, |b: int| fmul(eq_vec(r)[b], t[0 * n + b])),
        Seq::new(n, |b: int| fmul(eq_eval(r, bits(b as nat, r.len())), t[b])),
    );
    assert(fix_many(t, r) =~= seq![
        fsum(Seq::new(n, |b: int| fmul(eq_eval(r, bits(b as nat, r.len())), t[b]))),
    ]);
}

// ---------------------------------------------------------------------------
// Network check
// ---------------------------------------------------------------------------

/// The network check accepts honest parties: when every party `i` answers the
/// challenge `r` with `network_response(r, i)`, no response is found wrong.
pub proof fn law_network_honest(r: u64, responses: Seq<u64>)
    requires
        forall|i: int| 0 <= i < responses.len() ==> #[trigger] responses[i] as nat == expected_response(r, i as nat),
    ensures
        first_bad_response(r, responses, 0) is None,
{
    lemma_no_bad_from(r, responses, 0);
}

proof fn lemma_no_bad_from(r: u64, responses: Seq<u64>, i: int)
    requires
        0 <= i,
        forall|k: int| 0 <= k < responses.len() ==> #[trigger] responses[k] as nat == expected_response(r, k as nat),
    ensures
        first_bad_response(r, responses, i) is None,
    decreases responses.len() - i,
{
    if i < responses.len() {
        lemma_no_bad_from(r, responses, i + 1);
    }
}

// ---------------------------------------------------------------------------
// What the verifiers refuse
// ---------------------------------------------------------------------------

/// The SumCheck verdict checks every round, whatever the messages: it is `Ok`
/// only when there is at least one round, every message has `deg + 1` values, and
/// in every round the message's values at zero and one add up to the claim (first
/// round) or to the previous round polynomial at its challenge (later rounds); its
/// value is then the last round polynomial at the last challenge. When the messages
/// have the right lengths and any round, first, middle or last, breaks that sum,
/// the verdict is `InvalidProof`.
pub proof fn law_verdict_checks_every_round(
    sum: nat,
    msgs: Seq<Seq<nat>>,
    chals: Seq<nat>,
    n: nat,
    deg: nat,
)
    ensures
        sumcheck_verdict(sum, msgs, chals, n, deg) is Ok ==> {
            &&& n >= 1
            &&& forall|i: int| 0 <= i < n ==> (#[trigger] msgs[i]).len() == deg + 1
            &&& forall|i: int|
                0 <= i < n ==> fadd((#[trigger] msgs[i])[0], msgs[i][1]) == if i == 0 {
                    sum
                } else {
                    interpolation(msgs[i - 1], chals[i - 1])
                }
            &&& sumcheck_verdict(sum, msgs, chals, n, deg)->Ok_0 == interpolation(msgs[n - 1], chals[n - 1])
        },
        (n >= 1 && (forall|i: int| 0 <= i < n ==> (#[trigger] msgs[i]).len() == deg + 1) && exists|i: int|
            0 <= i < n && fadd((#[trigger] msgs[i])[0], msgs[i][1]) != if i == 0 {
                sum
            } else {
                interpolation(msgs[i - 1], chals[i - 1])
            }) ==> sumcheck_verdict(sum, msgs, chals, n, deg) == Err::<nat, PolyIOPErrors>(
            PolyIOPErrors::InvalidProof,
        ),
{
    if n >= 1 && (forall|i: int| 0 <= i < n ==> (#[trigger] msgs[i]).len() == deg + 1) {
        assert forall|i: int| 0 <= i < n implies crate::sumcheck::expected_at(sum, msgs, chals, i) == if i == 0 {
            sum
        } else {
            interpolation(msgs[i - 1], chals[i - 1])
        } by {}
    }
}

/// Parties `1..i` agree with party 0 in auxiliary information and round count.
proof fn lemma_first_invalid_skip(ps: Seq<SumFoldProof>, k: int, i: int)
    requires
        1 <= k <= i < ps.len(),
        forall|j: int|
            1 <= j < i ==> (#[trigger] ps[j]).q_aux_info.num_variables == ps[0].q_aux_info.num_variables
                && ps[j].q_aux_info.max_degree == ps[0].q_aux_info.max_degree
                && ps[j].proof.proofs@.len() == ps[0].q_aux_info.num_variables,
    ensures
        first_invalid(ps, k) == first_invalid(ps, i),
    decreases i - k,
{
    if k < i {
        assert(ps[k].q_aux_info.num_variables == ps[0].q_aux_info.num_variables);
        lemma_first_invalid_skip(ps, k + 1, i);
    }
}

/// The merge refuses parties that do not agree with party 0: when parties
/// `1..i` agree with party 0 in the number of rounds and degree of their auxiliary
/// information and have that many round messages, and party `i` differs from
/// party 0 in the number of rounds or the degree, the verdict is
/// `IncompatibleAuxInfo(i)`, whatever the messages; when party `i` agrees in both
/// but holds another number of round messages, it is `WrongRoundCount(i, held,
/// expected)`.
pub proof fn law_merge_refuses_disagreeing_party(ps: Seq<SumFoldProof>, i: int)
    requires
        1 <= i < ps.len(),
        forall|j: int|
            1 <= j < i ==> (#[trigger] ps[j]).q_aux_info.num_variables == ps[0].q_aux_info.num_variables
                && ps[j].q_aux_info.max_degree == ps[0].q_aux_info.max_degree
                && ps[j].proof.proofs@.len() == ps[0].q_aux_info.num_variables,
    ensures
        ps[i].q_aux_info.num_variables != ps[0].q_aux_info.num_variables || ps[i].q_aux_info.max_degree
            != ps[0].q_aux_info.max_degree ==> merge_verdict(ps) == Err::<nat, crate::errors::DeSnarkError>(
            crate::errors::DeSnarkError::InvalidParameters(
                crate::errors::ParamError::IncompatibleAuxInfo(i as usize),
            ),
        ),
        ps[i].q_aux_info.num_variables == ps[0].q_aux_info.num_variables && ps[i].q_aux_info.max_degree
            == ps[0].q_aux_info.max_degree && ps[i].proof.proofs@.len() != ps[0].q_aux_info.num_variables
            ==> merge_verdict(ps) == Err::<nat, crate::errors::DeSnarkError>(
            crate::errors::DeSnarkError::InvalidParameters(
                crate::errors::ParamError::WrongRoundCount(
                    i as usize,
                    ps[i].proof.proofs@.len() as usize,
                    ps[0].q_aux_info.num_variables as usize,
                ),
            ),
        ),
{
    lemma_first_invalid_skip(ps, 1, i);
}

/// A merge that accepts saw at least one party, and every later party agrees with
/// party 0 in the number of rounds and degree of its auxiliary information and
/// holds that many round messages.
pub proof fn law_merge_accepts_only_agreeing_parties(ps: Seq<SumFoldProof>)
    ensures
        merge_verdict(ps) is Ok ==> {
            &&& ps.len() >= 1
            &&& forall|j: int|
                1 <= j < ps.len() ==> (#[trigger] ps[j]).q_aux_info.num_variables
                    == ps[0].q_aux_info.num_variables && ps[j].q_aux_info.max_degree
                    == ps[0].q_aux_info.max_degree && ps[j].proof.proofs@.len()
                    == ps[0].q_aux_info.num_variables
        },
{
    if merge_verdict(ps) is Ok {
        assert forall|j: int| 1 <= j < ps.len() implies (#[trigger] ps[j]).q_aux_info.num_variables
            == ps[0].q_aux_info.num_variables && ps[j].q_aux_info.max_degree
            == ps[0].q_aux_info.max_degree && ps[j].proof.proofs@.len()
            == ps[0].q_aux_info.num_variables by {
            lemma_first_invalid_none(ps, 1, j);
        }
    }
}

/// Where no party from `k` on has a structural problem, every party `j >= k`
/// agrees with party 0.
proof fn lemma_first_invalid_none(ps: Seq<SumFoldProof>, k: int, j: int)
    requires
        1 <= k <= j < ps.len(),
        first_invalid(ps, k) is None,
    ensures
        ps[j].q_aux_info.num_variables == ps[0].q_aux_info.num_variables
            && ps[j].q_aux_info.max_degree == ps[0].q_aux_info.max_degree
            && ps[j].proof.proofs@.len() == ps[0].q_aux_info.num_variables,
    decreases j - k,
{
    if k < j {
        lemma_first_invalid_none(ps, k + 1, j);
    }
}

/// A merge that accepts returns the sum of the parties' folded claims `v`, and
/// the combined proof passed every check: with the challenges the verifier
/// derives from the combined messages, every round's values at zero and one add up
/// to the combined claim `T` (first round) or to the previous round polynomial at
/// its challenge, and the last round polynomial at the last challenge is the
/// returned `v` times `eq(rho, r_b)`.
pub proof fn law_merge_accepts_only_consistent_proofs(ps: Seq<SumFoldProof>)
    ensures
        merge_verdict(ps) is Ok ==> {
            let v = merge_verdict(ps)->Ok_0;
            let msgs = combined_msgs(ps);
            let (rho, chals) = sumfold_verifier_view(ps[0].q_aux_info, msgs);
            let n = ps[0].q_aux_info.num_variables as nat;
            let t = fsum(Seq::new(ps.len(), |p: int| ps[p].sum_t.val()));
            &&& v == fsum(Seq::new(ps.len(), |p: int| ps[p].v.val()))
            &&& n >= 1
            &&& forall|i: int|
                0 <= i < n ==> fadd((#[trigger] msgs[i])[0], msgs[i][1]) == if i == 0 {
                    t
                } else {
                    interpolation(msgs[i - 1], chals[i - 1])
                }
            &&& interpolation(msgs[n - 1], chals[n - 1]) == fmul(v, eq_eval(rho, chals))
        },
{
    if merge_verdict(ps) is Ok {
        let msgs = combined_msgs(ps);
        let (rho, chals) = sumfold_verifier_view(ps[0].q_aux_info, msgs);
        law_verdict_checks_every_round(
            combined_sum_t(ps),
            msgs,
            chals,
            num_rounds(ps),
            ps[0].q_aux_info.max_degree as nat,
        );
    }
}

/// The network check compares every response, the master's included: it finds no
/// wrong response exactly when each `responses[i]` is `r + i` (wrapping); and a
/// response it names is one that is not `r + i`, with every response before it
/// correct.
pub proof fn law_network_checks_every_party(r: u64, responses: Seq<u64>)
    ensures
        first_bad_response(r, responses, 0) is None <==> forall|i: int|
            0 <= i < responses.len() ==> #[trigger] responses[i] as nat == (r as nat + i) % 0x1_0000_0000_0000_0000,
        first_bad_response(r, responses, 0) matches Some(i) ==> {
            &&& 0 <= i < responses.len()
            &&& responses[i] as nat != (r as nat + i) % 0x1_0000_0000_0000_0000
            &&& forall|k: int|
                0 <= k < i ==> #[trigger] responses[k] as nat == (r as nat + k) % 0x1_0000_0000_0000_0000
        },
{
    lemma_bad_from(r, responses, 0);
}

/// What `first_bad_response` finds from `i` on.
proof fn lemma_bad_from(r: u64, responses: Seq<u64>, i: int)
    requires
        0 <= i,
    ensures
        first_bad_response(r, responses, i) is None <==> forall|k: int|
            i <= k < responses.len() ==> #[trigger] responses[k] as nat == (r as nat + k) % 0x1_0000_0000_0000_0000,
        first_bad_response(r, responses, i) matches Some(j) ==> {
            &&& i <= j < responses.len()
            &&& responses[j] as nat != (r as nat + j) % 0x1_0000_0000_0000_0000
            &&& forall|k: int|
                i <= k < j ==> #[trigger] responses[k] as nat == (r as nat + k) % 0x1_0000_0000_0000_0000
        },
    decreases responses.len() - i,
{
    if i < responses.len() {
        lemma_bad_from(r, responses, i + 1);
    }
}

} // verus!
