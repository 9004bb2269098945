//! What the SumCheck rounds compute: a round polynomial of low degree whose values
//! at zero and one add up to the sum over the remaining hypercube, and whose value
//! at a challenge is the sum over the hypercube once the lowest variable is fixed
//! to that challenge.

use vstd::prelude::*;
use vstd::arithmetic::div_mod::*;
use vstd::arithmetic::power2::*;
use crate::algebra::{
    lemma_field_units, lemma_fsum_add, lemma_lift_add, lemma_lift_sub, lemma_md_md,
};
use crate::field::{
    fadd, fmul, fprod, fsub, fsum, lemma_fprod_ext, lemma_fsum_ext, lemma_fsum_pairs, modulus,
};
use crate::poly::{all_field, fix_all, fix_one, lin_at, tables_sized};
use crate::sumcheck::{
    RoundState, opt_fix, prod_at, round_inputs_wf, round_msg, round_value, run_rounds, terms_at,
    weight_at, weighted_at,
};
use crate::upoly::{
    lemma_poly_const, lemma_poly_ext, lemma_poly_fprod, lemma_poly_fsum, lemma_poly_line,
    lemma_poly_mono, lemma_poly_mul, poly_fn, slice_fn,
};

verus! {

// ---------------------------------------------------------------------------
// Sums over the hypercube
// ---------------------------------------------------------------------------

/// `sum_p c_p prod_{j in p} f_j` at entry `x` of the tables.
pub open spec fn poly_at(ts: Seq<Seq<nat>>, prods: Seq<(nat, Seq<usize>)>, x: int) -> nat {
    fsum(
        Seq::new(
            prods.len(),
            |p: int| fmul(prods[p].0, fprod(Seq::new(prods[p].1.len(), |q: int| ts[prods[p].1[q] as int][x]))),
        ),
    )
}

/// The value at entry `x`, weighted by the eq table when one is given.
pub open spec fn point_at(
    ts: Seq<Seq<nat>>,
    eqt: Option<Seq<nat>>,
    prods: Seq<(nat, Seq<usize>)>,
    x: int,
) -> nat {
    match eqt {
        Some(e) => fmul(e[x % (e.len() as int)], poly_at(ts, prods, x)),
        None => poly_at(ts, prods, x),
    }
}

/// The sum of the weighted values over the first `size` entries.
pub open spec fn hyper_sum(
    ts: Seq<Seq<nat>>,
    eqt: Option<Seq<nat>>,
    prods: Seq<(nat, Seq<usize>)>,
    size: nat,
) -> nat {
    fsum(Seq::new(size, |x: int| point_at(ts, eqt, prods, x)))
}

/// Every entry of every table is a field value.
pub open spec fn tables_field(ts: Seq<Seq<nat>>) -> bool {
    forall|j: int, k: int| 0 <= j < ts.len() && 0 <= k < ts[j].len() ==> #[trigger] ts[j][k] < modulus()
}

/// An eq table, when there is one, holds field values.
pub open spec fn opt_field(e: Option<Seq<nat>>) -> bool {
    match e {
        Some(t) => all_field(t),
        None => true,
    }
}

/// Every coefficient is a field value and no product has more than `d`
/// multiplicands.
pub open spec fn prods_fit(prods: Seq<(nat, Seq<usize>)>, d: nat) -> bool {
    forall|p: int| 0 <= p < prods.len() ==> (#[trigger] prods[p]).0 < modulus() && prods[p].1.len() <= d
}

// ---------------------------------------------------------------------------
// The round polynomial has low degree
// ---------------------------------------------------------------------------

/// A table on its line at pair `b` is a polynomial of degree one.
pub proof fn lemma_lin_poly(t: Seq<nat>, b: int)
    ensures
        poly_fn(|x: nat| lin_at(t, b, x), 1),
{
    lemma_poly_line(t[2 * b], fsub(t[2 * b + 1], t[2 * b]));
    lemma_poly_ext(
        |x: nat| fadd(t[2 * b], fmul(fsub(t[2 * b + 1], t[2 * b]), x)),
        |x: nat| lin_at(t, b, x),
        1,
    );
}

/// A product of multiplicands on their lines has degree at most their number.
pub proof fn lemma_prod_poly(ts: Seq<Seq<nat>>, idx: Seq<usize>, b: int)
    ensures
        poly_fn(|x: nat| prod_at(ts, idx, b, x), idx.len()),
{
    let g = |q: int, x: nat| lin_at(ts[idx[q] as int], b, x);
    assert forall|q: int| 0 <= q < idx.len() implies #[trigger] poly_fn(slice_fn(g, q), 1) by {
        lemma_lin_poly(ts[idx[q] as int], b);
        lemma_poly_ext(|x: nat| lin_at(ts[idx[q] as int], b, x), slice_fn(g, q), 1);
    }
    lemma_poly_fprod(idx.len(), g);
    assert forall|x: nat| #[trigger] prod_at(ts, idx, b, x) == fprod(Seq::new(idx.len(), |i: int| g(i, x))) by {
        assert(Seq::new(idx.len(), |i: int| g(i, x)) =~= Seq::new(
            idx.len(),
            |q: int| lin_at(ts[idx[q] as int], b, x),
        ));
    }
    lemma_poly_ext(
        |x: nat| fprod(Seq::new(idx.len(), |i: int| g(i, x))),
        |x: nat| prod_at(ts, idx, b, x),
        idx.len(),
    );
}

/// The terms at pair `b` have degree at most `d`.
pub proof fn lemma_terms_poly(ts: Seq<Seq<nat>>, prods: Seq<(nat, Seq<usize>)>, b: int, d: nat)
    requires
        prods_fit(prods, d),
    ensures
        poly_fn(|x: nat| terms_at(ts, prods, b, x), d),
{
    let g = |p: int, x: nat| fmul(prods[p].0, prod_at(ts, prods[p].1, b, x));
    assert forall|p: int| 0 <= p < prods.len() implies #[trigger] poly_fn(slice_fn(g, p), d) by {
        let k = prods[p].0;
        let pr = |x: nat| prod_at(ts, prods[p].1, b, x);
        lemma_prod_poly(ts, prods[p].1, b);
        lemma_poly_mono(pr, prods[p].1.len(), d);
        lemma_poly_const(k);
        lemma_poly_mul(|x: nat| k, pr, 0, d);
        lemma_poly_ext(|x: nat| fmul((|x: nat| k)(x), pr(x)), slice_fn(g, p), 0 + d);
    }
    lemma_poly_fsum(prods.len(), g, d);
    assert forall|x: nat| #[trigger] terms_at(ts, prods, b, x) == fsum(Seq::new(prods.len(), |i: int| g(i, x))) by {
        assert(Seq::new(prods.len(), |i: int| g(i, x)) =~= Seq::new(
            prods.len(),
            |p: int| fmul(prods[p].0, prod_at(ts, prods[p].1, b, x)),
        ));
    }
    lemma_poly_ext(
        |x: nat| fsum(Seq::new(prods.len(), |i: int| g(i, x))),
        |x: nat| terms_at(ts, prods, b, x),
        d,
    );
}

/// The degree of a round polynomial: that of the products, one more with an eq
/// table.
pub open spec fn round_degree(eqt: Option<Seq<nat>>, d: nat) -> nat {
    match eqt {
        Some(_) => d + 1,
        None => d,
    }
}

/// The round polynomial has degree at most `round_degree(eqt, d)`.
pub proof fn lemma_round_poly(
    ts: Seq<Seq<nat>>,
    eqt: Option<Seq<nat>>,
    prods: Seq<(nat, Seq<usize>)>,
    nb: nat,
    d: nat,
)
    requires
        prods_fit(prods, d),
    ensures
        poly_fn(|x: nat| round_value(ts, eqt, prods, nb, x), round_degree(eqt, d)),
{
    let dd = round_degree(eqt, d);
    let g = |b: int, x: nat| weighted_at(ts, eqt, prods, b, x);
    assert forall|b: int| 0 <= b < nb implies #[trigger] poly_fn(slice_fn(g, b), dd) by {
        lemma_terms_poly(ts, prods, b, d);
        let tm = |x: nat| terms_at(ts, prods, b, x);
        match eqt {
            Some(e) => {
                let h = (e.len() / 2) as int;
                let w = |x: nat| lin_at(e, b % h, x);
                lemma_lin_poly(e, b % h);
                lemma_poly_mul(w, tm, 1, d);
                lemma_poly_ext(|x: nat| fmul(w(x), tm(x)), slice_fn(g, b), 1 + d);
            },
            None => {
                lemma_poly_ext(tm, slice_fn(g, b), d);
            },
        }
    }
    lemma_poly_fsum(nb, g, dd);
    assert forall|x: nat| #[trigger] round_value(ts, eqt, prods, nb, x) == fsum(Seq::new(nb, |i: int| g(i, x))) by {
        assert(Seq::new(nb, |i: int| g(i, x)) =~= Seq::new(nb, |b: int| weighted_at(ts, eqt, prods, b, x)));
    }
    lemma_poly_ext(
        |x: nat| fsum(Seq::new(nb, |i: int| g(i, x))),
        |x: nat| round_value(ts, eqt, prods, nb, x),
        dd,
    );
}

// ---------------------------------------------------------------------------
// The round identities
// ---------------------------------------------------------------------------

/// A line through two field values takes them at zero and one.
pub proof fn lemma_lin_at_01(t: Seq<nat>, b: int)
    requires
        0 <= b,
        2 * b + 1 < t.len(),
        t[2 * b] < modulus(),
        t[2 * b + 1] < modulus(),
    ensures
        lin_at(t, b, 0) == t[2 * b],
        lin_at(t, b, 1) == t[2 * b + 1],
{
    let (t0, t1) = (t[2 * b], t[2 * b + 1]);
    let d = fsub(t1, t0);
    assert(d * 0 == 0);
    lemma_field_units(t0);
    lemma_field_units(d);
    let (t0i, t1i) = (t0 as int, t1 as int);
    lemma_md_md(t0i);
    lemma_md_md(t1i);
    lemma_lift_sub(t1, t0, t1i, t0i);
    lemma_md_md(t1i - t0i);
    lemma_lift_add(t0, d, t0i, t1i - t0i);
    lemma_small_mod(t1, modulus());
}

/// `2b` and `2b + 1` modulo `2h` are twice `b` modulo `h`, and one more.
pub proof fn lemma_double_mod(b: int, h: int)
    requires
        0 <= b,
        0 < h,
    ensures
        (2 * b) % (2 * h) == 2 * (b % h),
        (2 * b + 1) % (2 * h) == 2 * (b % h) + 1,
{
    lemma_fundamental_div_mod(b, h);
    lemma_mod_bound(b, h);
    let (q, r) = (b / h, b % h);
    assert(2 * b == (2 * h) * q + 2 * r) by (nonlinear_arith)
        requires
            b == h * q + r,
    ;
    lemma_fundamental_div_mod_converse(2 * b, 2 * h, q, 2 * r);
    lemma_fundamental_div_mod_converse(2 * b + 1, 2 * h, q, 2 * r + 1);
}

/// The weighted terms of pair `b` at zero and one are the values at entries `2b`
/// and `2b + 1`.
#[verifier::spinoff_prover]
proof fn lemma_weighted_at_01(
    ts: Seq<Seq<nat>>,
    eqt: Option<Seq<nat>>,
    prods: Seq<(nat, Seq<usize>)>,
    nb: nat,
    b: int,
)
    requires
        round_inputs_wf(ts, eqt, prods, nb),
        tables_field(ts),
        opt_field(eqt),
        0 <= b < nb,
    ensures
        weighted_at(ts, eqt, prods, b, 0) == point_at(ts, eqt, prods, 2 * b),
        weighted_at(ts, eqt, prods, b, 1) == point_at(ts, eqt, prods, 2 * b + 1),
{
    assert forall|p: int| 0 <= p < prods.len() implies #[trigger] prod_at(ts, prods[p].1, b, 0) == fprod(
        Seq::new(prods[p].1.len(), |q: int| ts[prods[p].1[q] as int][2 * b]),
    ) && prod_at(ts, prods[p].1, b, 1) == fprod(
        Seq::new(prods[p].1.len(), |q: int| ts[prods[p].1[q] as int][2 * b + 1]),
    ) by {
        let idx = prods[p].1;
        assert forall|q: int| 0 <= q < idx.len() implies #[trigger] lin_at(ts[idx[q] as int], b, 0)
            == ts[idx[q] as int][2 * b] && lin_at(ts[idx[q] as int], b, 1) == ts[idx[q] as int][2 * b + 1] by {
            let j = idx[q] as int;
            assert(idx[q] < ts.len());
            assert(ts[j].len() == 2 * nb);
            assert(ts[j][2 * b] < modulus());
            assert(ts[j][2 * b + 1] < modulus());
            lemma_lin_at_01(ts[j], b);
        }
        lemma_fprod_ext(
            Seq::new(idx.len(), |q: int| lin_at(ts[idx[q] as int], b, 0)),
            Seq::new(idx.len(), |q: int| ts[idx[q] as int][2 * b]),
        );
        lemma_fprod_ext(
            Seq::new(idx.len(), |q: int| lin_at(ts[idx[q] as int], b, 1)),
            Seq::new(idx.len(), |q: int| ts[idx[q] as int][2 * b + 1]),
        );
    }
    assert forall|p: int| 0 <= p < prods.len() implies #[trigger] prod_at(ts, prods[p].1, b, 1) == fprod(
        Seq::new(prods[p].1.len(), |q: int| ts[prods[p].1[q] as int][2 * b + 1]),
    ) by {
        assert(prod_at(ts, prods[p].1, b, 0) == fprod(
            Seq::new(prods[p].1.len(), |q: int| ts[prods[p].1[q] as int][2 * b]),
        ));
    }
    lemma_fsum_ext(
        Seq::new(prods.len(), |p: int| fmul(prods[p].0, prod_at(ts, prods[p].1, b, 0))),
        Seq::new(
            prods.len(),
            |p: int| fmul(prods[p].0, fprod(Seq::new(prods[p].1.len(), |q: int| ts[prods[p].1[q] as int][2 * b]))),
        ),
    );
    lemma_fsum_ext(
        Seq::new(prods.len(), |p: int| fmul(prods[p].0, prod_at(ts, prods[p].1, b, 1))),
        Seq::new(
            prods.len(),
            |p: int| fmul(prods[p].0, fprod(Seq::new(prods[p].1.len(), |q: int| ts[prods[p].1[q] as int][2 * b + 1]))),
        ),
    );
    assert(terms_at(ts, prods, b, 0) == poly_at(ts, prods, 2 * b));
    assert(terms_at(ts, prods, b, 1) == poly_at(ts, prods, 2 * b + 1));
    match eqt {
        Some(e) => {
            let h = (e.len() / 2) as int;
            lemma_double_mod(b, h);
            assert(e.len() as int == 2 * h);
            lemma_mod_bound(b, h);
            lemma_lin_at_01(e, b % h);
        },
        None => {},
    }
}

/// The round polynomial's values at zero and one add up to the sum over the
/// `2 nb` entries.
#[verifier::spinoff_prover]
pub proof fn lemma_round_sum_01(
    ts: Seq<Seq<nat>>,
    eqt: Option<Seq<nat>>,
    prods: Seq<(nat, Seq<usize>)>,
    nb: nat,
)
    requires
        round_inputs_wf(ts, eqt, prods, nb),
        tables_field(ts),
        opt_field(eqt),
    ensures
        fadd(round_value(ts, eqt, prods, nb, 0), round_value(ts, eqt, prods, nb, 1)) == hyper_sum(
            ts,
            eqt,
            prods,
            2 * nb,
        ),
{
    let g = |x: int| point_at(ts, eqt, prods, x);
    let g0 = |b: int| g(2 * b);
    let g1 = |b: int| g(2 * b + 1);
    assert forall|b: int| 0 <= b < nb implies #[trigger] weighted_at(ts, eqt, prods, b, 0) == g0(b)
        && weighted_at(ts, eqt, prods, b, 1) == g1(b) by {
        lemma_weighted_at_01(ts, eqt, prods, nb, b);
    }
    lemma_fsum_ext(Seq::new(nb, |b: int| weighted_at(ts, eqt, prods, b, 0)), Seq::new(nb, g0));
    assert forall|b: int| 0 <= b < nb implies #[trigger] weighted_at(ts, eqt, prods, b, 1) == g1(b) by {
        assert(weighted_at(ts, eqt, prods, b, 0) == g0(b));
    }
    lemma_fsum_ext(Seq::new(nb, |b: int| weighted_at(ts, eqt, prods, b, 1)), Seq::new(nb, g1));
    lemma_fsum_add(nb, g0, g1);
    lemma_fsum_pairs(nb, g);
    assert(Seq::new(nb, |i: int| fadd(g0(i), g1(i))) =~= Seq::new(nb, |i: int| fadd(g(2 * i), g(2 * i + 1))));
    assert(Seq::new(2 * nb, g) =~= Seq::new(2 * nb, |x: int| point_at(ts, eqt, prods, x)));
}

/// Fixing the lowest variable to `c` and summing over the remaining entries gives
/// the round polynomial at `c`.
#[verifier::spinoff_prover]
pub proof fn lemma_round_sum_fixed(
    ts: Seq<Seq<nat>>,
    eqt: Option<Seq<nat>>,
    prods: Seq<(nat, Seq<usize>)>,
    nb: nat,
    c: nat,
)
    requires
        round_inputs_wf(ts, eqt, prods, nb),
    ensures
        hyper_sum(fix_all(ts, c), opt_fix(eqt, c), prods, nb) == round_value(ts, eqt, prods, nb, c),
{
    let fts = fix_all(ts, c);
    let fe = opt_fix(eqt, c);
    assert forall|x: int| 0 <= x < nb implies #[trigger] point_at(fts, fe, prods, x) == weighted_at(
        ts,
        eqt,
        prods,
        x,
        c,
    ) by {
        assert forall|p: int| 0 <= p < prods.len() implies fprod(
            Seq::new(prods[p].1.len(), |q: int| fts[prods[p].1[q] as int][x]),
        ) == #[trigger] prod_at(ts, prods[p].1, x, c) by {
            let idx = prods[p].1;
            assert forall|q: int| 0 <= q < idx.len() implies #[trigger] fts[idx[q] as int][x] == lin_at(
                ts[idx[q] as int],
                x,
                c,
            ) by {
                let j = idx[q] as int;
                assert(idx[q] < ts.len());
                assert(fts[j] == fix_one(ts[j], c));
                assert(ts[j].len() == 2 * nb);
            }
            lemma_fprod_ext(
                Seq::new(idx.len(), |q: int| fts[idx[q] as int][x]),
                Seq::new(idx.len(), |q: int| lin_at(ts[idx[q] as int], x, c)),
            );
        }
        lemma_fsum_ext(
            Seq::new(
                prods.len(),
                |p: int| fmul(prods[p].0, fprod(Seq::new(prods[p].1.len(), |q: int| fts[prods[p].1[q] as int][x]))),
            ),
            Seq::new(prods.len(), |p: int| fmul(prods[p].0, prod_at(ts, prods[p].1, x, c))),
        );
        match eqt {
            Some(e) => {
                let h = (e.len() / 2) as int;
                lemma_mod_bound(x, h);
            },
            None => {},
        }
    }
    lemma_fsum_ext(
        Seq::new(nb, |x: int| point_at(fts, fe, prods, x)),
        Seq::new(nb, |x: int| weighted_at(ts, eqt, prods, x, c)),
    );
}

// ---------------------------------------------------------------------------
// Honest runs
// ---------------------------------------------------------------------------

/// The prover's inputs fit `n` rounds over `2^(n + extra)` entries: tables of that
/// size holding field values, multiplicands that exist, and an eq table of `2^n`
/// field values when there is one.
pub open spec fn run_wf(
    ts: Seq<Seq<nat>>,
    eqt: Option<Seq<nat>>,
    prods: Seq<(nat, Seq<usize>)>,
    size: nat,
    n: nat,
    extra: nat,
) -> bool {
    &&& size == pow2(n + extra)
    &&& tables_sized(ts, size)
    &&& tables_field(ts)
    &&& opt_field(eqt)
    &&& forall|p: int, q: int|
        0 <= p < prods.len() && 0 <= q < prods[p].1.len() ==> (#[trigger] prods[p].1[q]) < ts.len()
    &&& match eqt {
        Some(e) => e.len() == pow2(n),
        None => true,
    }
}

/// After `i` of `n` rounds the tables have `2^(n - i + extra)` field values, and
/// the eq table `2^(n - i)`.
pub proof fn lemma_run_state(
    ts: Seq<Seq<nat>>,
    eqt: Option<Seq<nat>>,
    prods: Seq<(nat, Seq<usize>)>,
    deg: nat,
    size: nat,
    ops: Seq<crate::transcript::TranscriptOp>,
    n: nat,
    extra: nat,
    i: nat,
)
    requires
        run_wf(ts, eqt, prods, size, n, extra),
        i <= n,
    ensures
        ({
            let s = run_rounds(ts, eqt, prods, deg, size, ops, i);
            &&& s.size == pow2((n - i) as nat + extra)
            &&& s.tables.len() == ts.len()
            &&& tables_sized(s.tables, s.size)
            &&& tables_field(s.tables)
            &&& opt_field(s.eqt)
            &&& (s.eqt is Some <==> eqt is Some)
            &&& (s.eqt matches Some(e) ==> e.len() == pow2((n - i) as nat))
        }),
    decreases i,
{
    if i > 0 {
        let k = (i - 1) as nat;
        lemma_run_state(ts, eqt, prods, deg, size, ops, n, extra, k);
        let s0 = run_rounds(ts, eqt, prods, deg, size, ops, k);
        let s = run_rounds(ts, eqt, prods, deg, size, ops, i);
        let nb = s0.size / 2;
        lemma_pow2_unfold((n - k) as nat + extra);
        lemma_pow2_unfold((n - k) as nat);
        assert((n - k) as nat + extra - 1 == (n - i) as nat + extra);
        crate::sumcheck::lemma_run_rounds_len(ts, eqt, prods, deg, size, ops, k);
        assert forall|j: int, x: int| 0 <= j < s.tables.len() && 0 <= x < s.tables[j].len()
            implies #[trigger] s.tables[j][x] < modulus() by {
            assert(s.tables[j] == fix_one(s0.tables[j], s.chals[k as int]));
        }
        assert forall|j: int| 0 <= j < s.tables.len() implies (#[trigger] s.tables[j]).len() == s.size by {
            assert(s.tables[j] == fix_one(s0.tables[j], s.chals[k as int]));
            assert(s0.tables[j].len() == s0.size);
        }
        match s.eqt {
            Some(e) => {
                assert(all_field(e));
            },
            None => {},
        }
    }
}

/// Round `i < n` of a run sees inputs that fit a round.
pub proof fn lemma_run_round_wf(
    ts: Seq<Seq<nat>>,
    eqt: Option<Seq<nat>>,
    prods: Seq<(nat, Seq<usize>)>,
    deg: nat,
    size: nat,
    ops: Seq<crate::transcript::TranscriptOp>,
    n: nat,
    extra: nat,
    i: nat,
)
    requires
        run_wf(ts, eqt, prods, size, n, extra),
        i < n,
    ensures
        ({
            let s = run_rounds(ts, eqt, prods, deg, size, ops, i);
            &&& round_inputs_wf(s.tables, s.eqt, prods, s.size / 2)
            &&& s.size == 2 * (s.size / 2)
            &&& tables_field(s.tables)
            &&& opt_field(s.eqt)
            &&& (s.eqt is Some <==> eqt is Some)
        }),
{
    lemma_run_state(ts, eqt, prods, deg, size, ops, n, extra, i);
    let s = run_rounds(ts, eqt, prods, deg, size, ops, i);
    lemma_pow2_unfold((n - i) as nat + extra);
    lemma_pow2_unfold((n - i) as nat);
    lemma_pow2_pos((n - i - 1) as nat);
    assert forall|j: int| 0 <= j < s.tables.len() implies (#[trigger] s.tables[j]).len() == 2 * (s.size / 2) by {}
}

/// The first `i` messages and challenges of a run of `n` rounds are those of the
/// run of `i` rounds.
pub proof fn lemma_run_prefix(
    ts: Seq<Seq<nat>>,
    eqt: Option<Seq<nat>>,
    prods: Seq<(nat, Seq<usize>)>,
    deg: nat,
    size: nat,
    ops: Seq<crate::transcript::TranscriptOp>,
    n: nat,
    i: nat,
)
    requires
        i <= n,
    ensures
        run_rounds(ts, eqt, prods, deg, size, ops, n).msgs.subrange(0, i as int) == run_rounds(
            ts,
            eqt,
            prods,
            deg,
            size,
            ops,
            i,
        ).msgs,
        run_rounds(ts, eqt, prods, deg, size, ops, n).chals.subrange(0, i as int) == run_rounds(
            ts,
            eqt,
            prods,
            deg,
            size,
            ops,
            i,
        ).chals,
    decreases n,
{
    let sn = run_rounds(ts, eqt, prods, deg, size, ops, n);
    crate::sumcheck::lemma_run_rounds_len(ts, eqt, prods, deg, size, ops, n);
    crate::sumcheck::lemma_run_rounds_len(ts, eqt, prods, deg, size, ops, i);
    if n == i {
        assert(sn.msgs.subrange(0, i as int) =~= sn.msgs);
        assert(sn.chals.subrange(0, i as int) =~= sn.chals);
    } else {
        let k = (n - 1) as nat;
        lemma_run_prefix(ts, eqt, prods, deg, size, ops, k, i);
        let sp = run_rounds(ts, eqt, prods, deg, size, ops, k);
        crate::sumcheck::lemma_run_rounds_len(ts, eqt, prods, deg, size, ops, k);
        assert(sn.msgs.subrange(0, i as int) =~= sp.msgs.subrange(0, i as int));
        assert(sn.chals.subrange(0, i as int) =~= sp.chals.subrange(0, i as int));
    }
}

/// Round `i` of a run: its message is the round polynomial of the state after `i`
/// rounds, and the state after `i + 1` rounds fixes the lowest variable to its
/// challenge.
pub proof fn lemma_run_round(
    ts: Seq<Seq<nat>>,
    eqt: Option<Seq<nat>>,
    prods: Seq<(nat, Seq<usize>)>,
    deg: nat,
    size: nat,
    ops: Seq<crate::transcript::TranscriptOp>,
    n: nat,
    i: nat,
)
    requires
        i < n,
    ensures
        ({
            let sn = run_rounds(ts, eqt, prods, deg, size, ops, n);
            let si = run_rounds(ts, eqt, prods, deg, size, ops, i);
            let sj = run_rounds(ts, eqt, prods, deg, size, ops, i + 1);
            &&& sn.msgs[i as int] == round_msg(si.tables, si.eqt, prods, si.size / 2, deg)
            &&& sj.tables == fix_all(si.tables, sn.chals[i as int])
            &&& sj.eqt == opt_fix(si.eqt, sn.chals[i as int])
            &&& sj.size == si.size / 2
        }),
{
    lemma_run_prefix(ts, eqt, prods, deg, size, ops, n, i + 1);
    crate::sumcheck::lemma_run_rounds_len(ts, eqt, prods, deg, size, ops, i);
    crate::sumcheck::lemma_run_rounds_len(ts, eqt, prods, deg, size, ops, n);
    let sn = run_rounds(ts, eqt, prods, deg, size, ops, n);
    let sj = run_rounds(ts, eqt, prods, deg, size, ops, i + 1);
    assert(sn.msgs[i as int] == sn.msgs.subrange(0, i as int + 1)[i as int]);
    assert(sn.chals[i as int] == sn.chals.subrange(0, i as int + 1)[i as int]);
    assert(sj.chals[i as int] == sj.chals.last());
}

/// Replaying an honest run's messages, the verifier derives the prover's
/// challenges and ends with the prover's transcript.
pub proof fn lemma_verifier_replays(
    ts: Seq<Seq<nat>>,
    eqt: Option<Seq<nat>>,
    prods: Seq<(nat, Seq<usize>)>,
    deg: nat,
    size: nat,
    ops: Seq<crate::transcript::TranscriptOp>,
    n: nat,
    i: nat,
)
    requires
        i <= n,
    ensures
        crate::sumcheck::verifier_rounds(ops, run_rounds(ts, eqt, prods, deg, size, ops, n).msgs, i) == (
            run_rounds(ts, eqt, prods, deg, size, ops, i).chals,
            run_rounds(ts, eqt, prods, deg, size, ops, i).ops,
        ),
    decreases i,
{
    if i > 0 {
        let k = (i - 1) as nat;
        lemma_verifier_replays(ts, eqt, prods, deg, size, ops, n, k);
        lemma_run_round(ts, eqt, prods, deg, size, ops, n, k);
    }
}

/// The round polynomial of a state, interpolated from its message at any point,
/// is the round polynomial at that point.
pub proof fn lemma_round_interp(
    ts: Seq<Seq<nat>>,
    eqt: Option<Seq<nat>>,
    prods: Seq<(nat, Seq<usize>)>,
    nb: nat,
    deg: nat,
    d: nat,
    c: nat,
)
    requires
        prods_fit(prods, d),
        round_degree(eqt, d) <= deg,
        deg + 1 < modulus(),
        crate::poly::lagrange_defined(deg + 1),
    ensures
        crate::poly::interpolation(round_msg(ts, eqt, prods, nb, deg), c) == round_value(ts, eqt, prods, nb, c),
{
    let f = |x: nat| round_value(ts, eqt, prods, nb, x);
    lemma_round_poly(ts, eqt, prods, nb, d);
    lemma_poly_mono(f, round_degree(eqt, d), deg);
    crate::upoly::lemma_interpolation_exact(f, deg + 1, c);
    assert(round_msg(ts, eqt, prods, nb, deg) =~= Seq::new(deg + 1, |k: int| f(k as nat)));
}

/// The messages of an honest run pass the verifier's checks: the first adds up to
/// the sum over the hypercube, each later one to the previous round polynomial at
/// its challenge, and the last round polynomial at the last challenge is the sum
/// over what is left once every round's variable is fixed.
#[verifier::spinoff_prover]
pub proof fn lemma_run_checks(
    ts: Seq<Seq<nat>>,
    eqt: Option<Seq<nat>>,
    prods: Seq<(nat, Seq<usize>)>,
    deg: nat,
    size: nat,
    ops: Seq<crate::transcript::TranscriptOp>,
    n: nat,
    extra: nat,
    d: nat,
)
    requires
        run_wf(ts, eqt, prods, size, n, extra),
        n >= 1,
        prods_fit(prods, d),
        round_degree(eqt, d) <= deg,
        deg >= 1,
        deg + 1 < modulus(),
        crate::poly::lagrange_defined(deg + 1),
    ensures
        ({
            let s = run_rounds(ts, eqt, prods, deg, size, ops, n);
            &&& fadd(s.msgs[0][0], s.msgs[0][1]) == hyper_sum(ts, eqt, prods, size)
            &&& forall|i: int|
                1 <= i < n ==> fadd((#[trigger] s.msgs[i])[0], s.msgs[i][1]) == crate::poly::interpolation(
                    s.msgs[i - 1],
                    s.chals[i - 1],
                )
            &&& crate::poly::interpolation(s.msgs[n - 1], s.chals[n - 1]) == hyper_sum(s.tables, s.eqt, prods, s.size)
        }),
{
    let s = run_rounds(ts, eqt, prods, deg, size, ops, n);
    // every round's values at zero and one add up to the sum over its state
    assert forall|i: nat| i < n implies fadd((#[trigger] s.msgs[i as int])[0], s.msgs[i as int][1]) == hyper_sum(
        run_rounds(ts, eqt, prods, deg, size, ops, i).tables,
        run_rounds(ts, eqt, prods, deg, size, ops, i).eqt,
        prods,
        run_rounds(ts, eqt, prods, deg, size, ops, i).size,
    ) by {
        let si = run_rounds(ts, eqt, prods, deg, size, ops, i);
        lemma_run_round(ts, eqt, prods, deg, size, ops, n, i);
        lemma_run_round_wf(ts, eqt, prods, deg, size, ops, n, extra, i);
        lemma_round_sum_01(si.tables, si.eqt, prods, si.size / 2);
    }
    // and the sum over the state after round i is round i's polynomial at its challenge
    assert forall|i: nat| i < n implies #[trigger] crate::poly::interpolation(s.msgs[i as int], s.chals[i as int])
        == hyper_sum(
        run_rounds(ts, eqt, prods, deg, size, ops, i + 1).tables,
        run_rounds(ts, eqt, prods, deg, size, ops, i + 1).eqt,
        prods,
        run_rounds(ts, eqt, prods, deg, size, ops, i + 1).size,
    ) by {
        let si = run_rounds(ts, eqt, prods, deg, size, ops, i);
        lemma_run_round(ts, eqt, prods, deg, size, ops, n, i);
        lemma_run_round_wf(ts, eqt, prods, deg, size, ops, n, extra, i);
        lemma_round_sum_fixed(si.tables, si.eqt, prods, si.size / 2, s.chals[i as int]);
        lemma_round_interp(si.tables, si.eqt, prods, si.size / 2, deg, d, s.chals[i as int]);
        assert(round_degree(si.eqt, d) == round_degree(eqt, d));
    }
    assert(fadd(s.msgs[0][0], s.msgs[0][1]) == hyper_sum(ts, eqt, prods, size)) by {
        assert(s.msgs[0int] == s.msgs[0nat as int]);
    }
    assert forall|i: int| 1 <= i < n implies fadd((#[trigger] s.msgs[i])[0], s.msgs[i][1])
        == crate::poly::interpolation(s.msgs[i - 1], s.chals[i - 1]) by {
        let k = (i - 1) as nat;
        assert(fadd(s.msgs[i as nat as int][0], s.msgs[i as nat as int][1]) == hyper_sum(
            run_rounds(ts, eqt, prods, deg, size, ops, i as nat).tables,
            run_rounds(ts, eqt, prods, deg, size, ops, i as nat).eqt,
            prods,
            run_rounds(ts, eqt, prods, deg, size, ops, i as nat).size,
        ));
        assert(crate::poly::interpolation(s.msgs[k as int], s.chals[k as int]) == hyper_sum(
            run_rounds(ts, eqt, prods, deg, size, ops, k + 1).tables,
            run_rounds(ts, eqt, prods, deg, size, ops, k + 1).eqt,
            prods,
            run_rounds(ts, eqt, prods, deg, size, ops, k + 1).size,
        ));
        assert(k + 1 == i as nat);
    }
    let k = (n - 1) as nat;
    assert(crate::poly::interpolation(s.msgs[k as int], s.chals[k as int]) == hyper_sum(
        run_rounds(ts, eqt, prods, deg, size, ops, k + 1).tables,
        run_rounds(ts, eqt, prods, deg, size, ops, k + 1).eqt,
        prods,
        run_rounds(ts, eqt, prods, deg, size, ops, k + 1).size,
    ));
    assert(k + 1 == n);
}

} // verus!
