//! Univariate polynomials over the scalar field, held as coefficient sequences
//! (constant term first), and why Lagrange interpolation through the points
//! `0, 1, ..., n - 1` gives back every polynomial of degree below `n`.

use vstd::prelude::*;
use vstd::arithmetic::div_mod::*;
use crate::algebra::{
    has_inverse, lemma_field_units, lemma_fmul_assoc, lemma_fmul_comm, lemma_lift_add,
    lemma_lift_mul, lemma_lift_sub, lemma_lift_val, lemma_md_md, lemma_unit_cancel,
    lemma_unit_prod_factor, md,
};
use crate::field::{
    fadd, finv, fmul, fprod, fsub, fsum, is_inverse, lemma_fprod_new_step, lemma_fsum_new_step,
    modulus,
};
use crate::poly::{interpolation, lagrange_den, lagrange_defined, lagrange_factor, lagrange_num};

verus! {

/// Coefficient `i`, zero past the end.
pub open spec fn coef(c: Seq<nat>, i: int) -> nat {
    if 0 <= i < c.len() {
        c[i]
    } else {
        0
    }
}

/// The coefficients after the constant term.
pub open spec fn ptail(c: Seq<nat>) -> Seq<nat> {
    if c.len() == 0 {
        c
    } else {
        c.drop_first()
    }
}

/// The polynomial with coefficients `c` at `x`, by Horner's rule.
pub open spec fn peval(c: Seq<nat>, x: nat) -> nat
    decreases c.len(),
{
    if c.len() == 0 {
        0
    } else {
        fadd(c[0], fmul(x, peval(c.drop_first(), x)))
    }
}

/// The sum of two polynomials.
pub open spec fn padd(a: Seq<nat>, b: Seq<nat>) -> Seq<nat> {
    Seq::new(
        if a.len() >= b.len() {
            a.len()
        } else {
            b.len()
        },
        |i: int| fadd(coef(a, i), coef(b, i)),
    )
}

/// A polynomial times a constant.
pub open spec fn pscale(k: nat, a: Seq<nat>) -> Seq<nat> {
    Seq::new(a.len(), |i: int| fmul(k, a[i]))
}

/// A polynomial times `x`.
pub open spec fn pshift(c: Seq<nat>) -> Seq<nat> {
    seq![0nat] + c
}

/// The product of two polynomials.
pub open spec fn pmul(a: Seq<nat>, b: Seq<nat>) -> Seq<nat>
    decreases a.len(),
{
    if a.len() == 0 {
        Seq::empty()
    } else {
        padd(pscale(a[0], b), pshift(pmul(a.drop_first(), b)))
    }
}

/// `f` is a polynomial function of degree at most `d`.
pub open spec fn poly_fn(f: spec_fn(nat) -> nat, d: nat) -> bool {
    exists|c: Seq<nat>| c.len() <= d + 1 && forall|x: nat| #[trigger] peval(c, x) == f(x)
}

/// The function `x -> g(i, x)`.
pub open spec fn slice_fn(g: spec_fn(int, nat) -> nat, i: int) -> spec_fn(nat) -> nat {
    |x: nat| g(i, x)
}

/// Horner's rule, with the empty polynomial read as zero.
pub proof fn lemma_peval_unfold(c: Seq<nat>, x: nat)
    ensures
        peval(c, x) == fadd(coef(c, 0), fmul(x, peval(ptail(c), x))),
        peval(c, x) < modulus(),
{
    if c.len() == 0 {
        assert(x * 0 == 0);
    }
}

/// Sums of polynomials evaluate to sums.
#[verifier::spinoff_prover]
pub proof fn lemma_padd(a: Seq<nat>, b: Seq<nat>, x: nat)
    ensures
        peval(padd(a, b), x) == fadd(peval(a, x), peval(b, x)),
    decreases a.len() + b.len(),
{
    let s = padd(a, b);
    lemma_peval_unfold(a, x);
    lemma_peval_unfold(b, x);
    lemma_peval_unfold(s, x);
    if a.len() == 0 && b.len() == 0 {
        assert(s.len() == 0);
    } else {
        assert(ptail(s) =~= padd(ptail(a), ptail(b)));
        lemma_padd(ptail(a), ptail(b), x);
        assert(coef(s, 0) == fadd(coef(a, 0), coef(b, 0)));
        let (a0, b0) = (coef(a, 0), coef(b, 0));
        let (pa, pb) = (peval(ptail(a), x), peval(ptail(b), x));
        let (a0i, b0i, pai, pbi, xi) = (a0 as int, b0 as int, pa as int, pb as int, x as int);
        lemma_md_md(a0i);
        lemma_md_md(b0i);
        lemma_md_md(pai);
        lemma_md_md(pbi);
        lemma_md_md(xi);
        // left: (a0 + b0) + x (pa + pb)
        lemma_lift_add(a0, b0, a0i, b0i);
        lemma_lift_add(pa, pb, pai, pbi);
        lemma_md_md(pai + pbi);
        lemma_md_md(a0i + b0i);
        lemma_lift_mul(x, fadd(pa, pb), xi, pai + pbi);
        lemma_md_md(xi * (pai + pbi));
        lemma_lift_add(fadd(a0, b0), fmul(x, fadd(pa, pb)), a0i + b0i, xi * (pai + pbi));
        // right: (a0 + x pa) + (b0 + x pb)
        lemma_lift_mul(x, pa, xi, pai);
        lemma_lift_mul(x, pb, xi, pbi);
        lemma_md_md(xi * pai);
        lemma_md_md(xi * pbi);
        lemma_lift_add(a0, fmul(x, pa), a0i, xi * pai);
        lemma_lift_add(b0, fmul(x, pb), b0i, xi * pbi);
        lemma_md_md(a0i + xi * pai);
        lemma_md_md(b0i + xi * pbi);
        lemma_lift_add(fadd(a0, fmul(x, pa)), fadd(b0, fmul(x, pb)), a0i + xi * pai, b0i + xi * pbi);
        assert(a0i + b0i + xi * (pai + pbi) == (a0i + xi * pai) + (b0i + xi * pbi)) by (nonlinear_arith);
    }
}

/// Scaled polynomials evaluate to scaled values.
#[verifier::spinoff_prover]
pub proof fn lemma_pscale(k: nat, a: Seq<nat>, x: nat)
    ensures
        peval(pscale(k, a), x) == fmul(k, peval(a, x)),
    decreases a.len(),
{
    let s = pscale(k, a);
    if a.len() == 0 {
        assert(k * 0 == 0);
    } else {
        assert(s.drop_first() =~= pscale(k, a.drop_first()));
        lemma_pscale(k, a.drop_first(), x);
        let (a0, pa) = (a[0], peval(a.drop_first(), x));
        assert(peval(s, x) == fadd(s[0], fmul(x, peval(s.drop_first(), x))));
        assert(s[0] == fmul(k, a0));
        assert(peval(s.drop_first(), x) == fmul(k, pa));
        assert(peval(a, x) == fadd(a0, fmul(x, pa)));
        let (ki, a0i, pai, xi) = (k as int, a0 as int, pa as int, x as int);
        lemma_md_md(ki);
        lemma_md_md(a0i);
        lemma_md_md(pai);
        lemma_md_md(xi);
        // left: k a0 + x (k pa)
        lemma_lift_mul(k, a0, ki, a0i);
        lemma_lift_mul(k, pa, ki, pai);
        lemma_md_md(ki * a0i);
        lemma_md_md(ki * pai);
        lemma_lift_mul(x, fmul(k, pa), xi, ki * pai);
        lemma_md_md(xi * (ki * pai));
        lemma_lift_add(fmul(k, a0), fmul(x, fmul(k, pa)), ki * a0i, xi * (ki * pai));
        // right: k (a0 + x pa)
        lemma_lift_mul(x, pa, xi, pai);
        lemma_md_md(xi * pai);
        lemma_lift_add(a0, fmul(x, pa), a0i, xi * pai);
        lemma_md_md(a0i + xi * pai);
        lemma_lift_mul(k, fadd(a0, fmul(x, pa)), ki, a0i + xi * pai);
        assert(ki * a0i + xi * (ki * pai) == ki * (a0i + xi * pai)) by (nonlinear_arith);
    }
}

/// A shifted polynomial evaluates to `x` times the value.
pub proof fn lemma_pshift(c: Seq<nat>, x: nat)
    ensures
        peval(pshift(c), x) == fmul(x, peval(c, x)),
{
    assert(pshift(c).drop_first() =~= c);
    lemma_field_units(fmul(x, peval(c, x)));
}

/// Products of polynomials evaluate to products, and their degrees add.
#[verifier::spinoff_prover]
pub proof fn lemma_pmul(a: Seq<nat>, b: Seq<nat>, x: nat)
    ensures
        peval(pmul(a, b), x) == fmul(peval(a, x), peval(b, x)),
    decreases a.len(),
{
    if a.len() == 0 {
        assert(pmul(a, b) == Seq::<nat>::empty());
        assert(peval(Seq::<nat>::empty(), x) == 0);
        assert(peval(a, x) == 0);
        assert(0 * peval(b, x) == 0);
        assert(fmul(0, peval(b, x)) == 0);
    } else {
        let t = a.drop_first();
        lemma_pmul(t, b, x);
        assert(pmul(a, b) == padd(pscale(a[0], b), pshift(pmul(t, b))));
        assert(peval(a, x) == fadd(a[0], fmul(x, peval(t, x))));
        lemma_padd(pscale(a[0], b), pshift(pmul(t, b)), x);
        lemma_pscale(a[0], b, x);
        lemma_pshift(pmul(t, b), x);
        let (a0, pt, pb) = (a[0], peval(t, x), peval(b, x));
        assert(peval(pmul(a, b), x) == fadd(fmul(a0, pb), fmul(x, fmul(pt, pb))));
        assert(fmul(peval(a, x), pb) == fmul(fadd(a0, fmul(x, pt)), pb));
        let (a0i, pti, pbi, xi) = (a0 as int, pt as int, pb as int, x as int);
        lemma_md_md(a0i);
        lemma_md_md(pti);
        lemma_md_md(pbi);
        lemma_md_md(xi);
        // left: a0 pb + x (pt pb)
        lemma_lift_mul(a0, pb, a0i, pbi);
        lemma_lift_mul(pt, pb, pti, pbi);
        lemma_md_md(a0i * pbi);
        lemma_md_md(pti * pbi);
        lemma_lift_mul(x, fmul(pt, pb), xi, pti * pbi);
        lemma_md_md(xi * (pti * pbi));
        lemma_lift_add(fmul(a0, pb), fmul(x, fmul(pt, pb)), a0i * pbi, xi * (pti * pbi));
        // right: (a0 + x pt) pb
        lemma_lift_mul(x, pt, xi, pti);
        lemma_md_md(xi * pti);
        lemma_lift_add(a0, fmul(x, pt), a0i, xi * pti);
        lemma_md_md(a0i + xi * pti);
        lemma_lift_mul(fadd(a0, fmul(x, pt)), pb, a0i + xi * pti, pbi);
        assert(a0i * pbi + xi * (pti * pbi) == (a0i + xi * pti) * pbi) by (nonlinear_arith);
    }
}

/// The degree of a product is at most the sum of the degrees.
pub proof fn lemma_pmul_len(a: Seq<nat>, b: Seq<nat>, da: nat, db: nat)
    requires
        a.len() <= da + 1,
        b.len() <= db + 1,
    ensures
        pmul(a, b).len() <= da + db + 1,
    decreases a.len(),
{
    if a.len() > 0 {
        let t = a.drop_first();
        if da == 0 {
            assert(t.len() == 0);
            assert(pmul(t, b).len() == 0);
        } else {
            lemma_pmul_len(t, b, (da - 1) as nat, db);
        }
    }
}

// ---------------------------------------------------------------------------
// Polynomial functions
// ---------------------------------------------------------------------------

/// The coefficients of a polynomial function.
pub proof fn lemma_poly_witness(f: spec_fn(nat) -> nat, d: nat) -> (c: Seq<nat>)
    requires
        poly_fn(f, d),
    ensures
        c.len() <= d + 1,
        forall|x: nat| #[trigger] peval(c, x) == f(x),
{
    choose|c: Seq<nat>| c.len() <= d + 1 && forall|x: nat| #[trigger] peval(c, x) == f(x)
}

/// A function equal everywhere to a polynomial function is one.
pub proof fn lemma_poly_ext(f: spec_fn(nat) -> nat, g: spec_fn(nat) -> nat, d: nat)
    requires
        poly_fn(f, d),
        forall|x: nat| #[trigger] f(x) == g(x),
    ensures
        poly_fn(g, d),
{
    let c = lemma_poly_witness(f, d);
    assert forall|x: nat| #[trigger] peval(c, x) == g(x) by {
        assert(peval(c, x) == f(x));
    }
}

/// A degree bound can be raised.
pub proof fn lemma_poly_mono(f: spec_fn(nat) -> nat, d1: nat, d2: nat)
    requires
        poly_fn(f, d1),
        d1 <= d2,
    ensures
        poly_fn(f, d2),
{
    let c = lemma_poly_witness(f, d1);
    assert(c.len() <= d2 + 1);
}

/// The values of a polynomial function are field values.
pub proof fn lemma_poly_bound(f: spec_fn(nat) -> nat, d: nat, x: nat)
    requires
        poly_fn(f, d),
    ensures
        f(x) < modulus(),
{
    let c = lemma_poly_witness(f, d);
    assert(peval(c, x) == f(x));
    lemma_peval_unfold(c, x);
}

/// A field constant is a polynomial function of degree zero.
pub proof fn lemma_poly_const(k: nat)
    requires
        k < modulus(),
    ensures
        poly_fn(|x: nat| k, 0),
{
    let c = seq![k];
    assert forall|x: nat| #[trigger] peval(c, x) == k by {
        assert(c.drop_first() =~= Seq::<nat>::empty());
        assert(peval(Seq::<nat>::empty(), x) == 0);
        assert(x * 0 == 0);
        lemma_field_units(k);
    }
    assert(c.len() <= 1);
}

/// `a + d x` is a polynomial function of degree one.
pub proof fn lemma_poly_line(a: nat, d: nat)
    requires
        d < modulus(),
    ensures
        poly_fn(|x: nat| fadd(a, fmul(d, x)), 1),
{
    let c = seq![a, d];
    assert forall|x: nat| #[trigger] peval(c, x) == fadd(a, fmul(d, x)) by {
        let c1 = c.drop_first();
        assert(c1 =~= seq![d]);
        assert(c1.drop_first() =~= Seq::<nat>::empty());
        assert(peval(Seq::<nat>::empty(), x) == 0);
        assert(peval(c1, x) == fadd(d, fmul(x, 0)));
        assert(x * 0 == 0);
        lemma_field_units(d);
        lemma_fmul_comm(x, d);
    }
    assert(c.len() <= 2);
}

/// `x - j` is a polynomial function of degree one.
pub proof fn lemma_poly_minus(j: nat)
    ensures
        poly_fn(|x: nat| fsub(x, j), 1),
{
    let a = fsub(0, j);
    lemma_poly_line(a, 1);
    assert forall|x: nat| #[trigger] fsub(x, j) == fadd(a, fmul(1, x)) by {
        let (xi, ji) = (x as int, j as int);
        lemma_md_md(xi);
        lemma_md_md(ji);
        lemma_md_md(0);
        lemma_lift_sub(0, j, 0, ji);
        lemma_lift_mul(1, x, 1, xi);
        lemma_md_md(0 - ji);
        lemma_md_md(1 * xi);
        lemma_lift_add(a, fmul(1, x), 0 - ji, 1 * xi);
        lemma_lift_sub(x, j, xi, ji);
    }
    lemma_poly_ext(|x: nat| fadd(a, fmul(1, x)), |x: nat| fsub(x, j), 1);
}

/// Sums of polynomial functions are polynomial functions.
pub proof fn lemma_poly_add(f: spec_fn(nat) -> nat, g: spec_fn(nat) -> nat, d: nat)
    requires
        poly_fn(f, d),
        poly_fn(g, d),
    ensures
        poly_fn(|x: nat| fadd(f(x), g(x)), d),
{
    let cf = lemma_poly_witness(f, d);
    let cg = lemma_poly_witness(g, d);
    let c = padd(cf, cg);
    assert forall|x: nat| #[trigger] peval(c, x) == fadd(f(x), g(x)) by {
        assert(peval(cf, x) == f(x));
        assert(peval(cg, x) == g(x));
        lemma_padd(cf, cg, x);
    }
    assert(c.len() <= d + 1);
}

/// Products of polynomial functions are polynomial functions; degrees add.
pub proof fn lemma_poly_mul(f: spec_fn(nat) -> nat, g: spec_fn(nat) -> nat, d1: nat, d2: nat)
    requires
        poly_fn(f, d1),
        poly_fn(g, d2),
    ensures
        poly_fn(|x: nat| fmul(f(x), g(x)), d1 + d2),
{
    let cf = lemma_poly_witness(f, d1);
    let cg = lemma_poly_witness(g, d2);
    let c = pmul(cf, cg);
    lemma_pmul_len(cf, cg, d1, d2);
    assert forall|x: nat| #[trigger] peval(c, x) == fmul(f(x), g(x)) by {
        assert(peval(cf, x) == f(x));
        assert(peval(cg, x) == g(x));
        lemma_pmul(cf, cg, x);
    }
}

/// Differences of polynomial functions are polynomial functions.
pub proof fn lemma_poly_sub(f: spec_fn(nat) -> nat, g: spec_fn(nat) -> nat, d: nat)
    requires
        poly_fn(f, d),
        poly_fn(g, d),
    ensures
        poly_fn(|x: nat| fsub(f(x), g(x)), d),
{
    let mneg: nat = (modulus() - 1) as nat;
    lemma_poly_const(mneg);
    lemma_poly_mul(|x: nat| mneg, g, 0, d);
    let ng = |x: nat| fmul(mneg, g(x));
    lemma_poly_ext(|x: nat| fmul((|x: nat| mneg)(x), g(x)), ng, d);
    lemma_poly_add(f, ng, d);
    assert forall|x: nat| #[trigger] fsub(f(x), g(x)) == fadd(f(x), fmul(mneg, g(x))) by {
        let (fv, gv) = (f(x), g(x));
        let (fi, gi, mi) = (fv as int, gv as int, mneg as int);
        let m = modulus() as int;
        lemma_md_md(fi);
        lemma_md_md(gi);
        lemma_md_md(mi);
        lemma_lift_mul(mneg, gv, mi, gi);
        lemma_md_md(mi * gi);
        lemma_lift_add(fv, fmul(mneg, gv), fi, mi * gi);
        lemma_lift_sub(fv, gv, fi, gi);
        assert(fi + mi * gi == m * gi + (fi - gi)) by (nonlinear_arith)
            requires
                mi == m - 1,
        ;
        lemma_mod_multiples_vanish(gi, fi - gi, m);
    }
    lemma_poly_ext(|x: nat| fadd(f(x), ng(x)), |x: nat| fsub(f(x), g(x)), d);
}

/// A sum of `n` polynomial functions of degree `d` is one.
pub proof fn lemma_poly_fsum(n: nat, g: spec_fn(int, nat) -> nat, d: nat)
    requires
        forall|i: int| 0 <= i < n ==> #[trigger] poly_fn(slice_fn(g, i), d),
    ensures
        poly_fn(|x: nat| fsum(Seq::new(n, |i: int| g(i, x))), d),
    decreases n,
{
    if n == 0 {
        let c = Seq::<nat>::empty();
        assert forall|x: nat| #[trigger] peval(c, x) == fsum(Seq::new(0, |i: int| g(i, x))) by {
            assert(Seq::new(0, |i: int| g(i, x)) =~= Seq::<nat>::empty());
        }
        assert(c.len() <= d + 1);
    } else {
        let k = (n - 1) as nat;
        lemma_poly_fsum(k, g, d);
        let cp = lemma_poly_witness(|x: nat| fsum(Seq::new(k, |i: int| g(i, x))), d);
        assert(poly_fn(slice_fn(g, k as int), d));
        let cl = lemma_poly_witness(slice_fn(g, k as int), d);
        let c = padd(cp, cl);
        assert forall|x: nat| #[trigger] peval(c, x) == fsum(Seq::new(n, |i: int| g(i, x))) by {
            lemma_padd(cp, cl, x);
            assert(peval(cp, x) == fsum(Seq::new(k, |i: int| g(i, x))));
            assert(peval(cl, x) == g(k as int, x));
            lemma_fsum_new_step(k, |i: int| g(i, x));
            assert(k + 1 == n);
        }
        assert(c.len() <= d + 1);
    }
}

/// A product of `n` polynomial functions of degree one has degree `n`.
pub proof fn lemma_poly_fprod(n: nat, g: spec_fn(int, nat) -> nat)
    requires
        forall|i: int| 0 <= i < n ==> #[trigger] poly_fn(slice_fn(g, i), 1),
    ensures
        poly_fn(|x: nat| fprod(Seq::new(n, |i: int| g(i, x))), n),
    decreases n,
{
    if n == 0 {
        lemma_poly_const(1);
        let c = lemma_poly_witness(|x: nat| 1nat, 0);
        assert forall|x: nat| #[trigger] peval(c, x) == fprod(Seq::new(0, |i: int| g(i, x))) by {
            assert(peval(c, x) == 1);
            assert(Seq::new(0, |i: int| g(i, x)) =~= Seq::<nat>::empty());
        }
        assert(c.len() <= 1);
    } else {
        let k = (n - 1) as nat;
        lemma_poly_fprod(k, g);
        let cp = lemma_poly_witness(|x: nat| fprod(Seq::new(k, |i: int| g(i, x))), k);
        assert(poly_fn(slice_fn(g, k as int), 1));
        let cl = lemma_poly_witness(slice_fn(g, k as int), 1);
        let c = pmul(cp, cl);
        lemma_pmul_len(cp, cl, k, 1);
        assert forall|x: nat| #[trigger] peval(c, x) == fprod(Seq::new(n, |i: int| g(i, x))) by {
            lemma_pmul(cp, cl, x);
            assert(peval(cp, x) == fprod(Seq::new(k, |i: int| g(i, x))));
            assert(peval(cl, x) == g(k as int, x));
            lemma_fprod_new_step(k, |i: int| g(i, x));
            assert(k + 1 == n);
        }
    }
}

// ---------------------------------------------------------------------------
// Roots
// ---------------------------------------------------------------------------

/// The quotient of synthetic division by `x - a`.
pub open spec fn quot(c: Seq<nat>, a: nat) -> Seq<nat>
    decreases c.len(),
{
    if c.len() <= 1 {
        Seq::empty()
    } else {
        seq![peval(c.drop_first(), a)] + quot(c.drop_first(), a)
    }
}

/// Synthetic division: `c(x) = (x - a) q(x) + c(a)`, with `q` one degree lower.
#[verifier::spinoff_prover]
pub proof fn lemma_synth_div(c: Seq<nat>, a: nat, x: nat)
    ensures
        quot(c, a).len() == if c.len() == 0 {
            0
        } else {
            (c.len() - 1) as nat
        },
        peval(c, x) == fadd(fmul(fsub(x, a), peval(quot(c, a), x)), peval(c, a)),
    decreases c.len(),
{
    let q = quot(c, a);
    if c.len() == 0 {
        assert(peval(c, x) == 0);
        assert(peval(c, a) == 0);
        assert(q.len() == 0);
        assert(peval(q, x) == 0);
        assert(fsub(x, a) * 0 == 0);
        assert(fmul(fsub(x, a), 0) == 0);
    } else if c.len() == 1 {
        assert(c.drop_first() =~= Seq::<nat>::empty());
        assert(peval(Seq::<nat>::empty(), x) == 0);
        assert(peval(Seq::<nat>::empty(), a) == 0);
        assert(peval(c, x) == fadd(c[0], fmul(x, 0)));
        assert(peval(c, a) == fadd(c[0], fmul(a, 0)));
        assert(q.len() == 0);
        assert(peval(q, x) == 0);
        assert(x * 0 == 0);
        assert(a * 0 == 0);
        assert(fsub(x, a) * 0 == 0);
        lemma_field_units(c[0] % modulus());
    } else {
        let t = c.drop_first();
        lemma_synth_div(t, a, x);
        let qt = quot(t, a);
        assert(q == seq![peval(t, a)] + qt);
        assert(q.drop_first() =~= qt);
        let (c0, at, qx) = (c[0], peval(t, a), peval(qt, x));
        assert(q[0] == at);
        assert(peval(q, x) == fadd(at, fmul(x, qx)));
        assert(peval(c, x) == fadd(c0, fmul(x, peval(t, x))));
        assert(peval(c, a) == fadd(c0, fmul(a, at)));
        let (c0i, ati, qxi, xi, ai) = (c0 as int, at as int, qx as int, x as int, a as int);
        lemma_md_md(c0i);
        lemma_md_md(ati);
        lemma_md_md(qxi);
        lemma_md_md(xi);
        lemma_md_md(ai);
        // peval(t, x) == (x - a) qx + at
        lemma_lift_sub(x, a, xi, ai);
        lemma_md_md(xi - ai);
        lemma_lift_mul(fsub(x, a), qx, xi - ai, qxi);
        lemma_md_md((xi - ai) * qxi);
        lemma_lift_add(fmul(fsub(x, a), qx), at, (xi - ai) * qxi, ati);
        let ptx = peval(t, x);
        lemma_md_md((xi - ai) * qxi + ati);
        // left: c0 + x ptx
        lemma_lift_mul(x, ptx, xi, (xi - ai) * qxi + ati);
        lemma_md_md(xi * ((xi - ai) * qxi + ati));
        lemma_lift_add(c0, fmul(x, ptx), c0i, xi * ((xi - ai) * qxi + ati));
        // q(x) == at + x qx
        lemma_lift_mul(x, qx, xi, qxi);
        lemma_md_md(xi * qxi);
        lemma_lift_add(at, fmul(x, qx), ati, xi * qxi);
        let qv = peval(q, x);
        lemma_md_md(ati + xi * qxi);
        // c(a) == c0 + a at
        lemma_lift_mul(a, at, ai, ati);
        lemma_md_md(ai * ati);
        lemma_lift_add(c0, fmul(a, at), c0i, ai * ati);
        let ca = peval(c, a);
        lemma_md_md(c0i + ai * ati);
        // right: (x - a) q(x) + c(a)
        lemma_lift_mul(fsub(x, a), qv, xi - ai, ati + xi * qxi);
        lemma_md_md((xi - ai) * (ati + xi * qxi));
        lemma_lift_add(fmul(fsub(x, a), qv), ca, (xi - ai) * (ati + xi * qxi), c0i + ai * ati);
        assert(c0i + xi * ((xi - ai) * qxi + ati) == (xi - ai) * (ati + xi * qxi) + (c0i + ai
            * ati)) by (nonlinear_arith);
    }
}

/// Units among small differences: every `d` with `1 <= d < m` is invertible.
pub open spec fn small_units(m: nat) -> bool {
    forall|d: nat| 1 <= d < m ==> #[trigger] has_inverse(d)
}

/// A polynomial of degree below `m` that vanishes at `a, a + 1, ..., a + m - 1`,
/// where the differences of those points are units, vanishes everywhere.
#[verifier::spinoff_prover]
pub proof fn lemma_roots(c: Seq<nat>, a: nat, m: nat, x: nat)
    requires
        c.len() <= m,
        a + m <= modulus(),
        small_units(m),
        forall|k: nat| a <= k < a + m ==> #[trigger] peval(c, k) == 0,
    ensures
        peval(c, x) == 0,
    decreases m,
{
    if m == 0 {
        assert(c.len() == 0);
    } else {
        let q = quot(c, a);
        lemma_synth_div(c, a, x);
        assert(peval(c, a) == 0);
        assert forall|k: nat| a + 1 <= k < (a + 1) + (m - 1) implies #[trigger] peval(q, k) == 0 by {
            lemma_synth_div(c, a, k);
            let d = (k - a) as nat;
            lemma_small_mod(d, modulus());
            assert(fsub(k, a) == d);
            lemma_peval_unfold(q, k);
            lemma_field_units(fmul(d, peval(q, k)));
            assert(has_inverse(d));
            lemma_unit_cancel(d, peval(q, k));
        }
        lemma_roots(q, a + 1, (m - 1) as nat, x);
        assert(fsub(x, a) * 0 == 0);
    }
}

// ---------------------------------------------------------------------------
// Lagrange interpolation
// ---------------------------------------------------------------------------

/// The product `prod_{j != i, j < k} (x - j)` has degree at most the number of
/// its factors that are not one.
proof fn lemma_lagrange_prefix_poly(n: nat, i: int, k: nat)
    requires
        0 <= i < n,
        k <= n,
    ensures
        poly_fn(
            |x: nat| fprod(Seq::new(k, |j: int| lagrange_factor(x, i, j))),
            if i < k {
                (k - 1) as nat
            } else {
                k
            },
        ),
    decreases k,
{
    if k == 0 {
        lemma_poly_const(1);
        let c = lemma_poly_witness(|x: nat| 1nat, 0);
        assert forall|x: nat| #[trigger] peval(c, x) == fprod(Seq::new(0, |j: int| lagrange_factor(x, i, j))) by {
            assert(peval(c, x) == 1);
            assert(Seq::new(0, |j: int| lagrange_factor(x, i, j)) =~= Seq::<nat>::empty());
        }
        assert(c.len() <= 1);
    } else {
        let k0 = (k - 1) as nat;
        lemma_lagrange_prefix_poly(n, i, k0);
        let dprev: nat = if i < k0 {
            (k0 - 1) as nat
        } else {
            k0
        };
        let cp = lemma_poly_witness(|x: nat| fprod(Seq::new(k0, |j: int| lagrange_factor(x, i, j))), dprev);
        let dlast: nat = if k0 == i {
            0
        } else {
            1
        };
        let cl = if k0 == i {
            lemma_poly_const(1);
            lemma_poly_witness(|x: nat| 1nat, 0)
        } else {
            lemma_poly_minus(k0);
            lemma_poly_witness(|x: nat| fsub(x, k0), 1)
        };
        assert(cl.len() <= dlast + 1);
        assert forall|x: nat| #[trigger] peval(cl, x) == lagrange_factor(x, i, k0 as int) by {
            if k0 == i {
                assert(peval(cl, x) == 1);
            } else {
                assert(peval(cl, x) == fsub(x, k0));
            }
        }
        let c = pmul(cp, cl);
        lemma_pmul_len(cp, cl, dprev, dlast);
        assert forall|x: nat| #[trigger] peval(c, x) == fprod(Seq::new(k, |j: int| lagrange_factor(x, i, j))) by {
            lemma_pmul(cp, cl, x);
            assert(peval(cp, x) == fprod(Seq::new(k0, |j: int| lagrange_factor(x, i, j))));
            assert(peval(cl, x) == lagrange_factor(x, i, k0 as int));
            lemma_fprod_new_step(k0, |j: int| lagrange_factor(x, i, j));
            assert(k0 + 1 == k);
        }
    }
}

/// The interpolant through `n` points has degree below `n`.
proof fn lemma_interpolation_poly(ys: Seq<nat>)
    requires
        ys.len() >= 1,
        lagrange_defined(ys.len()),
        forall|k: int| 0 <= k < ys.len() ==> #[trigger] ys[k] < modulus(),
    ensures
        poly_fn(|x: nat| interpolation(ys, x), (ys.len() - 1) as nat),
{
    let n = ys.len();
    let d = (n - 1) as nat;
    let g = |i: int, x: nat| fmul(fmul(ys[i], lagrange_num(x, n, i)), finv(lagrange_den(n, i)));
    assert forall|i: int| 0 <= i < n implies #[trigger] poly_fn(slice_fn(g, i), d) by {
        lemma_lagrange_prefix_poly(n, i, n);
        let cn = lemma_poly_witness(|x: nat| fprod(Seq::new(n, |j: int| lagrange_factor(x, i, j))), d);
        assert(has_inverse(lagrange_den(n, i)));
        let w = finv(lagrange_den(n, i));
        let k = fmul(ys[i], w);
        let c = pscale(k, cn);
        assert forall|x: nat| #[trigger] peval(c, x) == slice_fn(g, i)(x) by {
            lemma_pscale(k, cn, x);
            assert(peval(cn, x) == lagrange_num(x, n, i));
            let num = lagrange_num(x, n, i);
            lemma_fmul_assoc(ys[i], num, w);
            lemma_fmul_comm(num, w);
            lemma_fmul_assoc(ys[i], w, num);
        }
        assert(c.len() <= d + 1);
    }
    lemma_poly_fsum(n, g, d);
    let c = lemma_poly_witness(|x: nat| fsum(Seq::new(n, |i: int| g(i, x))), d);
    assert forall|x: nat| #[trigger] peval(c, x) == interpolation(ys, x) by {
        assert(peval(c, x) == fsum(Seq::new(n, |i: int| g(i, x))));
        assert(Seq::new(n, |i: int| g(i, x)) =~= Seq::new(
            ys.len(),
            |i: int| fmul(fmul(ys[i], lagrange_num(x, ys.len(), i)), finv(lagrange_den(ys.len(), i))),
        ));
    }
}

/// The interpolant takes the given values at the points.
proof fn lemma_interpolation_at_node(ys: Seq<nat>, k: nat)
    requires
        k < ys.len(),
        ys.len() < modulus(),
        lagrange_defined(ys.len()),
        forall|j: int| 0 <= j < ys.len() ==> #[trigger] ys[j] < modulus(),
    ensures
        interpolation(ys, k) == ys[k as int],
{
    let n = ys.len();
    let f = |i: int| fmul(fmul(ys[i], lagrange_num(k, n, i)), finv(lagrange_den(n, i)));
    assert forall|i: int| 0 <= i < n && i != k implies #[trigger] f(i) == 0 by {
        crate::algebra::lemma_fprod_zero(n, |j: int| lagrange_factor(k, i, j), k as int);
        lemma_field_units(ys[i]);
        lemma_field_units(finv(lagrange_den(n, i)) % modulus());
        lemma_fmul_comm(0, finv(lagrange_den(n, i)));
    }
    assert(has_inverse(lagrange_den(n, k as int)));
    let den = lagrange_den(n, k as int);
    let w = finv(den);
    lemma_fmul_assoc(ys[k as int], den, w);
    lemma_field_units(ys[k as int]);
    crate::algebra::lemma_fsum_single(n, f, k as int);
}

/// With every Lagrange denominator a unit, so is every difference of the points.
pub proof fn lemma_lagrange_units(n: nat)
    requires
        n >= 1,
        n <= modulus(),
        lagrange_defined(n),
    ensures
        small_units(n),
{
    let i = (n - 1) as int;
    assert(has_inverse(lagrange_den(n, i)));
    let f = |j: int| lagrange_factor(i as nat, i, j);
    assert forall|d: nat| 1 <= d < n implies #[trigger] has_inverse(d) by {
        let j = i - d;
        lemma_unit_prod_factor(n, f, j);
        lemma_small_mod(d, modulus());
        assert(f(j) == fsub(i as nat, j as nat));
        assert(fsub(i as nat, j as nat) == d);
    }
}

/// Lagrange interpolation through `0, ..., n - 1` gives back every polynomial
/// function of degree below `n`, wherever it is evaluated.
#[verifier::spinoff_prover]
pub proof fn lemma_interpolation_exact(f: spec_fn(nat) -> nat, n: nat, x: nat)
    requires
        n >= 1,
        n < modulus(),
        poly_fn(f, (n - 1) as nat),
        lagrange_defined(n),
    ensures
        interpolation(Seq::new(n, |k: int| f(k as nat)), x) == f(x),
{
    let ys = Seq::new(n, |k: int| f(k as nat));
    assert forall|k: int| 0 <= k < ys.len() implies #[trigger] ys[k] < modulus() by {
        lemma_poly_bound(f, (n - 1) as nat, k as nat);
    }
    lemma_interpolation_poly(ys);
    let ip = |x: nat| interpolation(ys, x);
    lemma_poly_sub(f, ip, (n - 1) as nat);
    let h = |x: nat| fsub(f(x), ip(x));
    let c = choose|c: Seq<nat>| c.len() <= (n - 1) as nat + 1 && forall|x: nat| #[trigger] h(x) == peval(c, x);
    assert forall|k: nat| 0 <= k < 0 + n implies #[trigger] peval(c, k) == 0 by {
        assert(h(k) == peval(c, k));
        lemma_interpolation_at_node(ys, k);
        lemma_field_units(f(k));
        lemma_poly_bound(f, (n - 1) as nat, k);
    }
    lemma_lagrange_units(n);
    lemma_roots(c, 0, n, x);
    assert(h(x) == peval(c, x));
    lemma_poly_bound(f, (n - 1) as nat, x);
    lemma_poly_bound(ip, (n - 1) as nat, x);
    // fsub(f(x), ip(x)) == 0 with both below the modulus
    let (fx, ix) = (f(x) as int, ip(x) as int);
    let m = modulus() as int;
    if fx > ix {
        lemma_small_mod((fx - ix) as nat, modulus());
    } else if fx < ix {
        lemma_fundamental_div_mod_converse(fx - ix, m, -1, fx - ix + m);
    }
}

/// The field order is prime: every value that is not a multiple of it has an
/// inverse.
pub proof fn lemma_nonzero_has_inverse(a: nat)
    requires
        a % modulus() != 0,
    ensures
        has_inverse(a),
{
    let p = modulus();
    crate::certificate::lemma_field_order();
    let x = a % p;
    lemma_mod_bound(a as int, p as int);
    assert(crate::primality::unit_mod(x, p));
    let w = choose|w: nat| #[trigger] crate::primality::mm(x, w, p) == 1;
    let w2 = w % p;
    lemma_mod_bound(w as int, p as int);
    lemma_mul_mod_noop_left(a as int, w as int, p as int);
    lemma_mul_mod_noop_right(a as int, w as int, p as int);
    assert(is_inverse(a, w2));
}

/// A product of units is a unit.
pub proof fn lemma_unit_mul(a: nat, b: nat)
    requires
        has_inverse(a),
        has_inverse(b),
    ensures
        has_inverse(fmul(a, b)),
{
    let wa = choose|w: nat| is_inverse(a, w);
    let wb = choose|w: nat| is_inverse(b, w);
    // (a b)(wa wb) = (a wa)(b wb)
    lemma_fmul_assoc(a, b, fmul(wa, wb));
    lemma_fmul_assoc(b, wa, wb);
    lemma_fmul_comm(b, wa);
    lemma_fmul_assoc(wa, b, wb);
    lemma_fmul_assoc(a, wa, fmul(b, wb));
    lemma_field_units(1);
    lemma_mod_bound((wa * wb) as int, modulus() as int);
    assert(is_inverse(fmul(a, b), fmul(wa, wb)));
}

/// The difference of two distinct field values is a unit.
pub proof fn lemma_diff_unit(i: nat, j: nat)
    requires
        i < modulus(),
        j < modulus(),
        i != j,
    ensures
        has_inverse(fsub(i, j)),
{
    let m = modulus() as int;
    let d = i as int - j as int;
    if d > 0 {
        lemma_small_mod(d as nat, modulus());
    } else {
        lemma_fundamental_div_mod_converse(d, m, -1, d + m);
    }
    lemma_mod_bound(fsub(i, j) as int, m);
    lemma_small_mod(fsub(i, j), modulus());
    lemma_nonzero_has_inverse(fsub(i, j));
}

/// A product over `0..n` whose factors are all units is a unit.
pub proof fn lemma_unit_fprod(n: nat, f: spec_fn(int) -> nat)
    requires
        forall|k: int| 0 <= k < n ==> #[trigger] has_inverse(f(k)),
    ensures
        has_inverse(fprod(Seq::new(n, f))),
    decreases n,
{
    if n == 0 {
        assert(Seq::new(0, f) =~= Seq::<nat>::empty());
        lemma_field_units(1);
        assert(is_inverse(1, 1));
    } else {
        let j = (n - 1) as nat;
        lemma_unit_fprod(j, f);
        lemma_fprod_new_step(j, f);
        lemma_unit_mul(fprod(Seq::new(j, f)), f(j as int));
    }
}

/// For up to as many points as the field has elements, every Lagrange
/// denominator is a unit.
pub proof fn lemma_lagrange_defined(n: nat)
    requires
        n <= modulus(),
    ensures
        lagrange_defined(n),
{
    assert forall|i: int| 0 <= i < n implies #[trigger] has_inverse(lagrange_den(n, i)) by {
        let f = |j: int| lagrange_factor(i as nat, i, j);
        assert forall|k: int| 0 <= k < n implies #[trigger] has_inverse(f(k)) by {
            if k == i {
                lemma_field_units(1);
                assert(is_inverse(1, 1));
            } else {
                lemma_diff_unit(i as nat, k as nat);
            }
        }
        lemma_unit_fprod(n, f);
    }
}

} // verus!
