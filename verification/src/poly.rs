//! Multilinear tables, virtual polynomials, the `eq` polynomial and univariate
//! interpolation over the scalar field.
//!
//! A multilinear extension in `n` variables is held as its `2^n` evaluations on the
//! boolean hypercube; bit `i` of an index is the value of variable `i`, so the
//! lowest variable pairs neighbouring entries.

use vstd::prelude::*;
use vstd::arithmetic::power2::*;
use vstd::arithmetic::mul::*;
use crate::algebra::has_inverse;
use crate::field::{
    Fe, fadd, fe_vals, finv, fmul, fprod, fsub, fsum, lemma_fadd_zero, lemma_fmul_one,
    lemma_fprod_new_step, lemma_fsum_ext, lemma_fsum_new_step, lemma_fsum_pairs, lemma_line_weight,
    modulus,
};

verus! {

/// Degree and arity of a virtual polynomial.
#[derive(Clone, Copy, Debug, PartialEq, Eq)]
pub struct AuxInfo {
    /// The largest number of multiplicands in a product.
    pub max_degree: usize,
    /// The number of variables.
    pub num_variables: usize,
}

/// A dense multilinear extension: its evaluations on the boolean hypercube.
#[derive(Debug, PartialEq, Eq)]
pub struct Mle {
    /// The number of variables.
    pub num_vars: usize,
    /// The `2^num_vars` evaluations.
    pub evaluations: Vec<Fe>,
}

/// A sum of products of multilinear extensions, each product scaled by a
/// coefficient: `sum_p c_p * prod_{j in p} f_j`.
#[derive(Debug, PartialEq, Eq)]
pub struct VirtualPolynomial {
    /// Degree and arity.
    pub aux_info: AuxInfo,
    /// The products: a coefficient and the indices of the multiplicands.
    pub products: Vec<(Fe, Vec<usize>)>,
    /// The distinct multilinear extensions the products refer to.
    pub flattened_ml_extensions: Vec<Mle>,
}

/// The values of the evaluations of several multilinear extensions.
pub open spec fn mle_tables(ms: Seq<Mle>) -> Seq<Seq<nat>> {
    ms.map_values(|m: Mle| fe_vals(m.evaluations@))
}

/// The values of the products of a virtual polynomial.
pub open spec fn product_vals(ps: Seq<(Fe, Vec<usize>)>) -> Seq<(nat, Seq<usize>)> {
    ps.map_values(|p: (Fe, Vec<usize>)| (p.0.val(), p.1@))
}

/// Every multiplicand index of every product is below `t`, and no product has more
/// than `d` multiplicands.
pub open spec fn products_wf(ps: Seq<(nat, Seq<usize>)>, t: nat, d: nat) -> bool {
    forall|p: int|
        0 <= p < ps.len() ==> {
            &&& (#[trigger] ps[p]).1.len() <= d
            &&& forall|q: int| 0 <= q < ps[p].1.len() ==> ps[p].1[q] < t
        }
}

/// Every table has `size` entries.
pub open spec fn tables_sized(ts: Seq<Seq<nat>>, size: nat) -> bool {
    forall|j: int| 0 <= j < ts.len() ==> (#[trigger] ts[j]).len() == size
}

impl Mle {
    /// A multilinear extension in `num_vars` variables, from its evaluations.
    pub fn from_evaluations_vec(num_vars: usize, evaluations: Vec<Fe>) -> (r: Mle)
        requires
            evaluations@.len() == pow2(num_vars as nat),
        ensures
            r.num_vars == num_vars,
            r.evaluations@ == evaluations@,
    {
        Mle { num_vars, evaluations }
    }

    /// The evaluations.
    pub fn to_evaluations(&self) -> (r: Vec<Fe>)
        ensures
            r@ == self.evaluations@,
    {
        copy_vec(&self.evaluations)
    }
}

impl VirtualPolynomial {
    /// The tables of the multilinear extensions.
    pub open spec fn tables(&self) -> Seq<Seq<nat>> {
        mle_tables(self.flattened_ml_extensions@)
    }

    /// The products, by value.
    pub open spec fn prods(&self) -> Seq<(nat, Seq<usize>)> {
        product_vals(self.products@)
    }

    /// Every table has `2^num_variables` entries, every product refers to existing
    /// tables and has at most `max_degree` multiplicands, and the hypercube fits in
    /// memory.
    pub open spec fn wf(&self) -> bool {
        &&& pow2(self.aux_info.num_variables as nat) <= usize::MAX
        &&& tables_sized(self.tables(), pow2(self.aux_info.num_variables as nat))
        &&& forall|j: int|
            0 <= j < self.flattened_ml_extensions@.len()
                ==> (#[trigger] self.flattened_ml_extensions@[j]).num_vars
                == self.aux_info.num_variables
        &&& products_wf(
            self.prods(),
            self.flattened_ml_extensions@.len() as nat,
            self.aux_info.max_degree as nat,
        )
    }

    /// Whether the polynomial is well formed (`wf`).
    pub fn is_wf(&self) -> (r: bool)
        ensures
            r == self.wf(),
    {
        let nv = self.aux_info.num_variables;
        if nv >= usize::BITS as usize {
            proof {
                lemma_pow2_beyond_word(nv as nat);
            }
            return false;
        }
        let size = crate::sumcheck::pow2_usize_checked(nv);
        let t = self.flattened_ml_extensions.len();
        let mut j: usize = 0;
        while j < t
            invariant
                j <= t,
                t == self.flattened_ml_extensions@.len(),
                nv == self.aux_info.num_variables,
                size == pow2(nv as nat),
                forall|k: int|
                    0 <= k < j ==> (#[trigger] self.flattened_ml_extensions@[k]).num_vars == nv
                        && self.flattened_ml_extensions@[k].evaluations@.len() == size,
            decreases t - j,
        {
            if self.flattened_ml_extensions[j].num_vars != nv {
                assert(self.flattened_ml_extensions@[j as int].num_vars != self.aux_info.num_variables);
                return false;
            }
            if self.flattened_ml_extensions[j].evaluations.len() != size {
                assert(self.tables()[j as int] == fe_vals(self.flattened_ml_extensions@[j as int].evaluations@));
                assert(self.tables()[j as int].len() != pow2(nv as nat));
                return false;
            }
            j = j + 1;
        }
        let d = self.aux_info.max_degree;
        let mut p: usize = 0;
        while p < self.products.len()
            invariant
                p <= self.products@.len(),
                t == self.flattened_ml_extensions@.len(),
                d == self.aux_info.max_degree,
                forall|k: int|
                    0 <= k < p ==> {
                        &&& (#[trigger] self.products@[k]).1@.len() <= d
                        &&& forall|q: int| 0 <= q < self.products@[k].1@.len() ==> self.products@[k].1@[q] < t
                    },
            decreases self.products.len() - p,
        {
            let idx = &self.products[p].1;
            if idx.len() > d {
                assert(self.prods()[p as int].1.len() > d);
                return false;
            }
            let mut q: usize = 0;
            while q < idx.len()
                invariant
                    p < self.products@.len(),
                    q <= idx@.len(),
                    idx == self.products@[p as int].1,
                    t == self.flattened_ml_extensions@.len(),
                    forall|k: int| 0 <= k < q ==> #[trigger] idx@[k] < t,
                decreases idx.len() - q,
            {
                if idx[q] >= t {
                    assert(self.prods()[p as int].1 == idx@);
                    assert(self.prods()[p as int].1[q as int] >= t);
                    return false;
                }
                q = q + 1;
            }
            p = p + 1;
        }
        proof {
            assert forall|k: int| 0 <= k < self.tables().len() implies (#[trigger] self.tables()[k]).len()
                == pow2(nv as nat) by {
                assert(self.tables()[k] == fe_vals(self.flattened_ml_extensions@[k].evaluations@));
            }
            assert forall|k: int| 0 <= k < self.prods().len() implies {
                &&& (#[trigger] self.prods()[k]).1.len() <= d
                &&& forall|q: int| 0 <= q < self.prods()[k].1.len() ==> self.prods()[k].1[q] < t
            } by {
                assert(self.prods()[k].1 == self.products@[k].1@);
            }
        }
        true
    }

    /// A polynomial in `num_variables` variables with no product.
    pub fn new(num_variables: usize) -> (r: VirtualPolynomial)
        ensures
            r.aux_info == (AuxInfo { max_degree: 0, num_variables }),
            r.products@.len() == 0,
            r.flattened_ml_extensions@.len() == 0,
    {
        VirtualPolynomial {
            aux_info: AuxInfo { max_degree: 0, num_variables },
            products: Vec::new(),
            flattened_ml_extensions: Vec::new(),
        }
    }
}

/// A copy of a vector of field elements.
pub fn copy_vec(v: &Vec<Fe>) -> (r: Vec<Fe>)
    ensures
        r@ == v@,
{
    let mut r: Vec<Fe> = Vec::new();
    let mut i: usize = 0;
    while i < v.len()
        invariant
            i <= v.len(),
            r@ == v@.subrange(0, i as int),
        decreases v.len() - i,
    {
        r.push(v[i]);
        i = i + 1;
    }
    assert(r@ =~= v@);
    r
}

/// A copy of a vector of indices.
pub fn copy_indices(v: &Vec<usize>) -> (r: Vec<usize>)
    ensures
        r@ == v@,
{
    let mut r: Vec<usize> = Vec::new();
    let mut i: usize = 0;
    while i < v.len()
        invariant
            i <= v.len(),
            r@ == v@.subrange(0, i as int),
        decreases v.len() - i,
    {
        r.push(v[i]);
        i = i + 1;
    }
    assert(r@ =~= v@);
    r
}

// ---------------------------------------------------------------------------
// Fixing the lowest variable
// ---------------------------------------------------------------------------

/// The value on the line through `t[2b]` (at 0) and `t[2b+1]` (at 1), at `x`.
pub open spec fn lin_at(t: Seq<nat>, b: int, x: nat) -> nat {
    fadd(t[2 * b], fmul(fsub(t[2 * b + 1], t[2 * b]), x))
}

/// The table with its lowest variable fixed to `r`.
pub open spec fn fix_one(t: Seq<nat>, r: nat) -> Seq<nat> {
    Seq::new(t.len() / 2, |b: int| lin_at(t, b, r))
}

/// Every table with its lowest variable fixed to `r`.
pub open spec fn fix_all(ts: Seq<Seq<nat>>, r: nat) -> Seq<Seq<nat>> {
    ts.map_values(|t: Seq<nat>| fix_one(t, r))
}

/// The table with its lowest variables fixed, one after the other, to `rs`.
pub open spec fn fix_many(t: Seq<nat>, rs: Seq<nat>) -> Seq<nat>
    decreases rs.len(),
{
    if rs.len() == 0 {
        t
    } else {
        fix_one(fix_many(t, rs.drop_last()), rs.last())
    }
}

/// `fix_variables` for one variable: the table with its lowest variable fixed to
/// `r`.
pub fn fix_variable(t: &Vec<Fe>, r: Fe) -> (out: Vec<Fe>)
    ensures
        fe_vals(out@) == fix_one(fe_vals(t@), r.val()),
{
    let half = t.len() / 2;
    assert(2 * half <= t@.len());
    let mut out: Vec<Fe> = Vec::new();
    let mut b: usize = 0;
    while b < half
        invariant
            half == t@.len() / 2,
            2 * half <= t@.len(),
            t@.len() <= usize::MAX,
            b <= half,
            out@.len() == b,
            forall|i: int| 0 <= i < b ==> (#[trigger] out@[i]).val() == lin_at(fe_vals(t@), i, r.val()),
        decreases half - b,
    {
        assert(b + b + 1 < t@.len());
        let i0: usize = b + b;
        let lo = t[i0];
        let hi = t[i0 + 1];
        let v = lo.add(hi.sub(lo).mul(r));
        out.push(v);
        b = b + 1;
    }
    assert(fe_vals(out@) =~= fix_one(fe_vals(t@), r.val()));
    out
}

// ---------------------------------------------------------------------------
// The eq polynomial
// ---------------------------------------------------------------------------

/// The evaluations of `eq(x, r)` on the hypercube, bit `i` of the index standing for
/// `x_i`: each entry is the product over `i` of `r_i` or `1 - r_i`.
pub open spec fn eq_vec(r: Seq<nat>) -> Seq<nat>
    decreases r.len(),
{
    if r.len() == 0 {
        seq![1nat]
    } else {
        let rest = eq_vec(r.drop_first());
        Seq::new(
            2 * rest.len(),
            |i: int|
                if i % 2 == 1 {
                    fmul(r[0], rest[i / 2])
                } else {
                    fsub(rest[i / 2], fmul(r[0], rest[i / 2]))
                },
        )
    }
}

/// One factor of the eq polynomial: `x y + (1 - x)(1 - y)`.
pub open spec fn eq_term(x: nat, y: nat) -> nat {
    fadd(fmul(x, y), fmul(fsub(1, x), fsub(1, y)))
}

/// `eq(a, b)`: the product of the factors `a_i b_i + (1 - a_i)(1 - b_i)`.
pub open spec fn eq_eval(a: Seq<nat>, b: Seq<nat>) -> nat {
    fprod(Seq::new(a.len(), |i: int| eq_term(a[i], b[i])))
}

/// `eq_vec(r)` has `2^|r|` entries.
pub proof fn lemma_eq_vec_len(r: Seq<nat>)
    ensures
        eq_vec(r).len() == pow2(r.len()),
    decreases r.len(),
{
    if r.len() == 0 {
        lemma2_to64();
    } else {
        lemma_eq_vec_len(r.drop_first());
        lemma_pow2_unfold(r.len());
    }
}

/// A power of two with an exponent of at least the word size does not fit a word.
pub proof fn lemma_pow2_beyond_word(n: nat)
    requires
        n >= usize::BITS,
    ensures
        pow2(n) > usize::MAX,
{
    lemma2_to64();
    lemma2_to64_rest();
    if n > usize::BITS {
        lemma_pow2_strictly_increases(usize::BITS as nat, n);
    }
    assert(usize::BITS == 32 || usize::BITS == 64);
}

/// `sum_{i < M} w_i * t[x M + i]`: block `x` of `t` combined with weights `w`.
pub open spec fn block_weighted(t: Seq<nat>, w: Seq<nat>, blk: nat, x: int) -> nat {
    fsum(Seq::new(blk, |i: int| fmul(w[i], t[x * blk + i])))
}

/// Every entry is a field value.
pub open spec fn all_field(t: Seq<nat>) -> bool {
    forall|k: int| 0 <= k < t.len() ==> #[trigger] t[k] < modulus()
}

/// Fixing several variables is fixing the first, then the others.
pub proof fn lemma_fix_many_front(t: Seq<nat>, rs: Seq<nat>)
    requires
        rs.len() >= 1,
    ensures
        fix_many(t, rs) == fix_many(fix_one(t, rs[0]), rs.drop_first()),
    decreases rs.len(),
{
    let t1 = fix_one(t, rs[0]);
    if rs.len() == 1 {
        assert(rs.drop_last() =~= Seq::<nat>::empty());
        assert(rs.drop_first() =~= Seq::<nat>::empty());
        assert(fix_many(t, rs.drop_last()) == t);
        assert(fix_many(t, rs) == fix_one(t, rs.last()));
        assert(fix_many(t1, rs.drop_first()) == t1);
    } else {
        lemma_fix_many_front(t, rs.drop_last());
        assert(rs.drop_last().drop_first() =~= rs.drop_first().drop_last());
        assert(rs.drop_last()[0] == rs[0]);
        assert(rs.drop_first().last() == rs.last());
        assert(fix_many(t, rs) == fix_one(fix_many(t, rs.drop_last()), rs.last()));
        assert(fix_many(t1, rs.drop_first()) == fix_one(
            fix_many(t1, rs.drop_first().drop_last()),
            rs.drop_first().last(),
        ));
    }
}

/// Fixing the lowest `L` variables of a table to `rs` combines each block of `2^L`
/// neighbouring entries with the weights `eq(rs, i)`.
pub proof fn lemma_fix_many_weighted(t: Seq<nat>, rs: Seq<nat>, s: nat)
    requires
        t.len() == pow2(rs.len()) * s,
        all_field(t),
    ensures
        fix_many(t, rs) == Seq::new(s, |x: int| block_weighted(t, eq_vec(rs), pow2(rs.len()), x)),
    decreases rs.len(),
{
    let l = rs.len();
    if l == 0 {
        lemma2_to64();
        assert(eq_vec(rs) == seq![1nat]);
        assert forall|x: int| 0 <= x < s implies #[trigger] block_weighted(t, eq_vec(rs), 1, x) == t[x] by {
            let f = |i: int| fmul(eq_vec(rs)[i], t[x * 1 + i]);
            lemma_fsum_new_step(0, f);
            assert(Seq::new(0, f) =~= Seq::<nat>::empty());
            assert(x * 1 == x);
            lemma_fmul_one(t[x]);
            lemma_fadd_zero(fmul(1, t[x]));
        }
        assert(fix_many(t, rs) =~= Seq::new(s, |x: int| block_weighted(t, eq_vec(rs), pow2(rs.len()), x)));
    } else {
        let r0 = rs[0];
        let rest = rs.drop_first();
        let mp = pow2((l - 1) as nat);
        lemma_pow2_unfold(l);
        let t1 = fix_one(t, r0);
        assert(t.len() == 2 * (mp * s)) by {
            lemma_mul_is_associative(2, mp as int, s as int);
        }
        assert(t1.len() == mp * s);
        assert(all_field(t1));
        lemma_fix_many_weighted(t1, rest, s);
        lemma_fix_many_front(t, rs);
        let e = eq_vec(rs);
        let e1 = eq_vec(rest);
        lemma_eq_vec_len(rest);
        assert forall|x: int| 0 <= x < s implies #[trigger] block_weighted(t1, e1, mp, x)
            == block_weighted(t, e, 2 * mp, x) by {
            let g = |i: int| fmul(e[i], t[x * (2 * mp) + i]);
            let h = |i: int| fmul(e1[i], t1[x * mp + i]);
            lemma_fsum_pairs(mp, g);
            assert forall|i: int| 0 <= i < mp implies #[trigger] h(i) == fadd(g(2 * i), g(2 * i + 1)) by {
                assert(x * (2 * mp) + 2 * i == 2 * (x * mp + i)) by (nonlinear_arith);
                assert(x * mp + i < mp * s) by (nonlinear_arith)
                    requires 0 <= x < s, 0 <= i < mp;
                lemma_line_weight(e1[i], t[2 * (x * mp + i)], t[2 * (x * mp + i) + 1], r0);
            }
            lemma_fsum_ext(
                Seq::new(mp, h),
                Seq::new(mp, |i: int| fadd(g(2 * i), g(2 * i + 1))),
            );
            assert(2 * mp == pow2(l));
        }
        assert(fix_many(t, rs) =~= Seq::new(s, |x: int| block_weighted(t, eq_vec(rs), pow2(rs.len()), x)));
    }
}

/// Errors of the arithmetic helpers.
#[derive(Debug, Clone, Copy, PartialEq, Eq)]
pub enum ArithError {
    /// An argument is out of the accepted range.
    InvalidParameters,
}

/// `build_eq_x_r_vec`: the evaluations of `eq(x, r)` on the hypercube. Fails on an
/// empty `r`.
pub fn build_eq_x_r_vec(r: &Vec<Fe>) -> (out: Result<Vec<Fe>, ArithError>)
    requires
        pow2(r@.len()) <= usize::MAX,
    ensures
        r@.len() == 0 ==> out == Err::<Vec<Fe>, ArithError>(ArithError::InvalidParameters),
        r@.len() > 0 ==> (out matches Ok(v) && fe_vals(v@) == eq_vec(fe_vals(r@))),
{
    if r.len() == 0 {
        return Err(ArithError::InvalidParameters);
    }
    let n = r.len();
    let ghost rv = fe_vals(r@);
    let mut cur: Vec<Fe> = Vec::new();
    cur.push(Fe::one());
    let mut j: usize = n;
    proof {
        assert(rv.subrange(n as int, n as int) =~= Seq::<nat>::empty());
        assert(fe_vals(cur@) =~= seq![1nat]);
    }
    while j > 0
        invariant
            n == r@.len(),
            rv == fe_vals(r@),
            j <= n,
            pow2(n as nat) <= usize::MAX,
            fe_vals(cur@) == eq_vec(rv.subrange(j as int, n as int)),
        decreases j,
    {
        let ghost prev = cur@;
        let rj = r[j - 1];
        proof {
            lemma_eq_vec_len(rv.subrange(j as int, n as int));
            lemma_pow2_unfold((n - j + 1) as nat);
            if n - j + 1 < n {
                lemma_pow2_strictly_increases((n - j + 1) as nat, n as nat);
            }
        }
        let len = cur.len();
        let mut next: Vec<Fe> = Vec::new();
        let mut i: usize = 0;
        while i < 2 * len
            invariant
                len == prev.len(),
                2 * len <= usize::MAX,
                cur@ == prev,
                i <= 2 * len,
                next@.len() == i,
                forall|k: int|
                    0 <= k < i ==> (#[trigger] next@[k]).val() == (if k % 2 == 1 {
                        fmul(rj.val(), prev[k / 2].val())
                    } else {
                        fsub(prev[k / 2].val(), fmul(rj.val(), prev[k / 2].val()))
                    }),
            decreases 2 * len - i,
        {
            let bi = cur[i / 2];
            let tmp = rj.mul(bi);
            if i % 2 == 1 {
                next.push(tmp);
            } else {
                next.push(bi.sub(tmp));
            }
            i = i + 1;
        }
        proof {
            let s = rv.subrange(j - 1, n as int);
            assert(s.drop_first() =~= rv.subrange(j as int, n as int));
            assert(s[0] == rj.val());
            assert(fe_vals(next@) =~= eq_vec(s));
        }
        cur = next;
        j = j - 1;
    }
    proof {
        assert(rv.subrange(0, n as int) =~= rv);
    }
    Ok(cur)
}

/// `EqPolynomial::evaluate`: `eq(a, b)` for points of equal length.
pub fn eq_evaluate(a: &Vec<Fe>, b: &Vec<Fe>) -> (r: Fe)
    requires
        a@.len() == b@.len(),
    ensures
        r.val() == eq_eval(fe_vals(a@), fe_vals(b@)),
{
    let ghost av = fe_vals(a@);
    let ghost bv = fe_vals(b@);
    let ghost f = |i: int| eq_term(av[i], bv[i]);
    let one = Fe::one();
    let mut acc = Fe::one();
    let mut i: usize = 0;
    proof {
        assert(Seq::new(0, f) =~= Seq::<nat>::empty());
    }
    while i < a.len()
        invariant
            a@.len() == b@.len(),
            av == fe_vals(a@),
            bv == fe_vals(b@),
            f == (|i: int| eq_term(av[i], bv[i])),
            one.val() == 1,
            i <= a@.len(),
            acc.val() == fprod(Seq::new(i as nat, f)),
        decreases a.len() - i,
    {
        let x = a[i];
        let y = b[i];
        let t = x.mul(y).add(one.sub(x).mul(one.sub(y)));
        proof {
            lemma_fprod_new_step(i as nat, f);
        }
        acc = acc.mul(t);
        i = i + 1;
    }
    acc
}

// ---------------------------------------------------------------------------
// Univariate interpolation
// ---------------------------------------------------------------------------

/// The factor `x - j` of a Lagrange product, or one where `j == i`.
pub open spec fn lagrange_factor(x: nat, i: int, j: int) -> nat {
    if j == i {
        1nat
    } else {
        fsub(x, j as nat)
    }
}

/// `prod_{j != i, j < n} (x - j)`.
pub open spec fn lagrange_num(x: nat, n: nat, i: int) -> nat {
    fprod(Seq::new(n, |j: int| lagrange_factor(x, i, j)))
}

/// `prod_{j != i, j < n} (i - j)`.
pub open spec fn lagrange_den(n: nat, i: int) -> nat {
    lagrange_num(i as nat, n, i)
}

/// Every Lagrange denominator for the points `0..n` has an inverse in the field.
pub open spec fn lagrange_defined(n: nat) -> bool {
    forall|i: int| 0 <= i < n ==> #[trigger] has_inverse(lagrange_den(n, i))
}

/// The value at `x` of the polynomial of degree below `|ys|` through the points
/// `(i, ys[i])`: `sum_i ys[i] * lagrange_num(x, i) / lagrange_den(i)`.
pub open spec fn interpolation(ys: Seq<nat>, x: nat) -> nat {
    fsum(
        Seq::new(
            ys.len(),
            |i: int|
                fmul(fmul(ys[i], lagrange_num(x, ys.len(), i)), finv(lagrange_den(ys.len(), i))),
        ),
    )
}

/// The product `prod_{j != i, j < n} (x - j)` for a point given as an element.
fn lagrange_product(x: Fe, n: usize, i: usize) -> (r: Fe)
    requires
        i < n,
    ensures
        r.val() == lagrange_num(x.val(), n as nat, i as int),
{
    let ghost f = |j: int| lagrange_factor(x.val(), i as int, j);
    let mut acc = Fe::one();
    let mut j: usize = 0;
    proof {
        assert(Seq::new(0, f) =~= Seq::<nat>::empty());
    }
    while j < n
        invariant
            i < n,
            j <= n,
            f == (|j: int| lagrange_factor(x.val(), i as int, j)),
            acc.val() == fprod(Seq::new(j as nat, f)),
        decreases n - j,
    {
        proof {
            lemma_fprod_new_step(j as nat, f);
        }
        if j != i {
            let jj = Fe::from_u64(j as u64);
            acc = acc.mul(x.sub(jj));
        } else {
            assert(f(j as int) == 1);
            proof {
                assert(fmul(acc.val(), 1) == acc.val()) by {
                    acc.lemma_val_bound();
                    assert(acc.val() * 1 == acc.val());
                    vstd::arithmetic::div_mod::lemma_small_mod(acc.val(), modulus());
                }
            }
        }
        j = j + 1;
    }
    acc
}

/// `interpolate_uni_poly`: the value at `x` of the polynomial of degree below
/// `|ys|` through the points `(i, ys[i])`. The field order being prime, every
/// Lagrange denominator has an inverse, so the value is always there.
pub fn interpolate_uni_poly(ys: &Vec<Fe>, x: Fe) -> (r: Option<Fe>)
    requires
        ys@.len() < u64::MAX,
    ensures
        lagrange_defined(ys@.len()),
        r is Some,
        r matches Some(v) ==> v.val() == interpolation(fe_vals(ys@), x.val()),
{
    proof {
        crate::upoly::lemma_lagrange_defined(ys@.len() as nat);
    }
    let n = ys.len();
    let ghost yv = fe_vals(ys@);
    let ghost f = |i: int|
        fmul(fmul(yv[i], lagrange_num(x.val(), n as nat, i)), finv(lagrange_den(n as nat, i)));
    let mut acc = Fe::zero();
    let mut i: usize = 0;
    proof {
        assert(Seq::new(0, f) =~= Seq::<nat>::empty());
    }
    while i < n
        invariant
            n == ys@.len(),
            n < u64::MAX,
            yv == fe_vals(ys@),
            f == (|i: int|
                fmul(fmul(yv[i], lagrange_num(x.val(), n as nat, i)), finv(lagrange_den(n as nat, i)))),
            i <= n,
            lagrange_defined(n as nat),
            forall|k: int| 0 <= k < i ==> #[trigger] has_inverse(lagrange_den(n as nat, k)),
            acc.val() == fsum(Seq::new(i as nat, f)),
        decreases n - i,
    {
        let num = lagrange_product(x, n, i);
        let iv = Fe::from_u64(i as u64);
        let den = lagrange_product(iv, n, i);
        assert(den.val() == lagrange_den(n as nat, i as int));
        match den.inverse() {
            None => {
                proof {
                    if has_inverse(lagrange_den(n as nat, i as int)) {
                        let w = choose|w: nat| crate::field::is_inverse(lagrange_den(n as nat, i as int), w);
                        assert(fmul(0, w) == 0);
                    }
                }
                return None;
            },
            Some(inv) => {
                proof {
                    lemma_fsum_new_step(i as nat, f);
                }
                acc = acc.add(ys[i].mul(num).mul(inv));
            },
        }
        i = i + 1;
    }
    Some(acc)
}

} // verus!
