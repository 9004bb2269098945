//! Algebra of the field operations on values: each of `fadd`, `fsub`, `fmul`
//! is the integer operation reduced modulo the field order, so identities of the
//! integer ring carry over. Also sums over index ranges: linearity, scaling,
//! splitting, regrouping into blocks and exchanging two sums; and units.

use vstd::prelude::*;
use vstd::arithmetic::div_mod::*;
use vstd::arithmetic::mul::*;
use crate::field::{fadd, fmul, fprod, fsub, fsum, is_inverse, lemma_fsum_new_step, modulus};

verus! {

/// `x` reduced modulo the field order.
pub open spec fn md(x: int) -> int {
    x % (modulus() as int)
}

/// `a` has a multiplicative inverse.
pub open spec fn has_inverse(a: nat) -> bool {
    exists|w: nat| is_inverse(a, w)
}

/// A sum stands for the sum of what its operands stand for.
pub proof fn lemma_lift_add(a: nat, b: nat, ai: int, bi: int)
    requires
        md(a as int) == md(ai),
        md(b as int) == md(bi),
    ensures
        fadd(a, b) as int == md(ai + bi),
{
    let m = modulus() as int;
    lemma_add_mod_noop(a as int, b as int, m);
    lemma_add_mod_noop(ai, bi, m);
}

/// A difference stands for the difference of what its operands stand for.
pub proof fn lemma_lift_sub(a: nat, b: nat, ai: int, bi: int)
    requires
        md(a as int) == md(ai),
        md(b as int) == md(bi),
    ensures
        fsub(a, b) as int == md(ai - bi),
{
    let m = modulus() as int;
    lemma_sub_mod_noop(a as int, b as int, m);
    lemma_sub_mod_noop(ai, bi, m);
}

/// A product stands for the product of what its operands stand for.
pub proof fn lemma_lift_mul(a: nat, b: nat, ai: int, bi: int)
    requires
        md(a as int) == md(ai),
        md(b as int) == md(bi),
    ensures
        fmul(a, b) as int == md(ai * bi),
{
    let m = modulus() as int;
    lemma_mul_mod_noop(a as int, b as int, m);
    lemma_mul_mod_noop(ai, bi, m);
}

/// A field value is its own residue.
pub proof fn lemma_lift_val(a: nat)
    requires
        a < modulus(),
    ensures
        a as int == md(a as int),
{
    lemma_small_mod(a, modulus());
}

/// Residues of integers are what the integers stand for.
pub proof fn lemma_md_md(x: int)
    ensures
        md(md(x)) == md(x),
        0 <= md(x) < modulus(),
{
    let m = modulus() as int;
    lemma_mod_bound(x, m);
    lemma_small_mod(md(x) as nat, m as nat);
}

/// `fmul` is commutative.
pub proof fn lemma_fmul_comm(a: nat, b: nat)
    ensures
        fmul(a, b) == fmul(b, a),
{
    lemma_mul_is_commutative(a as int, b as int);
}

/// `fmul` is associative.
pub proof fn lemma_fmul_assoc(a: nat, b: nat, c: nat)
    ensures
        fmul(fmul(a, b), c) == fmul(a, fmul(b, c)),
{
    let (ai, bi, ci) = (a as int, b as int, c as int);
    lemma_md_md(ai);
    lemma_md_md(bi);
    lemma_md_md(ci);
    lemma_lift_mul(a, b, ai, bi);
    lemma_md_md(ai * bi);
    lemma_lift_mul(fmul(a, b), c, ai * bi, ci);
    lemma_lift_mul(b, c, bi, ci);
    lemma_md_md(bi * ci);
    lemma_lift_mul(a, fmul(b, c), ai, bi * ci);
    lemma_mul_is_associative(ai, bi, ci);
}

/// Multiplication distributes over addition.
pub proof fn lemma_fmul_distrib(a: nat, b: nat, c: nat)
    ensures
        fmul(a, fadd(b, c)) == fadd(fmul(a, b), fmul(a, c)),
{
    let (ai, bi, ci) = (a as int, b as int, c as int);
    lemma_md_md(ai);
    lemma_md_md(bi);
    lemma_md_md(ci);
    lemma_lift_add(b, c, bi, ci);
    lemma_md_md(bi + ci);
    lemma_lift_mul(a, fadd(b, c), ai, bi + ci);
    lemma_lift_mul(a, b, ai, bi);
    lemma_lift_mul(a, c, ai, ci);
    lemma_md_md(ai * bi);
    lemma_md_md(ai * ci);
    lemma_lift_add(fmul(a, b), fmul(a, c), ai * bi, ai * ci);
    lemma_mul_is_distributive_add(ai, bi, ci);
}

/// Zero and one behave as they should on field values.
pub proof fn lemma_field_units(a: nat)
    requires
        a < modulus(),
    ensures
        fadd(a, 0) == a,
        fadd(0, a) == a,
        fmul(a, 1) == a,
        fmul(1, a) == a,
        fmul(a, 0) == 0,
        fmul(0, a) == 0,
        fsub(a, 0) == a,
        fsub(a, a) == 0,
{
    lemma_small_mod(a, modulus());
}

/// A sum is a field value.
pub proof fn lemma_fsum_bound(s: Seq<nat>)
    ensures
        fsum(s) < modulus(),
    decreases s.len(),
{
}

/// A product is a field value.
pub proof fn lemma_fprod_bound(s: Seq<nat>)
    ensures
        fprod(s) < modulus(),
    decreases s.len(),
{
}

/// Sums of two sequences add termwise.
pub proof fn lemma_fsum_add(n: nat, f: spec_fn(int) -> nat, g: spec_fn(int) -> nat)
    ensures
        fadd(fsum(Seq::new(n, f)), fsum(Seq::new(n, g))) == fsum(
            Seq::new(n, |i: int| fadd(f(i), g(i))),
        ),
    decreases n,
{
    let h = |i: int| fadd(f(i), g(i));
    if n == 0 {
        assert(Seq::new(0, f) =~= Seq::<nat>::empty());
        assert(Seq::new(0, g) =~= Seq::<nat>::empty());
        assert(Seq::new(0, h) =~= Seq::<nat>::empty());
    } else {
        let k = (n - 1) as nat;
        lemma_fsum_add(k, f, g);
        lemma_fsum_new_step(k, f);
        lemma_fsum_new_step(k, g);
        lemma_fsum_new_step(k, h);
        let (sf, sg) = (fsum(Seq::new(k, f)), fsum(Seq::new(k, g)));
        let (a, b) = (f(k as int), g(k as int));
        // (sf + a) + (sg + b) == (sf + sg) + (a + b)
        let (sfi, sgi, ai, bi) = (sf as int, sg as int, a as int, b as int);
        lemma_md_md(sfi);
        lemma_md_md(sgi);
        lemma_md_md(ai);
        lemma_md_md(bi);
        lemma_lift_add(sf, a, sfi, ai);
        lemma_lift_add(sg, b, sgi, bi);
        lemma_md_md(sfi + ai);
        lemma_md_md(sgi + bi);
        lemma_lift_add(fadd(sf, a), fadd(sg, b), sfi + ai, sgi + bi);
        lemma_lift_add(sf, sg, sfi, sgi);
        lemma_lift_add(a, b, ai, bi);
        lemma_md_md(sfi + sgi);
        lemma_md_md(ai + bi);
        lemma_lift_add(fadd(sf, sg), fadd(a, b), sfi + sgi, ai + bi);
    }
}

/// A constant factor moves into a sum.
pub proof fn lemma_fsum_scale(n: nat, c: nat, f: spec_fn(int) -> nat)
    ensures
        fmul(c, fsum(Seq::new(n, f))) == fsum(Seq::new(n, |i: int| fmul(c, f(i)))),
    decreases n,
{
    let h = |i: int| fmul(c, f(i));
    if n == 0 {
        assert(Seq::new(0, f) =~= Seq::<nat>::empty());
        assert(Seq::new(0, h) =~= Seq::<nat>::empty());
        assert(c * 0 == 0);
    } else {
        let k = (n - 1) as nat;
        lemma_fsum_scale(k, c, f);
        lemma_fsum_new_step(k, f);
        lemma_fsum_new_step(k, h);
        lemma_fmul_distrib(c, fsum(Seq::new(k, f)), f(k as int));
    }
}

/// A sum of zeros is zero.
pub proof fn lemma_fsum_zero(n: nat, f: spec_fn(int) -> nat)
    requires
        forall|i: int| 0 <= i < n ==> #[trigger] f(i) == 0,
    ensures
        fsum(Seq::new(n, f)) == 0,
    decreases n,
{
    if n == 0 {
        assert(Seq::new(0, f) =~= Seq::<nat>::empty());
    } else {
        let k = (n - 1) as nat;
        lemma_fsum_zero(k, f);
        lemma_fsum_new_step(k, f);
    }
}

/// A sum with one nonzero term is that term.
pub proof fn lemma_fsum_single(n: nat, f: spec_fn(int) -> nat, k: int)
    requires
        0 <= k < n,
        f(k) < modulus(),
        forall|i: int| 0 <= i < n && i != k ==> #[trigger] f(i) == 0,
    ensures
        fsum(Seq::new(n, f)) == f(k),
    decreases n,
{
    let j = (n - 1) as nat;
    lemma_fsum_new_step(j, f);
    if k == j {
        lemma_fsum_zero(j, f);
        lemma_field_units(f(k));
    } else {
        lemma_fsum_single(j, f, k);
        lemma_field_units(f(k));
    }
}

/// A sum over `a + b` terms is the sum over the first `a` plus the sum over the
/// last `b`.
pub proof fn lemma_fsum_split(a: nat, b: nat, g: spec_fn(int) -> nat)
    ensures
        fsum(Seq::new(a + b, g)) == fadd(fsum(Seq::new(a, g)), fsum(Seq::new(b, |i: int| g(a + i)))),
    decreases b,
{
    let h = |i: int| g(a + i);
    if b == 0 {
        assert(Seq::new(0, h) =~= Seq::<nat>::empty());
        assert(a + 0 == a);
        lemma_fsum_bound(Seq::new(a, g));
        lemma_field_units(fsum(Seq::new(a, g)));
    } else {
        let k = (b - 1) as nat;
        lemma_fsum_split(a, k, g);
        lemma_fsum_new_step(a + k, g);
        lemma_fsum_new_step(k, h);
        assert(a + k + 1 == a + b);
        crate::field::lemma_fadd_assoc(fsum(Seq::new(a, g)), fsum(Seq::new(k, h)), h(k as int));
    }
}

/// A sum over `s` blocks of `m` terms is the sum of the block sums.
pub proof fn lemma_fsum_blocks(s: nat, m: nat, g: spec_fn(int) -> nat)
    ensures
        fsum(Seq::new(s * m, g)) == fsum(
            Seq::new(s, |y: int| fsum(Seq::new(m, |i: int| g(y * m + i)))),
        ),
    decreases s,
{
    let blk = |y: int| fsum(Seq::new(m, |i: int| g(y * m + i)));
    if s == 0 {
        assert(Seq::new(0, blk) =~= Seq::<nat>::empty());
        assert(Seq::new(0 * m, g) =~= Seq::<nat>::empty());
    } else {
        let k = (s - 1) as nat;
        lemma_fsum_blocks(k, m, g);
        assert(s * m == k * m + m) by (nonlinear_arith)
            requires
                k == s - 1,
        ;
        lemma_fsum_split(k * m, m, g);
        lemma_fsum_new_step(k, blk);
        assert(Seq::new(m, |i: int| g(k * m + i)) =~= Seq::new(m, |i: int| g((k * m) as int + i)));
    }
}

/// Two nested sums can be exchanged.
pub proof fn lemma_fsum_swap(a: nat, b: nat, g: spec_fn(int, int) -> nat)
    ensures
        fsum(Seq::new(a, |y: int| fsum(Seq::new(b, |i: int| g(y, i))))) == fsum(
            Seq::new(b, |i: int| fsum(Seq::new(a, |y: int| g(y, i)))),
        ),
    decreases a,
{
    let lhs = |y: int| fsum(Seq::new(b, |i: int| g(y, i)));
    let rhs = |i: int| fsum(Seq::new(a, |y: int| g(y, i)));
    if a == 0 {
        assert(Seq::new(0, lhs) =~= Seq::<nat>::empty());
        assert forall|i: int| 0 <= i < b implies #[trigger] rhs(i) == 0 by {
            assert(Seq::new(0, |y: int| g(y, i)) =~= Seq::<nat>::empty());
        }
        lemma_fsum_zero(b, rhs);
    } else {
        let k = (a - 1) as nat;
        lemma_fsum_swap(k, b, g);
        lemma_fsum_new_step(k, lhs);
        let prev = |i: int| fsum(Seq::new(k, |y: int| g(y, i)));
        let last = |i: int| g(k as int, i);
        lemma_fsum_add(b, prev, last);
        assert forall|i: int| 0 <= i < b implies #[trigger] rhs(i) == fadd(prev(i), last(i)) by {
            lemma_fsum_new_step(k, |y: int| g(y, i));
        }
        assert(Seq::new(b, rhs) =~= Seq::new(b, |i: int| fadd(prev(i), last(i))));
        assert(Seq::new(b, |i: int| g(k as int, i)) =~= Seq::new(b, last));
        assert(Seq::new(k, lhs) =~= Seq::new(k, |y: int| fsum(Seq::new(b, |i: int| g(y, i)))));
        assert(Seq::new(b, prev) =~= Seq::new(b, |i: int| fsum(Seq::new(k, |y: int| g(y, i)))));
    }
}

/// A product with a zero factor is zero.
pub proof fn lemma_fprod_zero(n: nat, f: spec_fn(int) -> nat, k: int)
    requires
        0 <= k < n,
        f(k) == 0,
    ensures
        fprod(Seq::new(n, f)) == 0,
    decreases n,
{
    let j = (n - 1) as nat;
    crate::field::lemma_fprod_new_step(j, f);
    if k == j {
        lemma_fprod_bound(Seq::new(j, f));
        lemma_field_units(fprod(Seq::new(j, f)));
    } else {
        lemma_fprod_zero(j, f, k);
        lemma_field_units(f(j as int) % modulus());
        lemma_fmul_comm(0, f(j as int));
    }
}

/// A factor of a unit is a unit.
pub proof fn lemma_unit_factor(a: nat, b: nat)
    requires
        has_inverse(fmul(a, b)),
    ensures
        has_inverse(a),
        has_inverse(b),
{
    let w = choose|w: nat| is_inverse(fmul(a, b), w);
    lemma_fmul_assoc(a, b, w);
    assert(is_inverse(a, fmul(b, w)));
    lemma_fmul_comm(a, b);
    lemma_fmul_assoc(b, a, w);
    assert(is_inverse(b, fmul(a, w)));
}

/// Every factor of a unit product is a unit.
pub proof fn lemma_unit_prod_factor(n: nat, f: spec_fn(int) -> nat, k: int)
    requires
        0 <= k < n,
        has_inverse(fprod(Seq::new(n, f))),
    ensures
        has_inverse(f(k) % modulus()),
    decreases n,
{
    let j = (n - 1) as nat;
    crate::field::lemma_fprod_new_step(j, f);
    lemma_unit_factor(fprod(Seq::new(j, f)), f(j as int));
    if k == j {
        let w = choose|w: nat| #[trigger] is_inverse(f(k), w);
        lemma_mul_mod_noop_left(f(k) as int, w as int, modulus() as int);
        assert(is_inverse(f(k) % modulus(), w));
    } else {
        lemma_unit_prod_factor(j, f, k);
    }
}

/// A unit cancels from a product that is zero.
pub proof fn lemma_unit_cancel(a: nat, y: nat)
    requires
        has_inverse(a),
        fmul(a, y) == 0,
        y < modulus(),
    ensures
        y == 0,
{
    let w = choose|w: nat| is_inverse(a, w);
    lemma_fmul_assoc(w, a, y);
    lemma_fmul_comm(w, a);
    lemma_field_units(y);
    lemma_field_units(w);
}

/// `pi` is a permutation of `0..n`.
pub open spec fn is_permutation(pi: Seq<int>, n: nat) -> bool {
    &&& pi.len() == n
    &&& forall|i: int| 0 <= i < n ==> 0 <= #[trigger] pi[i] < n
    &&& forall|i: int, j: int| 0 <= i < n && 0 <= j < n && i != j ==> #[trigger] pi[i] != #[trigger] pi[j]
    &&& forall|k: int| 0 <= k < n ==> #[trigger] pi.contains(k)
}

/// Term `(i, k)` of the double sum behind a permuted sum: `f(k)` where `pi`
/// sends `i` to `k`, zero elsewhere.
spec fn perm_term(pi: Seq<int>, f: spec_fn(int) -> nat, i: int, k: int) -> nat {
    if pi[i] == k {
        f(k)
    } else {
        0
    }
}

/// A sum of field values does not depend on the order of its terms.
pub proof fn lemma_fsum_permute(n: nat, f: spec_fn(int) -> nat, pi: Seq<int>)
    requires
        is_permutation(pi, n),
        forall|k: int| 0 <= k < n ==> #[trigger] f(k) < modulus(),
    ensures
        fsum(Seq::new(n, |i: int| f(pi[i]))) == fsum(Seq::new(n, f)),
{
    let g = |i: int, k: int| perm_term(pi, f, i, k);
    assert forall|i: int| 0 <= i < n implies fsum(Seq::new(n, |k: int| g(i, k))) == f(#[trigger] pi[i]) by {
        lemma_fsum_single(n, |k: int| perm_term(pi, f, i, k), pi[i]);
        assert(Seq::new(n, |k: int| g(i, k)) =~= Seq::new(n, |k: int| perm_term(pi, f, i, k)));
    }
    assert forall|k: int| 0 <= k < n implies fsum(Seq::new(n, |i: int| g(i, k))) == #[trigger] f(k) by {
        assert(pi.contains(k));
        let i0 = choose|i: int| 0 <= i < n && #[trigger] pi[i] == k;
        assert forall|i: int| 0 <= i < n && i != i0 implies #[trigger] perm_term(pi, f, i, k) == 0 by {
            assert(pi[i] != pi[i0]);
        }
        lemma_fsum_single(n, |i: int| perm_term(pi, f, i, k), i0);
        assert(Seq::new(n, |i: int| g(i, k)) =~= Seq::new(n, |i: int| perm_term(pi, f, i, k)));
    }
    lemma_fsum_swap(n, n, g);
    assert(Seq::new(n, |i: int| fsum(Seq::new(n, |k: int| g(i, k)))) =~= Seq::new(n, |i: int| f(pi[i])));
    assert(Seq::new(n, |k: int| fsum(Seq::new(n, |i: int| g(i, k)))) =~= Seq::new(n, f));
}

} // verus!
