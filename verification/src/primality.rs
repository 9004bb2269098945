//! Residues modulo a number whose nonzero residues all have inverses, shown by
//! Lucas's criterion: an element whose powers first return to one after `n - 1`
//! steps reaches every nonzero residue, each of them a unit.

use vstd::prelude::*;
use vstd::arithmetic::div_mod::*;
use vstd::arithmetic::mul::*;
use vstd::set_lib::*;

verus! {

/// `a b` modulo `n`.
pub open spec fn mm(a: nat, b: nat, n: nat) -> nat {
    (a * b) % n
}

/// `x^k` modulo `n`.
#[verifier::opaque]
pub open spec fn mpow(x: nat, k: nat, n: nat) -> nat
    decreases k,
{
    if k == 0 {
        1nat % n
    } else {
        mm(x, mpow(x, (k - 1) as nat, n), n)
    }
}

/// `x` has an inverse modulo `n`.
pub open spec fn unit_mod(x: nat, n: nat) -> bool {
    exists|w: nat| #[trigger] mm(x, w, n) == 1
}

/// Every nonzero residue modulo `n` has an inverse.
pub open spec fn field_mod(n: nat) -> bool {
    n >= 2 && forall|x: nat| 0 < x < n ==> #[trigger] unit_mod(x, n)
}

/// `prod_{i < l} f(i)`.
pub open spec fn iprod(l: nat, f: spec_fn(int) -> nat) -> nat
    decreases l,
{
    if l == 0 {
        1
    } else {
        iprod((l - 1) as nat, f) * f(l - 1)
    }
}

/// One more factor of a product.
pub proof fn lemma_iprod_next(l: nat, fl: spec_fn(int) -> nat, a: nat, q: nat)
    requires
        iprod(l, fl) == a,
        fl(l as int) == q,
    ensures
        iprod(l + 1, fl) == a * q,
{
    assert((l + 1 - 1) as nat == l);
}

proof fn lemma_mm_comm(a: nat, b: nat, n: nat)
    ensures
        mm(a, b, n) == mm(b, a, n),
{
    lemma_mul_is_commutative(a as int, b as int);
}

proof fn lemma_mm_assoc(a: nat, b: nat, c: nat, n: nat)
    requires
        n >= 1,
    ensures
        mm(mm(a, b, n), c, n) == mm(a, mm(b, c, n), n),
{
    let m = n as int;
    lemma_mul_mod_noop_left((a * b) as int, c as int, m);
    lemma_mul_mod_noop_right(a as int, (b * c) as int, m);
    lemma_mul_is_associative(a as int, b as int, c as int);
}

proof fn lemma_mm_one(a: nat, n: nat)
    requires
        a < n,
    ensures
        mm(1, a, n) == a,
        mm(a, 1, n) == a,
{
    lemma_small_mod(a, n);
}

proof fn lemma_mpow_bound(x: nat, k: nat, n: nat)
    requires
        n >= 2,
    ensures
        mpow(x, k, n) < n,
{
    reveal(mpow);
    if k == 0 {
        lemma_small_mod(1, n);
    } else {
        lemma_mod_bound((x * mpow(x, (k - 1) as nat, n)) as int, n as int);
    }
}

/// `x^(a + b) = x^a x^b`.
pub proof fn lemma_mpow_add(x: nat, a: nat, b: nat, n: nat)
    requires
        n >= 2,
    ensures
        mpow(x, a + b, n) == mm(mpow(x, a, n), mpow(x, b, n), n),
    decreases a,
{
    reveal(mpow);
    lemma_mpow_bound(x, b, n);
    if a == 0 {
        lemma_small_mod(1, n);
        lemma_mm_one(mpow(x, b, n), n);
    } else {
        let a1 = (a - 1) as nat;
        lemma_mpow_add(x, a1, b, n);
        assert((a + b - 1) as nat == a1 + b);
        lemma_mm_assoc(x, mpow(x, a1, n), mpow(x, b, n), n);
    }
}

/// `x^(a b) = (x^a)^b`.
pub proof fn lemma_mpow_mul(x: nat, a: nat, b: nat, n: nat)
    requires
        n >= 2,
    ensures
        mpow(x, a * b, n) == mpow(mpow(x, a, n), b, n),
    decreases b,
{
    reveal(mpow);
    if b == 0 {
        assert(a * 0 == 0);
    } else {
        let b1 = (b - 1) as nat;
        lemma_mpow_mul(x, a, b1, n);
        assert(a * b == a * b1 + a) by (nonlinear_arith)
            requires
                b1 == b - 1,
        ;
        lemma_mpow_add(x, a * b1, a, n);
        lemma_mm_comm(mpow(x, a * b1, n), mpow(x, a, n), n);
    }
}

/// `1^b = 1`.
proof fn lemma_mpow_one(b: nat, n: nat)
    requires
        n >= 2,
    ensures
        mpow(1, b, n) == 1,
    decreases b,
{
    reveal(mpow);
    lemma_small_mod(1, n);
    if b > 0 {
        lemma_mpow_one((b - 1) as nat, n);
    }
}

/// Squaring, and squaring then multiplying, step an exponent from `k` to `2 k`
/// and `2 k + 1`.
pub proof fn lemma_mpow_step(x: nat, k: nat, c: nat, n: nat)
    requires
        n >= 2,
        mpow(x, k, n) == c,
    ensures
        mpow(x, 2 * k, n) == mm(c, c, n),
        mpow(x, 2 * k + 1, n) == mm(x, mm(c, c, n), n),
{
    reveal(mpow);
    lemma_mpow_add(x, k, k, n);
    assert(k + k == 2 * k);
    assert((2 * k + 1 - 1) as nat == 2 * k);
}

/// One step of exponentiation by squaring: from `x^k = c` to `x^(2 k + b) = d`,
/// where `d` is `c^2`, times `x` when `b` is one.
pub proof fn lemma_mpow_next(x: nat, k: nat, c: nat, b: nat, d: nat, n: nat)
    requires
        n >= 2,
        mpow(x, k, n) == c,
        b < 2,
        d == if b == 1 {
            (x * ((c * c) % n)) % n
        } else {
            (c * c) % n
        },
    ensures
        mpow(x, 2 * k + b, n) == d,
{
    lemma_mpow_step(x, k, c, n);
}

/// `x^1 = x` for a residue `x`.
pub proof fn lemma_mpow_first(x: nat, n: nat)
    requires
        n >= 2,
        x < n,
    ensures
        mpow(x, 1, n) == x,
{
    reveal(mpow);
    lemma_small_mod(1, n);
    assert(mpow(x, 0, n) == 1);
    lemma_mm_one(x, n);
}

/// The least positive period of `x` at most `d`.
proof fn lemma_min_period(x: nat, n: nat, d: nat) -> (d0: nat)
    requires
        n >= 2,
        d > 0,
        mpow(x, d, n) == 1,
    ensures
        0 < d0 <= d,
        mpow(x, d0, n) == 1,
        forall|e: nat| 0 < e < d0 ==> #[trigger] mpow(x, e, n) != 1,
    decreases d,
{
    if exists|e: nat| 0 < e < d && #[trigger] mpow(x, e, n) == 1 {
        let e = choose|e: nat| 0 < e < d && #[trigger] mpow(x, e, n) == 1;
        lemma_min_period(x, n, e)
    } else {
        d
    }
}

/// A period of `x` reduces every other period modulo it.
proof fn lemma_period_mod(x: nat, n: nat, d: nat, k: nat)
    requires
        n >= 2,
        d > 0,
        mpow(x, d, n) == 1,
        mpow(x, k, n) == 1,
    ensures
        mpow(x, k % d, n) == 1,
{
    let q = k / d;
    let r = k % d;
    lemma_fundamental_div_mod(k as int, d as int);
    lemma_mpow_mul(x, d, q, n);
    lemma_mpow_one(q, n);
    assert(k == d * q + r);
    lemma_mpow_add(x, d * q, r, n);
    lemma_mpow_bound(x, r, n);
    lemma_mm_one(mpow(x, r, n), n);
}

/// Euclid's lemma for a modulus whose nonzero residues are units.
proof fn lemma_euclid(f: nat, a: nat, b: nat)
    requires
        field_mod(f),
        (a * b) % f == 0,
        a % f != 0,
    ensures
        b % f == 0,
{
    let m = f as int;
    let x = a % f;
    lemma_mod_bound(a as int, m);
    assert(unit_mod(x, f));
    let w = choose|w: nat| #[trigger] mm(x, w, f) == 1;
    // x b == a b == 0 modulo f
    lemma_mul_mod_noop_left(a as int, b as int, m);
    assert((x * b) % f == 0);
    // b == b (x w) == (x b) w == 0 modulo f
    lemma_mul_mod_noop_right(b as int, (x * w) as int, m);
    assert((b * 1) % f == (b * (x * w)) % f);
    assert(b * (x * w) == (x * b) * w) by (nonlinear_arith);
    lemma_mul_mod_noop_left((x * b) as int, w as int, m);
    assert(0 * w == 0);
    lemma_small_mod(0, f);
}

/// A divisor above one of a product of factors whose nonzero residues are units
/// is divisible by one of them.
proof fn lemma_factor_hit(fl: spec_fn(int) -> nat, l: nat, k: nat, t: nat) -> (i: int)
    requires
        k > 1,
        k * t == iprod(l, fl),
        forall|j: int| 0 <= j < l ==> field_mod(#[trigger] fl(j)),
    ensures
        0 <= i < l,
        k % fl(i) == 0,
    decreases l,
{
    if l == 0 {
        assert(false) by (nonlinear_arith)
            requires
                k > 1,
                k * t == 1,
        ;
        0
    } else {
        let l1 = (l - 1) as nat;
        let f = fl(l1 as int);
        assert(field_mod(f));
        let rest = iprod(l1, fl);
        if k % f == 0 {
            l1 as int
        } else {
            // f divides k t == rest f
            assert(k * t == f * rest) by (nonlinear_arith)
                requires
                    k * t == rest * f,
            ;
            lemma_mod_multiples_basic(rest as int, f as int);
            lemma_mul_is_commutative(rest as int, f as int);
            lemma_euclid(f, k, t);
            let t2 = t / f;
            lemma_fundamental_div_mod(t as int, f as int);
            assert(t == f * t2);
            assert(k * t2 == rest) by (nonlinear_arith)
                requires
                    k * t == f * rest,
                    t == f * t2,
                    f >= 2,
            ;
            lemma_factor_hit(fl, l1, k, t2)
        }
    }
}

/// Lucas's criterion: when `g^(n - 1) = 1`, `n - 1` is the product of the
/// factors `fl(0), ..., fl(l - 1)` modulo each of which every nonzero residue is a
/// unit, and `g^((n - 1) / fl(i)) != 1` for each of them, every nonzero residue
/// modulo `n` is a unit.
pub proof fn lemma_lucas(n: nat, g: nat, fl: spec_fn(int) -> nat, l: nat)
    requires
        n >= 2,
        iprod(l, fl) == n - 1,
        forall|j: int| 0 <= j < l ==> field_mod(#[trigger] fl(j)),
        mpow(g, (n - 1) as nat, n) == 1,
        forall|j: int| 0 <= j < l ==> mpow(g, ((n - 1) as nat / #[trigger] fl(j)) as nat, n) != 1,
    ensures
        field_mod(n),
{
    let nn = (n - 1) as nat;
    let d0 = lemma_min_period(g, n, nn);
    lemma_period_mod(g, n, d0, nn);
    lemma_mod_bound(nn as int, d0 as int);
    assert(nn % d0 == 0);
    lemma_fundamental_div_mod(nn as int, d0 as int);
    if d0 < nn {
        let k = nn / d0;
        assert(nn == d0 * k);
        assert(k > 1) by (nonlinear_arith)
            requires
                nn == d0 * k,
                d0 < nn,
                d0 > 0,
        ;
        assert(k * d0 == iprod(l, fl)) by (nonlinear_arith)
            requires
                nn == d0 * k,
                iprod(l, fl) == nn,
        ;
        let i = lemma_factor_hit(fl, l, k, d0);
        let q = fl(i);
        assert(field_mod(q));
        lemma_fundamental_div_mod(k as int, q as int);
        let k2 = k / q;
        assert(k == q * k2);
        assert(nn == q * (d0 * k2)) by (nonlinear_arith)
            requires
                nn == d0 * k,
                k == q * k2,
        ;
        lemma_div_multiples_vanish((d0 * k2) as int, q as int);
        assert(nn / q == d0 * k2);
        lemma_mpow_mul(g, d0, k2, n);
        lemma_mpow_one(k2, n);
        assert(mpow(g, (nn / fl(i)) as nat, n) == 1);
        assert(false);
    }
    assert(d0 == nn);
    // the powers g^0, ..., g^(n - 2): units, nonzero, and pairwise distinct
    assert forall|i: nat| i < nn implies #[trigger] mm(mpow(g, i, n), mpow(g, (nn - i) as nat, n), n) == 1 by {
        lemma_mpow_add(g, i, (nn - i) as nat, n);
    }
    let dom = set_int_range(0, nn as int);
    let pw = |i: int| mpow(g, i as nat, n) as int;
    let img = dom.map(pw);
    assert forall|i: int, j: int| dom.contains(i) && dom.contains(j) && #[trigger] pw(i) == #[trigger] pw(j)
        implies i == j by {
        if i != j {
            let (a, b) = if i < j { (i as nat, j as nat) } else { (j as nat, i as nat) };
            let u = mpow(g, a, n);
            let v = mpow(g, (nn - a) as nat, n);
            let e = (b - a) as nat;
            assert(mm(u, v, n) == 1);
            lemma_mpow_add(g, a, e, n);
            assert(a + e == b);
            lemma_mpow_bound(g, e, n);
            lemma_mpow_bound(g, a, n);
            lemma_mpow_bound(g, (nn - a) as nat, n);
            lemma_mm_one(mpow(g, e, n), n);
            lemma_mm_comm(u, v, n);
            lemma_mm_assoc(v, u, mpow(g, e, n), n);
            assert(mpow(g, e, n) == 1);
            assert(0 < e < d0);
        }
    }
    lemma_int_range(0, nn as int);
    lemma_map_size(dom, img, pw);
    let units = set_int_range(1, n as int);
    lemma_int_range(1, n as int);
    assert forall|y: int| img.contains(y) implies units.contains(y) by {
        let i = choose|i: int| dom.contains(i) && y == pw(i);
        lemma_mpow_bound(g, i as nat, n);
        if y == 0 {
            assert(mm(mpow(g, i as nat, n), mpow(g, (nn - i) as nat, n), n) == 1);
            assert(0 * mpow(g, (nn - i) as nat, n) == 0);
            lemma_small_mod(0, n);
        }
    }
    lemma_subset_equality(img, units);
    assert forall|x: nat| 0 < x < n implies #[trigger] unit_mod(x, n) by {
        assert(units.contains(x as int));
        assert(img.contains(x as int));
        let i = choose|i: int| dom.contains(i) && x as int == pw(i);
        assert(mm(mpow(g, i as nat, n), mpow(g, (nn - i) as nat, n), n) == 1);
        assert(mm(x, mpow(g, (nn - i) as nat, n), n) == 1);
    }
}

/// Modulo two, the one nonzero residue is its own inverse.
pub proof fn lemma_field_2()
    ensures
        field_mod(2),
{
    assert forall|x: nat| 0 < x < 2 implies #[trigger] unit_mod(x, 2) by {
        assert(x == 1);
        assert(mm(1, 1, 2) == 1);
    }
}

} // verus!
