//! Elements of the scalar field of BLS12-381, with the arithmetic done by `ark_ff`.
//!
//! A field element is held as its canonical little-endian 64-bit limbs; its
//! mathematical value is a natural number below `modulus()`. Every operation
//! states its result as arithmetic modulo `modulus()`.

use vstd::prelude::*;
use vstd::arithmetic::div_mod::*;
use vstd::arithmetic::mul::*;
use ark_ff::{BigInt, Field, PrimeField};
use ark_bls12_381::Fr;

verus! {

/// The order of the scalar field of BLS12-381.
pub open spec fn modulus() -> nat {
    52435875175126190479447740508185965837690552500527637822603658699938581184513nat
}

/// The number that four little-endian 64-bit limbs spell.
pub open spec fn limbs_val(l: [u64; 4]) -> nat {
    l[0] as nat + l[1] as nat * 0x1_0000_0000_0000_0000nat + l[2] as nat
        * 0x1_0000_0000_0000_0000_0000_0000_0000_0000nat + l[3] as nat
        * 0x1_0000_0000_0000_0000_0000_0000_0000_0000_0000_0000_0000_0000nat
}

/// Field addition on values.
pub open spec fn fadd(a: nat, b: nat) -> nat {
    (a + b) % modulus()
}

/// Field subtraction on values.
pub open spec fn fsub(a: nat, b: nat) -> nat {
    ((a as int - b as int) % (modulus() as int)) as nat
}

/// Field multiplication on values.
pub open spec fn fmul(a: nat, b: nat) -> nat {
    (a * b) % modulus()
}

/// `w` is a multiplicative inverse of `a`.
pub open spec fn is_inverse(a: nat, w: nat) -> bool {
    w < modulus() && fmul(a, w) == 1
}

/// The multiplicative inverse of `a` (meaningful when `a % modulus() != 0`).
pub open spec fn finv(a: nat) -> nat {
    choose|w: nat| is_inverse(a, w)
}

/// The value of a little-endian byte string.
pub open spec fn le_val(s: Seq<u8>) -> nat
    decreases s.len(),
{
    if s.len() == 0 {
        0
    } else {
        s[0] as nat + 256 * le_val(s.drop_first())
    }
}

/// The `n` little-endian bytes of `v`.
pub open spec fn le_bytes(v: nat, n: nat) -> Seq<u8>
    decreases n,
{
    if n == 0 {
        Seq::empty()
    } else {
        seq![(v % 256) as u8] + le_bytes(v / 256, (n - 1) as nat)
    }
}

/// The sum of a sequence of values in the field, added from the front.
pub open spec fn fsum(s: Seq<nat>) -> nat
    decreases s.len(),
{
    if s.len() == 0 {
        0
    } else {
        fadd(fsum(s.drop_last()), s.last())
    }
}

/// The product of a sequence of values in the field, multiplied from the front.
pub open spec fn fprod(s: Seq<nat>) -> nat
    decreases s.len(),
{
    if s.len() == 0 {
        1
    } else {
        fmul(fprod(s.drop_last()), s.last())
    }
}

/// The values of a sequence of field elements.
pub open spec fn fe_vals(s: Seq<Fe>) -> Seq<nat> {
    s.map_values(|x: Fe| x.val())
}

/// An element of the scalar field.
#[derive(Clone, Copy, Debug, PartialEq, Eq)]
pub struct Fe {
    limbs: [u64; 4],
}

impl Fe {
    #[verifier::type_invariant]
    spec fn canonical(self) -> bool {
        limbs_val(self.limbs) < modulus()
    }

    /// The value of the element, a number below `modulus()`.
    pub closed spec fn val(self) -> nat {
        limbs_val(self.limbs) % modulus()
    }

    /// The element's value is below the modulus.
    pub broadcast proof fn lemma_val_bound(self)
        ensures
            #[trigger] self.val() < modulus(),
    {
    }

    /// The element whose value is `x`.
    pub fn from_u64(x: u64) -> (r: Fe)
        ensures
            r.val() == x as nat,
    {
        let r = Fe { limbs: [x, 0, 0, 0] };
        assert(limbs_val(r.limbs) == x as nat);
        r
    }

    /// Zero.
    pub fn zero() -> (r: Fe)
        ensures
            r.val() == 0,
    {
        Fe::from_u64(0)
    }

    /// One.
    pub fn one() -> (r: Fe)
        ensures
            r.val() == 1,
    {
        Fe::from_u64(1)
    }

    fn from_canonical(l: [u64; 4]) -> (r: Fe)
        requires
            limbs_val(l) < modulus(),
        ensures
            r.val() == limbs_val(l),
    {
        proof {
            lemma_small_mod(limbs_val(l), modulus());
        }
        Fe { limbs: l }
    }

    /// Sum.
    pub fn add(self, other: Fe) -> (r: Fe)
        ensures
            r.val() == fadd(self.val(), other.val()),
    {
        proof {
            use_type_invariant(self);
            use_type_invariant(other);
            lemma_small_mod(limbs_val(self.limbs), modulus());
            lemma_small_mod(limbs_val(other.limbs), modulus());
        }
        Fe::from_canonical(fr_add(self.limbs, other.limbs))
    }

    /// Difference.
    pub fn sub(self, other: Fe) -> (r: Fe)
        ensures
            r.val() == fsub(self.val(), other.val()),
    {
        proof {
            use_type_invariant(self);
            use_type_invariant(other);
            lemma_small_mod(limbs_val(self.limbs), modulus());
            lemma_small_mod(limbs_val(other.limbs), modulus());
        }
        Fe::from_canonical(fr_sub(self.limbs, other.limbs))
    }

    /// Product.
    pub fn mul(self, other: Fe) -> (r: Fe)
        ensures
            r.val() == fmul(self.val(), other.val()),
    {
        proof {
            use_type_invariant(self);
            use_type_invariant(other);
            lemma_small_mod(limbs_val(self.limbs), modulus());
            lemma_small_mod(limbs_val(other.limbs), modulus());
        }
        Fe::from_canonical(fr_mul(self.limbs, other.limbs))
    }

    /// The multiplicative inverse, `None` exactly for zero.
    pub fn inverse(self) -> (r: Option<Fe>)
        ensures
            r is None <==> self.val() == 0,
            r matches Some(w) ==> is_inverse(self.val(), w.val()) && w.val() == finv(self.val()),
    {
        proof {
            use_type_invariant(self);
            lemma_small_mod(limbs_val(self.limbs), modulus());
        }
        match fr_inverse(self.limbs) {
            None => None,
            Some(w) => {
                let r = Fe::from_canonical(w);
                proof {
                    lemma_inverse_unique(self.val(), r.val());
                }
                Some(r)
            },
        }
    }

    /// Whether two elements are equal.
    pub fn equals(&self, other: &Fe) -> (r: bool)
        ensures
            r == (self.val() == other.val()),
    {
        proof {
            use_type_invariant(self);
            use_type_invariant(other);
            lemma_small_mod(limbs_val(self.limbs), modulus());
            lemma_small_mod(limbs_val(other.limbs), modulus());
            if limbs_val(self.limbs) == limbs_val(other.limbs) {
                lemma_limbs_injective(self.limbs, other.limbs);
            }
        }
        self.limbs[0] == other.limbs[0] && self.limbs[1] == other.limbs[1] && self.limbs[2]
            == other.limbs[2] && self.limbs[3] == other.limbs[3]
    }

    /// The element whose value is the little-endian number `bytes` spell, reduced
    /// modulo the field order.
    pub fn from_le_bytes_mod_order(bytes: &Vec<u8>) -> (r: Fe)
        ensures
            r.val() == le_val(bytes@) % modulus(),
    {
        Fe::from_canonical(fr_from_le_bytes_mod_order(bytes.as_slice()))
    }

    /// The canonical 32-byte little-endian encoding of the element.
    pub fn to_bytes(&self) -> (r: Vec<u8>)
        ensures
            r@ == le_bytes(self.val(), 32),
    {
        proof {
            use_type_invariant(self);
            lemma_small_mod(limbs_val(self.limbs), modulus());
        }
        fr_to_bytes(self.limbs)
    }
}

/// Four 64-bit limbs spell one number only.
proof fn lemma_limbs_injective(a: [u64; 4], b: [u64; 4])
    requires
        limbs_val(a) == limbs_val(b),
    ensures
        a == b,
{
    let w: int = 0x1_0000_0000_0000_0000;
    let ra: int = a[1] as int + a[2] as int * w + a[3] as int * (w * w);
    let rb: int = b[1] as int + b[2] as int * w + b[3] as int * (w * w);
    assert(limbs_val(a) == a[0] as int + w * ra) by (nonlinear_arith)
        requires
            w == 0x1_0000_0000_0000_0000int,
            ra == a[1] as int + a[2] as int * w + a[3] as int * (w * w),
            limbs_val(a) == a[0] as nat + a[1] as nat * 0x1_0000_0000_0000_0000nat + a[2] as nat
                * 0x1_0000_0000_0000_0000_0000_0000_0000_0000nat + a[3] as nat
                * 0x1_0000_0000_0000_0000_0000_0000_0000_0000_0000_0000_0000_0000nat,
    ;
    assert(limbs_val(b) == b[0] as int + w * rb) by (nonlinear_arith)
        requires
            w == 0x1_0000_0000_0000_0000int,
            rb == b[1] as int + b[2] as int * w + b[3] as int * (w * w),
            limbs_val(b) == b[0] as nat + b[1] as nat * 0x1_0000_0000_0000_0000nat + b[2] as nat
                * 0x1_0000_0000_0000_0000_0000_0000_0000_0000nat + b[3] as nat
                * 0x1_0000_0000_0000_0000_0000_0000_0000_0000_0000_0000_0000_0000nat,
    ;
    lemma_digit_unique(a[0] as int, ra, b[0] as int, rb, w);
    let sa: int = a[2] as int + a[3] as int * w;
    let sb: int = b[2] as int + b[3] as int * w;
    assert(ra == a[1] as int + w * sa) by (nonlinear_arith)
        requires
            ra == a[1] as int + a[2] as int * w + a[3] as int * (w * w),
            sa == a[2] as int + a[3] as int * w,
    ;
    assert(rb == b[1] as int + w * sb) by (nonlinear_arith)
        requires
            rb == b[1] as int + b[2] as int * w + b[3] as int * (w * w),
            sb == b[2] as int + b[3] as int * w,
    ;
    lemma_digit_unique(a[1] as int, sa, b[1] as int, sb, w);
    assert(sa == a[2] as int + w * a[3] as int) by (nonlinear_arith)
        requires
            sa == a[2] as int + a[3] as int * w,
    ;
    assert(sb == b[2] as int + w * b[3] as int) by (nonlinear_arith)
        requires
            sb == b[2] as int + b[3] as int * w,
    ;
    lemma_digit_unique(a[2] as int, a[3] as int, b[2] as int, b[3] as int, w);
    assert(a =~= b);
}

proof fn lemma_digit_unique(x0: int, x1: int, y0: int, y1: int, w: int)
    requires
        0 <= x0 < w,
        0 <= y0 < w,
        x0 + w * x1 == y0 + w * y1,
    ensures
        x0 == y0,
        x1 == y1,
{
    lemma_mul_is_commutative(w, x1);
    lemma_mul_is_commutative(w, y1);
    lemma_fundamental_div_mod_converse(x0 + w * x1, w, x1, x0);
    lemma_fundamental_div_mod_converse(y0 + w * y1, w, y1, y0);
}

/// A value has at most one inverse below the modulus.
pub proof fn lemma_inverse_unique(a: nat, w: nat)
    requires
        is_inverse(a, w),
    ensures
        finv(a) == w,
{
    let v = finv(a);
    assert(is_inverse(a, v));
    lemma_inverse_unique_pair(a, v, w);
}

proof fn lemma_inverse_unique_pair(a: nat, v: nat, w: nat)
    requires
        is_inverse(a, v),
        is_inverse(a, w),
    ensures
        v == w,
{
    let m = modulus() as int;
    // v = v * (a * w) = (v * a) * w = w  (mod m)
    assert(((v * (a * w)) as int) % m == (v as int) % m) by {
        lemma_mul_mod_noop_right(v as int, (a * w) as int, m);
    }
    assert(((w * (a * v)) as int) % m == (w as int) % m) by {
        lemma_mul_mod_noop_right(w as int, (a * v) as int, m);
    }
    assert(v * (a * w) == w * (a * v)) by (nonlinear_arith);
    lemma_small_mod(v, m as nat);
    lemma_small_mod(w, m as nat);
}

/// Adding one more term to a sum over `Seq::new`.
pub proof fn lemma_fsum_new_step(n: nat, f: spec_fn(int) -> nat)
    ensures
        fsum(Seq::new(n + 1, f)) == fadd(fsum(Seq::new(n, f)), f(n as int)),
{
    assert(Seq::new(n + 1, f).drop_last() =~= Seq::new(n, f));
}

/// Multiplying one more factor into a product over `Seq::new`.
pub proof fn lemma_fprod_new_step(n: nat, f: spec_fn(int) -> nat)
    ensures
        fprod(Seq::new(n + 1, f)) == fmul(fprod(Seq::new(n, f)), f(n as int)),
{
    assert(Seq::new(n + 1, f).drop_last() =~= Seq::new(n, f));
}

/// Sums over sequences that agree are equal.
pub proof fn lemma_fsum_ext(a: Seq<nat>, b: Seq<nat>)
    requires
        a.len() == b.len(),
        forall|i: int| 0 <= i < a.len() ==> a[i] == b[i],
    ensures
        fsum(a) == fsum(b),
{
    assert(a =~= b);
}

/// Products over sequences that agree are equal.
pub proof fn lemma_fprod_ext(a: Seq<nat>, b: Seq<nat>)
    requires
        a.len() == b.len(),
        forall|i: int| 0 <= i < a.len() ==> a[i] == b[i],
    ensures
        fprod(a) == fprod(b),
{
    assert(a =~= b);
}

/// Field addition is associative.
pub proof fn lemma_fadd_assoc(a: nat, b: nat, c: nat)
    ensures
        fadd(fadd(a, b), c) == fadd(a, fadd(b, c)),
{
    let m = modulus() as int;
    lemma_add_mod_noop_right(c as int, (a + b) as int, m);
    lemma_add_mod_noop_right(a as int, (b + c) as int, m);
}

/// Field multiplication by one leaves a field value unchanged.
pub proof fn lemma_fmul_one(a: nat)
    requires
        a < modulus(),
    ensures
        fmul(1, a) == a,
        fmul(a, 1) == a,
{
    lemma_small_mod(a, modulus());
}

/// Adding zero leaves a field value unchanged.
pub proof fn lemma_fadd_zero(a: nat)
    requires
        a < modulus(),
    ensures
        fadd(0, a) == a,
        fadd(a, 0) == a,
{
    lemma_small_mod(a, modulus());
}

/// The field operations, each taken modulo the order, compose like the integer
/// expression they stand for: `e * (a + (b - a) r)` and
/// `(e - r e) a + (r e) b` are the same field value.
#[verifier::spinoff_prover]
pub proof fn lemma_line_weight(e: nat, a: nat, b: nat, r: nat)
    ensures
        fmul(e, fadd(a, fmul(fsub(b, a), r))) == fadd(
            fmul(fsub(e, fmul(r, e)), a),
            fmul(fmul(r, e), b),
        ),
{
    let m = modulus() as int;
    let (ei, ai, bi, ri) = (e as int, a as int, b as int, r as int);
    // left side
    let d = (bi - ai) % m;
    assert(fsub(b, a) as int == d);
    lemma_mul_mod_noop_left(bi - ai, ri, m);
    assert(fmul(fsub(b, a), r) as int == ((bi - ai) * ri) % m);
    lemma_add_mod_noop_right(ai, (bi - ai) * ri, m);
    assert(fadd(a, fmul(fsub(b, a), r)) as int == (ai + (bi - ai) * ri) % m);
    lemma_mul_mod_noop_right(ei, ai + (bi - ai) * ri, m);
    assert(fmul(e, fadd(a, fmul(fsub(b, a), r))) as int == (ei * (ai + (bi - ai) * ri)) % m);
    // right side
    assert(fmul(r, e) as int == (ri * ei) % m);
    lemma_sub_mod_noop_right(ei, ri * ei, m);
    assert(fsub(e, fmul(r, e)) as int == (ei - ri * ei) % m);
    lemma_mul_mod_noop_left(ei - ri * ei, ai, m);
    assert(fmul(fsub(e, fmul(r, e)), a) as int == ((ei - ri * ei) * ai) % m);
    lemma_mul_mod_noop_left(ri * ei, bi, m);
    assert(fmul(fmul(r, e), b) as int == ((ri * ei) * bi) % m);
    lemma_add_mod_noop((ei - ri * ei) * ai, (ri * ei) * bi, m);
    assert(fadd(fmul(fsub(e, fmul(r, e)), a), fmul(fmul(r, e), b)) as int
        == ((ei - ri * ei) * ai + (ri * ei) * bi) % m);
    assert(ei * (ai + (bi - ai) * ri) == (ei - ri * ei) * ai + (ri * ei) * bi) by (nonlinear_arith);
}

/// A sum over `2n` terms is the sum over `n` pairs of neighbours.
pub proof fn lemma_fsum_pairs(n: nat, g: spec_fn(int) -> nat)
    ensures
        fsum(Seq::new(2 * n, g)) == fsum(Seq::new(n, |i: int| fadd(g(2 * i), g(2 * i + 1)))),
    decreases n,
{
    let h = |i: int| fadd(g(2 * i), g(2 * i + 1));
    if n == 0 {
        assert(Seq::new(0, g) =~= Seq::<nat>::empty());
        assert(Seq::new(0, h) =~= Seq::<nat>::empty());
    } else {
        let k = (n - 1) as nat;
        lemma_fsum_pairs(k, g);
        lemma_fsum_new_step(2 * k, g);
        lemma_fsum_new_step(2 * k + 1, g);
        lemma_fsum_new_step(k, h);
        assert(2 * k + 2 == 2 * n);
        lemma_fadd_assoc(fsum(Seq::new(2 * k, g)), g((2 * k) as int), g((2 * k + 1) as int));
    }
}

// ---------------------------------------------------------------------------
// Calls into ark_ff / ark_bls12_381 on canonical limbs.
// ---------------------------------------------------------------------------

/// `Fr` addition (`ark_ff`'s `Add` for `Fp`): the sum modulo the field order,
/// returned as canonical limbs by `into_bigint`.
#[verifier::external_body]
fn fr_add(a: [u64; 4], b: [u64; 4]) -> (r: [u64; 4])
    requires
        limbs_val(a) < modulus(),
        limbs_val(b) < modulus(),
    ensures
        limbs_val(r) == fadd(limbs_val(a), limbs_val(b)),
{
    let x = Fr::from_bigint(BigInt::new(a)).unwrap();
    let y = Fr::from_bigint(BigInt::new(b)).unwrap();
    (x + y).into_bigint().0
}

/// `Fr` subtraction (`ark_ff`'s `Sub` for `Fp`): the difference modulo the field
/// order, as canonical limbs.
#[verifier::external_body]
fn fr_sub(a: [u64; 4], b: [u64; 4]) -> (r: [u64; 4])
    requires
        limbs_val(a) < modulus(),
        limbs_val(b) < modulus(),
    ensures
        limbs_val(r) == fsub(limbs_val(a), limbs_val(b)),
{
    let x = Fr::from_bigint(BigInt::new(a)).unwrap();
    let y = Fr::from_bigint(BigInt::new(b)).unwrap();
    (x - y).into_bigint().0
}

/// `Fr` multiplication (`ark_ff`'s `Mul` for `Fp`): the product modulo the field
/// order, as canonical limbs.
#[verifier::external_body]
fn fr_mul(a: [u64; 4], b: [u64; 4]) -> (r: [u64; 4])
    requires
        limbs_val(a) < modulus(),
        limbs_val(b) < modulus(),
    ensures
        limbs_val(r) == fmul(limbs_val(a), limbs_val(b)),
{
    let x = Fr::from_bigint(BigInt::new(a)).unwrap();
    let y = Fr::from_bigint(BigInt::new(b)).unwrap();
    (x * y).into_bigint().0
}

/// `Field::inverse` of `Fr`: `None` for zero, otherwise the element whose product
/// with the input is one, as canonical limbs.
#[verifier::external_body]
fn fr_inverse(a: [u64; 4]) -> (r: Option<[u64; 4]>)
    requires
        limbs_val(a) < modulus(),
    ensures
        r is None <==> limbs_val(a) == 0,
        r matches Some(w) ==> is_inverse(limbs_val(a), limbs_val(w)),
{
    Fr::from_bigint(BigInt::new(a)).unwrap().inverse().map(|w| w.into_bigint().0)
}

/// `PrimeField::from_le_bytes_mod_order` of `Fr`: the little-endian number the
/// bytes spell, reduced modulo the field order, as canonical limbs.
#[verifier::external_body]
fn fr_from_le_bytes_mod_order(bytes: &[u8]) -> (r: [u64; 4])
    ensures
        limbs_val(r) == le_val(bytes@) % modulus(),
{
    Fr::from_le_bytes_mod_order(bytes).into_bigint().0
}

/// `CanonicalSerialize::serialize_compressed` of `Fr`: the 32 little-endian bytes
/// of the canonical value.
#[verifier::external_body]
fn fr_to_bytes(a: [u64; 4]) -> (r: Vec<u8>)
    requires
        limbs_val(a) < modulus(),
    ensures
        r@ == le_bytes(limbs_val(a), 32),
{
    let mut out = Vec::new();
    ark_serialize::CanonicalSerialize::serialize_compressed(
        &Fr::from_bigint(BigInt::new(a)).unwrap(),
        &mut out,
    ).unwrap();
    out
}

} // verus!
