//! A certificate that the order of the scalar field is prime: for the order and,
//! in turn, for every prime factor met below it, a generator whose powers are
//! checked by repeated squaring, and the factorization of the number less one.

use vstd::prelude::*;
use crate::field::modulus;
use crate::primality::{
    field_mod, iprod, lemma_field_2, lemma_iprod_next, lemma_lucas, lemma_mpow_first, lemma_mpow_mul, lemma_mpow_next, mpow,
};

verus! {

/// `2^2` modulo 3.
#[verifier::spinoff_prover]
proof fn lemma_pow_3_full()
    ensures
        mpow(2, 2, 3) == 1,
{
    lemma_mpow_first(2, 3);
    lemma_mpow_next(2, 1, 2, 0, 1, 3);
}

/// `2^1` modulo 3.
#[verifier::spinoff_prover]
proof fn lemma_pow_3_by_2()
    ensures
        mpow(2, 1, 3) == 2,
{
    lemma_mpow_first(2, 3);
}

/// Every nonzero residue modulo 3 is a unit, by Lucas's criterion with `2`.
#[verifier::spinoff_prover]
pub proof fn lemma_field_3()
    ensures
        field_mod(3),
{
    lemma_field_2();
    lemma_pow_3_full();
    lemma_pow_3_by_2();
    let fl = |i: int| 2nat;
    assert(iprod(0, fl) == 1);
    lemma_iprod_next(0, fl, 1, 2);
    assert forall|j: int| 0 <= j < 1 implies field_mod(#[trigger] fl(j)) && mpow(2, ((3 - 1) as nat / fl(j)) as nat, 3) != 1 by {
        {
            assert(fl(j) == 2);
            assert((3 - 1) as nat / 2 == 1);
        }
    }
    lemma_lucas(3, 2, fl, 1);
}

/// `2^4` modulo 5.
#[verifier::spinoff_prover]
proof fn lemma_pow_5_full()
    ensures
        mpow(2, 4, 5) == 1,
{
    lemma_mpow_first(2, 5);
    lemma_mpow_next(2, 1, 2, 0, 4, 5);
    lemma_mpow_next(2, 2, 4, 0, 1, 5);
}

/// `2^2` modulo 5.
#[verifier::spinoff_prover]
proof fn lemma_pow_5_by_2()
    ensures
        mpow(2, 2, 5) == 4,
{
    lemma_mpow_first(2, 5);
    lemma_mpow_next(2, 1, 2, 0, 4, 5);
}

/// Every nonzero residue modulo 5 is a unit, by Lucas's criterion with `2`.
#[verifier::spinoff_prover]
pub proof fn lemma_field_5()
    ensures
        field_mod(5),
{
    lemma_field_2();
    lemma_pow_5_full();
    lemma_pow_5_by_2();
    let fl = |i: int| 2nat;
    assert(iprod(0, fl) == 1);
    lemma_iprod_next(0, fl, 1, 2);
    lemma_iprod_next(1, fl, 2, 2);
    assert forall|j: int| 0 <= j < 2 implies field_mod(#[trigger] fl(j)) && mpow(2, ((5 - 1) as nat / fl(j)) as nat, 5) != 1 by {
        {
            assert(fl(j) == 2);
            assert((5 - 1) as nat / 2 == 2);
        }
    }
    lemma_lucas(5, 2, fl, 2);
}

/// `2^10` modulo 11.
#[verifier::spinoff_prover]
proof fn lemma_pow_11_full()
    ensures
        mpow(2, 10, 11) == 1,
{
    lemma_mpow_first(2, 11);
    lemma_mpow_next(2, 1, 2, 0, 4, 11);
    lemma_mpow_next(2, 2, 4, 1, 10, 11);
    lemma_mpow_next(2, 5, 10, 0, 1, 11);
}

/// `2^5` modulo 11.
#[verifier::spinoff_prover]
proof fn lemma_pow_11_by_2()
    ensures
        mpow(2, 5, 11) == 10,
{
    lemma_mpow_first(2, 11);
    lemma_mpow_next(2, 1, 2, 0, 4, 11);
    lemma_mpow_next(2, 2, 4, 1, 10, 11);
}

/// `2^2` modulo 11.
#[verifier::spinoff_prover]
proof fn lemma_pow_11_by_5()
    ensures
        mpow(2, 2, 11) == 4,
{
    lemma_mpow_first(2, 11);
    lemma_mpow_next(2, 1, 2, 0, 4, 11);
}

/// Every nonzero residue modulo 11 is a unit, by Lucas's criterion with `2`.
#[verifier::spinoff_prover]
pub proof fn lemma_field_11()
    ensures
        field_mod(11),
{
    lemma_field_2();
    lemma_field_5();
    lemma_pow_11_full();
    lemma_pow_11_by_2();
    lemma_pow_11_by_5();
    let fl = |i: int| if i < 1 { 2nat } else { 5nat };
    assert(iprod(0, fl) == 1);
    lemma_iprod_next(0, fl, 1, 2);
    lemma_iprod_next(1, fl, 2, 5);
    assert forall|j: int| 0 <= j < 2 implies field_mod(#[trigger] fl(j)) && mpow(2, ((11 - 1) as nat / fl(j)) as nat, 11) != 1 by {
        if j < 1 {
            assert(fl(j) == 2);
            assert((11 - 1) as nat / 2 == 5);
        } else {
            assert(fl(j) == 5);
            assert((11 - 1) as nat / 5 == 2);
        }
    }
    lemma_lucas(11, 2, fl, 2);
}

/// `2^18` modulo 19.
#[verifier::spinoff_prover]
proof fn lemma_pow_19_full()
    ensures
        mpow(2, 18, 19) == 1,
{
    lemma_mpow_first(2, 19);
    lemma_mpow_next(2, 1, 2, 0, 4, 19);
    lemma_mpow_next(2, 2, 4, 0, 16, 19);
    lemma_mpow_next(2, 4, 16, 1, 18, 19);
    lemma_mpow_next(2, 9, 18, 0, 1, 19);
}

/// `2^9` modulo 19.
#[verifier::spinoff_prover]
proof fn lemma_pow_19_by_2()
    ensures
        mpow(2, 9, 19) == 18,
{
    lemma_mpow_first(2, 19);
    lemma_mpow_next(2, 1, 2, 0, 4, 19);
    lemma_mpow_next(2, 2, 4, 0, 16, 19);
    lemma_mpow_next(2, 4, 16, 1, 18, 19);
}

/// `2^6` modulo 19.
#[verifier::spinoff_prover]
proof fn lemma_pow_19_by_3()
    ensures
        mpow(2, 6, 19) == 7,
{
    lemma_mpow_first(2, 19);
    lemma_mpow_next(2, 1, 2, 1, 8, 19);
    lemma_mpow_next(2, 3, 8, 0, 7, 19);
}

/// Every nonzero residue modulo 19 is a unit, by Lucas's criterion with `2`.
#[verifier::spinoff_prover]
pub proof fn lemma_field_19()
    ensures
        field_mod(19),
{
    lemma_field_2();
    lemma_field_3();
    lemma_pow_19_full();
    lemma_pow_19_by_2();
    lemma_pow_19_by_3();
    let fl = |i: int| if i < 1 { 2nat } else { 3nat };
    assert(iprod(0, fl) == 1);
    lemma_iprod_next(0, fl, 1, 2);
    lemma_iprod_next(1, fl, 2, 3);
    lemma_iprod_next(2, fl, 6, 3);
    assert forall|j: int| 0 <= j < 3 implies field_mod(#[trigger] fl(j)) && mpow(2, ((19 - 1) as nat / fl(j)) as nat, 19) != 1 by {
        if j < 1 {
            assert(fl(j) == 2);
            assert((19 - 1) as nat / 2 == 9);
        } else {
            assert(fl(j) == 3);
            assert((19 - 1) as nat / 3 == 6);
        }
    }
    lemma_lucas(19, 2, fl, 3);
}

/// `2^12` modulo 13.
#[verifier::spinoff_prover]
proof fn lemma_pow_13_full()
    ensures
        mpow(2, 12, 13) == 1,
{
    lemma_mpow_first(2, 13);
    lemma_mpow_next(2, 1, 2, 1, 8, 13);
    lemma_mpow_next(2, 3, 8, 0, 12, 13);
    lemma_mpow_next(2, 6, 12, 0, 1, 13);
}

/// `2^6` modulo 13.
#[verifier::spinoff_prover]
proof fn lemma_pow_13_by_2()
    ensures
        mpow(2, 6, 13) == 12,
{
    lemma_mpow_first(2, 13);
    lemma_mpow_next(2, 1, 2, 1, 8, 13);
    lemma_mpow_next(2, 3, 8, 0, 12, 13);
}

/// `2^4` modulo 13.
#[verifier::spinoff_prover]
proof fn lemma_pow_13_by_3()
    ensures
        mpow(2, 4, 13) == 3,
{
    lemma_mpow_first(2, 13);
    lemma_mpow_next(2, 1, 2, 0, 4, 13);
    lemma_mpow_next(2, 2, 4, 0, 3, 13);
}

/// Every nonzero residue modulo 13 is a unit, by Lucas's criterion with `2`.
#[verifier::spinoff_prover]
pub proof fn lemma_field_13()
    ensures
        field_mod(13),
{
    lemma_field_2();
    lemma_field_3();
    lemma_pow_13_full();
    lemma_pow_13_by_2();
    lemma_pow_13_by_3();
    let fl = |i: int| if i < 2 { 2nat } else { 3nat };
    assert(iprod(0, fl) == 1);
    lemma_iprod_next(0, fl, 1, 2);
    lemma_iprod_next(1, fl, 2, 2);
    lemma_iprod_next(2, fl, 4, 3);
    assert forall|j: int| 0 <= j < 3 implies field_mod(#[trigger] fl(j)) && mpow(2, ((13 - 1) as nat / fl(j)) as nat, 13) != 1 by {
        if j < 2 {
            assert(fl(j) == 2);
            assert((13 - 1) as nat / 2 == 6);
        } else {
            assert(fl(j) == 3);
            assert((13 - 1) as nat / 3 == 4);
        }
    }
    lemma_lucas(13, 2, fl, 3);
}

/// `2^52` modulo 53.
#[verifier::spinoff_prover]
proof fn lemma_pow_53_full()
    ensures
        mpow(2, 52, 53) == 1,
{
    lemma_mpow_first(2, 53);
    lemma_mpow_next(2, 1, 2, 1, 8, 53);
    lemma_mpow_next(2, 3, 8, 0, 11, 53);
    lemma_mpow_next(2, 6, 11, 1, 30, 53);
    lemma_mpow_next(2, 13, 30, 0, 52, 53);
    lemma_mpow_next(2, 26, 52, 0, 1, 53);
}

/// `2^26` modulo 53.
#[verifier::spinoff_prover]
proof fn lemma_pow_53_by_2()
    ensures
        mpow(2, 26, 53) == 52,
{
    lemma_mpow_first(2, 53);
    lemma_mpow_next(2, 1, 2, 1, 8, 53);
    lemma_mpow_next(2, 3, 8, 0, 11, 53);
    lemma_mpow_next(2, 6, 11, 1, 30, 53);
    lemma_mpow_next(2, 13, 30, 0, 52, 53);
}

/// `2^4` modulo 53.
#[verifier::spinoff_prover]
proof fn lemma_pow_53_by_13()
    ensures
        mpow(2, 4, 53) == 16,
{
    lemma_mpow_first(2, 53);
    lemma_mpow_next(2, 1, 2, 0, 4, 53);
    lemma_mpow_next(2, 2, 4, 0, 16, 53);
}

/// Every nonzero residue modulo 53 is a unit, by Lucas's criterion with `2`.
#[verifier::spinoff_prover]
pub proof fn lemma_field_53()
    ensures
        field_mod(53),
{
    lemma_field_2();
    lemma_field_13();
    lemma_pow_53_full();
    lemma_pow_53_by_2();
    lemma_pow_53_by_13();
    let fl = |i: int| if i < 2 { 2nat } else { 13nat };
    assert(iprod(0, fl) == 1);
    lemma_iprod_next(0, fl, 1, 2);
    lemma_iprod_next(1, fl, 2, 2);
    lemma_iprod_next(2, fl, 4, 13);
    assert forall|j: int| 0 <= j < 3 implies field_mod(#[trigger] fl(j)) && mpow(2, ((53 - 1) as nat / fl(j)) as nat, 53) != 1 by {
        if j < 2 {
            assert(fl(j) == 2);
            assert((53 - 1) as nat / 2 == 26);
        } else {
            assert(fl(j) == 13);
            assert((53 - 1) as nat / 13 == 4);
        }
    }
    lemma_lucas(53, 2, fl, 3);
}

/// `7^10176` modulo 10177.
#[verifier::spinoff_prover]
proof fn lemma_pow_10177_full()
    ensures
        mpow(7, 10176, 10177) == 1,
{
    lemma_mpow_first(7, 10177);
    lemma_mpow_next(7, 1, 7, 0, 49, 10177);
    lemma_mpow_next(7, 2, 49, 0, 2401, 10177);
    lemma_mpow_next(7, 4, 2401, 1, 1802, 10177);
    lemma_mpow_next(7, 9, 1802, 1, 5187, 10177);
    lemma_mpow_next(7, 19, 5187, 1, 9398, 10177);
    lemma_mpow_next(7, 39, 9398, 1, 4078, 10177);
    lemma_mpow_next(7, 79, 4078, 1, 6062, 10177);
    lemma_mpow_next(7, 159, 6062, 0, 8874, 10177);
    lemma_mpow_next(7, 318, 8874, 0, 8427, 10177);
    lemma_mpow_next(7, 636, 8427, 0, 9400, 10177);
    lemma_mpow_next(7, 1272, 9400, 0, 3286, 10177);
    lemma_mpow_next(7, 2544, 3286, 0, 10176, 10177);
    lemma_mpow_next(7, 5088, 10176, 0, 1, 10177);
}

/// `7^5088` modulo 10177.
#[verifier::spinoff_prover]
proof fn lemma_pow_10177_by_2()
    ensures
        mpow(7, 5088, 10177) == 10176,
{
    lemma_mpow_first(7, 10177);
    lemma_mpow_next(7, 1, 7, 0, 49, 10177);
    lemma_mpow_next(7, 2, 49, 0, 2401, 10177);
    lemma_mpow_next(7, 4, 2401, 1, 1802, 10177);
    lemma_mpow_next(7, 9, 1802, 1, 5187, 10177);
    lemma_mpow_next(7, 19, 5187, 1, 9398, 10177);
    lemma_mpow_next(7, 39, 9398, 1, 4078, 10177);
    lemma_mpow_next(7, 79, 4078, 1, 6062, 10177);
    lemma_mpow_next(7, 159, 6062, 0, 8874, 10177);
    lemma_mpow_next(7, 318, 8874, 0, 8427, 10177);
    lemma_mpow_next(7, 636, 8427, 0, 9400, 10177);
    lemma_mpow_next(7, 1272, 9400, 0, 3286, 10177);
    lemma_mpow_next(7, 2544, 3286, 0, 10176, 10177);
}

/// `7^3392` modulo 10177.
#[verifier::spinoff_prover]
proof fn lemma_pow_10177_by_3()
    ensures
        mpow(7, 3392, 10177) == 4773,
{
    lemma_mpow_first(7, 10177);
    lemma_mpow_next(7, 1, 7, 1, 343, 10177);
    lemma_mpow_next(7, 3, 343, 0, 5702, 10177);
    lemma_mpow_next(7, 6, 5702, 1, 1377, 10177);
    lemma_mpow_next(7, 13, 1377, 0, 3207, 10177);
    lemma_mpow_next(7, 26, 3207, 1, 1845, 10177);
    lemma_mpow_next(7, 53, 1845, 0, 4907, 10177);
    lemma_mpow_next(7, 106, 4907, 0, 10044, 10177);
    lemma_mpow_next(7, 212, 10044, 0, 7512, 10177);
    lemma_mpow_next(7, 424, 7512, 0, 8856, 10177);
    lemma_mpow_next(7, 848, 8856, 0, 4774, 10177);
    lemma_mpow_next(7, 1696, 4774, 0, 4773, 10177);
}

/// `7^192` modulo 10177.
#[verifier::spinoff_prover]
proof fn lemma_pow_10177_by_53()
    ensures
        mpow(7, 192, 10177) == 3616,
{
    lemma_mpow_first(7, 10177);
    lemma_mpow_next(7, 1, 7, 1, 343, 10177);
    lemma_mpow_next(7, 3, 343, 0, 5702, 10177);
    lemma_mpow_next(7, 6, 5702, 0, 7466, 10177);
    lemma_mpow_next(7, 12, 7466, 0, 1727, 10177);
    lemma_mpow_next(7, 24, 1727, 0, 668, 10177);
    lemma_mpow_next(7, 48, 668, 0, 8613, 10177);
    lemma_mpow_next(7, 96, 8613, 0, 3616, 10177);
}

/// Every nonzero residue modulo 10177 is a unit, by Lucas's criterion with `7`.
#[verifier::spinoff_prover]
pub proof fn lemma_field_10177()
    ensures
        field_mod(10177),
{
    lemma_field_2();
    lemma_field_3();
    lemma_field_53();
    lemma_pow_10177_full();
    lemma_pow_10177_by_2();
    lemma_pow_10177_by_3();
    lemma_pow_10177_by_53();
    let fl = |i: int| if i < 6 { 2nat } else if i < 7 { 3nat } else { 53nat };
    assert(iprod(0, fl) == 1);
    lemma_iprod_next(0, fl, 1, 2);
    lemma_iprod_next(1, fl, 2, 2);
    lemma_iprod_next(2, fl, 4, 2);
    lemma_iprod_next(3, fl, 8, 2);
    lemma_iprod_next(4, fl, 16, 2);
    lemma_iprod_next(5, fl, 32, 2);
    lemma_iprod_next(6, fl, 64, 3);
    lemma_iprod_next(7, fl, 192, 53);
    assert forall|j: int| 0 <= j < 8 implies field_mod(#[trigger] fl(j)) && mpow(7, ((10177 - 1) as nat / fl(j)) as nat, 10177) != 1 by {
        if j < 6 {
            assert(fl(j) == 2);
            assert((10177 - 1) as nat / 2 == 5088);
        } else if j < 7 {
            assert(fl(j) == 3);
            assert((10177 - 1) as nat / 3 == 3392);
        } else {
            assert(fl(j) == 53);
            assert((10177 - 1) as nat / 53 == 192);
        }
    }
    lemma_lucas(10177, 7, fl, 8);
}

/// `3^6` modulo 7.
#[verifier::spinoff_prover]
proof fn lemma_pow_7_full()
    ensures
        mpow(3, 6, 7) == 1,
{
    lemma_mpow_first(3, 7);
    lemma_mpow_next(3, 1, 3, 1, 6, 7);
    lemma_mpow_next(3, 3, 6, 0, 1, 7);
}

/// `3^3` modulo 7.
#[verifier::spinoff_prover]
proof fn lemma_pow_7_by_2()
    ensures
        mpow(3, 3, 7) == 6,
{
    lemma_mpow_first(3, 7);
    lemma_mpow_next(3, 1, 3, 1, 6, 7);
}

/// `3^2` modulo 7.
#[verifier::spinoff_prover]
proof fn lemma_pow_7_by_3()
    ensures
        mpow(3, 2, 7) == 2,
{
    lemma_mpow_first(3, 7);
    lemma_mpow_next(3, 1, 3, 0, 2, 7);
}

/// Every nonzero residue modulo 7 is a unit, by Lucas's criterion with `3`.
#[verifier::spinoff_prover]
pub proof fn lemma_field_7()
    ensures
        field_mod(7),
{
    lemma_field_2();
    lemma_field_3();
    lemma_pow_7_full();
    lemma_pow_7_by_2();
    lemma_pow_7_by_3();
    let fl = |i: int| if i < 1 { 2nat } else { 3nat };
    assert(iprod(0, fl) == 1);
    lemma_iprod_next(0, fl, 1, 2);
    lemma_iprod_next(1, fl, 2, 3);
    assert forall|j: int| 0 <= j < 2 implies field_mod(#[trigger] fl(j)) && mpow(3, ((7 - 1) as nat / fl(j)) as nat, 7) != 1 by {
        if j < 1 {
            assert(fl(j) == 2);
            assert((7 - 1) as nat / 2 == 3);
        } else {
            assert(fl(j) == 3);
            assert((7 - 1) as nat / 3 == 2);
        }
    }
    lemma_lucas(7, 3, fl, 2);
}

/// `2^28` modulo 29.
#[verifier::spinoff_prover]
proof fn lemma_pow_29_full()
    ensures
        mpow(2, 28, 29) == 1,
{
    lemma_mpow_first(2, 29);
    lemma_mpow_next(2, 1, 2, 1, 8, 29);
    lemma_mpow_next(2, 3, 8, 1, 12, 29);
    lemma_mpow_next(2, 7, 12, 0, 28, 29);
    lemma_mpow_next(2, 14, 28, 0, 1, 29);
}

/// `2^14` modulo 29.
#[verifier::spinoff_prover]
proof fn lemma_pow_29_by_2()
    ensures
        mpow(2, 14, 29) == 28,
{
    lemma_mpow_first(2, 29);
    lemma_mpow_next(2, 1, 2, 1, 8, 29);
    lemma_mpow_next(2, 3, 8, 1, 12, 29);
    lemma_mpow_next(2, 7, 12, 0, 28, 29);
}

/// `2^4` modulo 29.
#[verifier::spinoff_prover]
proof fn lemma_pow_29_by_7()
    ensures
        mpow(2, 4, 29) == 16,
{
    lemma_mpow_first(2, 29);
    lemma_mpow_next(2, 1, 2, 0, 4, 29);
    lemma_mpow_next(2, 2, 4, 0, 16, 29);
}

/// Every nonzero residue modulo 29 is a unit, by Lucas's criterion with `2`.
#[verifier::spinoff_prover]
pub proof fn lemma_field_29()
    ensures
        field_mod(29),
{
    lemma_field_2();
    lemma_field_7();
    lemma_pow_29_full();
    lemma_pow_29_by_2();
    lemma_pow_29_by_7();
    let fl = |i: int| if i < 2 { 2nat } else { 7nat };
    assert(iprod(0, fl) == 1);
    lemma_iprod_next(0, fl, 1, 2);
    lemma_iprod_next(1, fl, 2, 2);
    lemma_iprod_next(2, fl, 4, 7);
    assert forall|j: int| 0 <= j < 3 implies field_mod(#[trigger] fl(j)) && mpow(2, ((29 - 1) as nat / fl(j)) as nat, 29) != 1 by {
        if j < 2 {
            assert(fl(j) == 2);
            assert((29 - 1) as nat / 2 == 14);
        } else {
            assert(fl(j) == 7);
            assert((29 - 1) as nat / 7 == 4);
        }
    }
    lemma_lucas(29, 2, fl, 3);
}

/// `2^522` modulo 523.
#[verifier::spinoff_prover]
proof fn lemma_pow_523_full()
    ensures
        mpow(2, 522, 523) == 1,
{
    lemma_mpow_first(2, 523);
    lemma_mpow_next(2, 1, 2, 0, 4, 523);
    lemma_mpow_next(2, 2, 4, 0, 16, 523);
    lemma_mpow_next(2, 4, 16, 0, 256, 523);
    lemma_mpow_next(2, 8, 256, 0, 161, 523);
    lemma_mpow_next(2, 16, 161, 0, 294, 523);
    lemma_mpow_next(2, 32, 294, 1, 282, 523);
    lemma_mpow_next(2, 65, 282, 0, 28, 523);
    lemma_mpow_next(2, 130, 28, 1, 522, 523);
    lemma_mpow_next(2, 261, 522, 0, 1, 523);
}

/// `2^261` modulo 523.
#[verifier::spinoff_prover]
proof fn lemma_pow_523_by_2()
    ensures
        mpow(2, 261, 523) == 522,
{
    lemma_mpow_first(2, 523);
    lemma_mpow_next(2, 1, 2, 0, 4, 523);
    lemma_mpow_next(2, 2, 4, 0, 16, 523);
    lemma_mpow_next(2, 4, 16, 0, 256, 523);
    lemma_mpow_next(2, 8, 256, 0, 161, 523);
    lemma_mpow_next(2, 16, 161, 0, 294, 523);
    lemma_mpow_next(2, 32, 294, 1, 282, 523);
    lemma_mpow_next(2, 65, 282, 0, 28, 523);
    lemma_mpow_next(2, 130, 28, 1, 522, 523);
}

/// `2^174` modulo 523.
#[verifier::spinoff_prover]
proof fn lemma_pow_523_by_3()
    ensures
        mpow(2, 174, 523) == 462,
{
    lemma_mpow_first(2, 523);
    lemma_mpow_next(2, 1, 2, 0, 4, 523);
    lemma_mpow_next(2, 2, 4, 1, 32, 523);
    lemma_mpow_next(2, 5, 32, 0, 501, 523);
    lemma_mpow_next(2, 10, 501, 1, 445, 523);
    lemma_mpow_next(2, 21, 445, 1, 139, 523);
    lemma_mpow_next(2, 43, 139, 1, 463, 523);
    lemma_mpow_next(2, 87, 463, 0, 462, 523);
}

/// `2^18` modulo 523.
#[verifier::spinoff_prover]
proof fn lemma_pow_523_by_29()
    ensures
        mpow(2, 18, 523) == 121,
{
    lemma_mpow_first(2, 523);
    lemma_mpow_next(2, 1, 2, 0, 4, 523);
    lemma_mpow_next(2, 2, 4, 0, 16, 523);
    lemma_mpow_next(2, 4, 16, 1, 512, 523);
    lemma_mpow_next(2, 9, 512, 0, 121, 523);
}

/// Every nonzero residue modulo 523 is a unit, by Lucas's criterion with `2`.
#[verifier::spinoff_prover]
pub proof fn lemma_field_523()
    ensures
        field_mod(523),
{
    lemma_field_2();
    lemma_field_3();
    lemma_field_29();
    lemma_pow_523_full();
    lemma_pow_523_by_2();
    lemma_pow_523_by_3();
    lemma_pow_523_by_29();
    let fl = |i: int| if i < 1 { 2nat } else if i < 3 { 3nat } else { 29nat };
    assert(iprod(0, fl) == 1);
    lemma_iprod_next(0, fl, 1, 2);
    lemma_iprod_next(1, fl, 2, 3);
    lemma_iprod_next(2, fl, 6, 3);
    lemma_iprod_next(3, fl, 18, 29);
    assert forall|j: int| 0 <= j < 4 implies field_mod(#[trigger] fl(j)) && mpow(2, ((523 - 1) as nat / fl(j)) as nat, 523) != 1 by {
        if j < 1 {
            assert(fl(j) == 2);
            assert((523 - 1) as nat / 2 == 261);
        } else if j < 3 {
            assert(fl(j) == 3);
            assert((523 - 1) as nat / 3 == 174);
        } else {
            assert(fl(j) == 29);
            assert((523 - 1) as nat / 29 == 18);
        }
    }
    lemma_lucas(523, 2, fl, 4);
}

/// `3^20920` modulo 20921.
#[verifier::spinoff_prover]
proof fn lemma_pow_20921_full()
    ensures
        mpow(3, 20920, 20921) == 1,
{
    lemma_mpow_first(3, 20921);
    lemma_mpow_next(3, 1, 3, 0, 9, 20921);
    lemma_mpow_next(3, 2, 9, 1, 243, 20921);
    lemma_mpow_next(3, 5, 243, 0, 17207, 20921);
    lemma_mpow_next(3, 10, 17207, 0, 6857, 20921);
    lemma_mpow_next(3, 20, 6857, 0, 8962, 20921);
    lemma_mpow_next(3, 40, 8962, 1, 5175, 20921);
    lemma_mpow_next(3, 81, 5175, 1, 5235, 20921);
    lemma_mpow_next(3, 163, 5235, 0, 19636, 20921);
    lemma_mpow_next(3, 326, 19636, 1, 16319, 20921);
    lemma_mpow_next(3, 653, 16319, 1, 19056, 20921);
    lemma_mpow_next(3, 1307, 19056, 1, 16017, 20921);
    lemma_mpow_next(3, 2615, 16017, 0, 10987, 20921);
    lemma_mpow_next(3, 5230, 10987, 0, 20920, 20921);
    lemma_mpow_next(3, 10460, 20920, 0, 1, 20921);
}

/// `3^10460` modulo 20921.
#[verifier::spinoff_prover]
proof fn lemma_pow_20921_by_2()
    ensures
        mpow(3, 10460, 20921) == 20920,
{
    lemma_mpow_first(3, 20921);
    lemma_mpow_next(3, 1, 3, 0, 9, 20921);
    lemma_mpow_next(3, 2, 9, 1, 243, 20921);
    lemma_mpow_next(3, 5, 243, 0, 17207, 20921);
    lemma_mpow_next(3, 10, 17207, 0, 6857, 20921);
    lemma_mpow_next(3, 20, 6857, 0, 8962, 20921);
    lemma_mpow_next(3, 40, 8962, 1, 5175, 20921);
    lemma_mpow_next(3, 81, 5175, 1, 5235, 20921);
    lemma_mpow_next(3, 163, 5235, 0, 19636, 20921);
    lemma_mpow_next(3, 326, 19636, 1, 16319, 20921);
    lemma_mpow_next(3, 653, 16319, 1, 19056, 20921);
    lemma_mpow_next(3, 1307, 19056, 1, 16017, 20921);
    lemma_mpow_next(3, 2615, 16017, 0, 10987, 20921);
    lemma_mpow_next(3, 5230, 10987, 0, 20920, 20921);
}

/// `3^4184` modulo 20921.
#[verifier::spinoff_prover]
proof fn lemma_pow_20921_by_5()
    ensures
        mpow(3, 4184, 20921) == 5152,
{
    lemma_mpow_first(3, 20921);
    lemma_mpow_next(3, 1, 3, 0, 9, 20921);
    lemma_mpow_next(3, 2, 9, 0, 81, 20921);
    lemma_mpow_next(3, 4, 81, 0, 6561, 20921);
    lemma_mpow_next(3, 8, 6561, 0, 12224, 20921);
    lemma_mpow_next(3, 16, 12224, 0, 8394, 20921);
    lemma_mpow_next(3, 32, 8394, 1, 12845, 20921);
    lemma_mpow_next(3, 65, 12845, 0, 11019, 20921);
    lemma_mpow_next(3, 130, 11019, 1, 20473, 20921);
    lemma_mpow_next(3, 261, 20473, 1, 16324, 20921);
    lemma_mpow_next(3, 523, 16324, 0, 2199, 20921);
    lemma_mpow_next(3, 1046, 2199, 0, 2850, 20921);
    lemma_mpow_next(3, 2092, 2850, 0, 5152, 20921);
}

/// `3^40` modulo 20921.
#[verifier::spinoff_prover]
proof fn lemma_pow_20921_by_523()
    ensures
        mpow(3, 40, 20921) == 8962,
{
    lemma_mpow_first(3, 20921);
    lemma_mpow_next(3, 1, 3, 0, 9, 20921);
    lemma_mpow_next(3, 2, 9, 1, 243, 20921);
    lemma_mpow_next(3, 5, 243, 0, 17207, 20921);
    lemma_mpow_next(3, 10, 17207, 0, 6857, 20921);
    lemma_mpow_next(3, 20, 6857, 0, 8962, 20921);
}

/// Every nonzero residue modulo 20921 is a unit, by Lucas's criterion with `3`.
#[verifier::spinoff_prover]
pub proof fn lemma_field_20921()
    ensures
        field_mod(20921),
{
    lemma_field_2();
    lemma_field_5();
    lemma_field_523();
    lemma_pow_20921_full();
    lemma_pow_20921_by_2();
    lemma_pow_20921_by_5();
    lemma_pow_20921_by_523();
    let fl = |i: int| if i < 3 { 2nat } else if i < 4 { 5nat } else { 523nat };
    assert(iprod(0, fl) == 1);
    lemma_iprod_next(0, fl, 1, 2);
    lemma_iprod_next(1, fl, 2, 2);
    lemma_iprod_next(2, fl, 4, 2);
    lemma_iprod_next(3, fl, 8, 5);
    lemma_iprod_next(4, fl, 40, 523);
    assert forall|j: int| 0 <= j < 5 implies field_mod(#[trigger] fl(j)) && mpow(3, ((20921 - 1) as nat / fl(j)) as nat, 20921) != 1 by {
        if j < 3 {
            assert(fl(j) == 2);
            assert((20921 - 1) as nat / 2 == 10460);
        } else if j < 4 {
            assert(fl(j) == 5);
            assert((20921 - 1) as nat / 5 == 4184);
        } else {
            assert(fl(j) == 523);
            assert((20921 - 1) as nat / 523 == 40);
        }
    }
    lemma_lucas(20921, 3, fl, 5);
}

/// `5^125526` modulo 125527.
#[verifier::spinoff_prover]
proof fn lemma_pow_125527_full()
    ensures
        mpow(5, 125526, 125527) == 1,
{
    lemma_mpow_first(5, 125527);
    lemma_mpow_next(5, 1, 5, 1, 125, 125527);
    lemma_mpow_next(5, 3, 125, 1, 78125, 125527);
    lemma_mpow_next(5, 7, 78125, 1, 81520, 125527);
    lemma_mpow_next(5, 15, 81520, 0, 111020, 125527);
    lemma_mpow_next(5, 30, 111020, 1, 97931, 125527);
    lemma_mpow_next(5, 61, 97931, 0, 92434, 125527);
    lemma_mpow_next(5, 122, 92434, 1, 119978, 125527);
    lemma_mpow_next(5, 245, 119978, 0, 37286, 125527);
    lemma_mpow_next(5, 490, 37286, 0, 34271, 125527);
    lemma_mpow_next(5, 980, 34271, 1, 103091, 125527);
    lemma_mpow_next(5, 1961, 103091, 0, 10826, 125527);
    lemma_mpow_next(5, 3922, 10826, 1, 51344, 125527);
    lemma_mpow_next(5, 7845, 51344, 0, 13809, 125527);
    lemma_mpow_next(5, 15690, 13809, 1, 64840, 125527);
    lemma_mpow_next(5, 31381, 64840, 1, 125526, 125527);
    lemma_mpow_next(5, 62763, 125526, 0, 1, 125527);
}

/// `5^62763` modulo 125527.
#[verifier::spinoff_prover]
proof fn lemma_pow_125527_by_2()
    ensures
        mpow(5, 62763, 125527) == 125526,
{
    lemma_mpow_first(5, 125527);
    lemma_mpow_next(5, 1, 5, 1, 125, 125527);
    lemma_mpow_next(5, 3, 125, 1, 78125, 125527);
    lemma_mpow_next(5, 7, 78125, 1, 81520, 125527);
    lemma_mpow_next(5, 15, 81520, 0, 111020, 125527);
    lemma_mpow_next(5, 30, 111020, 1, 97931, 125527);
    lemma_mpow_next(5, 61, 97931, 0, 92434, 125527);
    lemma_mpow_next(5, 122, 92434, 1, 119978, 125527);
    lemma_mpow_next(5, 245, 119978, 0, 37286, 125527);
    lemma_mpow_next(5, 490, 37286, 0, 34271, 125527);
    lemma_mpow_next(5, 980, 34271, 1, 103091, 125527);
    lemma_mpow_next(5, 1961, 103091, 0, 10826, 125527);
    lemma_mpow_next(5, 3922, 10826, 1, 51344, 125527);
    lemma_mpow_next(5, 7845, 51344, 0, 13809, 125527);
    lemma_mpow_next(5, 15690, 13809, 1, 64840, 125527);
    lemma_mpow_next(5, 31381, 64840, 1, 125526, 125527);
}

/// `5^41842` modulo 125527.
#[verifier::spinoff_prover]
proof fn lemma_pow_125527_by_3()
    ensures
        mpow(5, 41842, 125527) == 5361,
{
    lemma_mpow_first(5, 125527);
    lemma_mpow_next(5, 1, 5, 0, 25, 125527);
    lemma_mpow_next(5, 2, 25, 1, 3125, 125527);
    lemma_mpow_next(5, 5, 3125, 0, 100046, 125527);
    lemma_mpow_next(5, 10, 100046, 0, 55717, 125527);
    lemma_mpow_next(5, 20, 55717, 0, 101379, 125527);
    lemma_mpow_next(5, 40, 101379, 1, 13891, 125527);
    lemma_mpow_next(5, 81, 13891, 1, 124410, 125527);
    lemma_mpow_next(5, 163, 124410, 0, 117946, 125527);
    lemma_mpow_next(5, 326, 117946, 1, 26502, 125527);
    lemma_mpow_next(5, 653, 26502, 1, 36668, 125527);
    lemma_mpow_next(5, 1307, 36668, 1, 112635, 125527);
    lemma_mpow_next(5, 2615, 112635, 0, 5916, 125527);
    lemma_mpow_next(5, 5230, 5916, 0, 102550, 125527);
    lemma_mpow_next(5, 10460, 102550, 1, 5362, 125527);
    lemma_mpow_next(5, 20921, 5362, 0, 5361, 125527);
}

/// `5^6` modulo 125527.
#[verifier::spinoff_prover]
proof fn lemma_pow_125527_by_20921()
    ensures
        mpow(5, 6, 125527) == 15625,
{
    lemma_mpow_first(5, 125527);
    lemma_mpow_next(5, 1, 5, 1, 125, 125527);
    lemma_mpow_next(5, 3, 125, 0, 15625, 125527);
}

/// Every nonzero residue modulo 125527 is a unit, by Lucas's criterion with `5`.
#[verifier::spinoff_prover]
pub proof fn lemma_field_125527()
    ensures
        field_mod(125527),
{
    lemma_field_2();
    lemma_field_3();
    lemma_field_20921();
    lemma_pow_125527_full();
    lemma_pow_125527_by_2();
    lemma_pow_125527_by_3();
    lemma_pow_125527_by_20921();
    let fl = |i: int| if i < 1 { 2nat } else if i < 2 { 3nat } else { 20921nat };
    assert(iprod(0, fl) == 1);
    lemma_iprod_next(0, fl, 1, 2);
    lemma_iprod_next(1, fl, 2, 3);
    lemma_iprod_next(2, fl, 6, 20921);
    assert forall|j: int| 0 <= j < 3 implies field_mod(#[trigger] fl(j)) && mpow(5, ((125527 - 1) as nat / fl(j)) as nat, 125527) != 1 by {
        if j < 1 {
            assert(fl(j) == 2);
            assert((125527 - 1) as nat / 2 == 62763);
        } else if j < 2 {
            assert(fl(j) == 3);
            assert((125527 - 1) as nat / 3 == 41842);
        } else {
            assert(fl(j) == 20921);
            assert((125527 - 1) as nat / 20921 == 6);
        }
    }
    lemma_lucas(125527, 5, fl, 3);
}

/// `3^16` modulo 17.
#[verifier::spinoff_prover]
proof fn lemma_pow_17_full()
    ensures
        mpow(3, 16, 17) == 1,
{
    lemma_mpow_first(3, 17);
    lemma_mpow_next(3, 1, 3, 0, 9, 17);
    lemma_mpow_next(3, 2, 9, 0, 13, 17);
    lemma_mpow_next(3, 4, 13, 0, 16, 17);
    lemma_mpow_next(3, 8, 16, 0, 1, 17);
}

/// `3^8` modulo 17.
#[verifier::spinoff_prover]
proof fn lemma_pow_17_by_2()
    ensures
        mpow(3, 8, 17) == 16,
{
    lemma_mpow_first(3, 17);
    lemma_mpow_next(3, 1, 3, 0, 9, 17);
    lemma_mpow_next(3, 2, 9, 0, 13, 17);
    lemma_mpow_next(3, 4, 13, 0, 16, 17);
}

/// Every nonzero residue modulo 17 is a unit, by Lucas's criterion with `3`.
#[verifier::spinoff_prover]
pub proof fn lemma_field_17()
    ensures
        field_mod(17),
{
    lemma_field_2();
    lemma_pow_17_full();
    lemma_pow_17_by_2();
    let fl = |i: int| 2nat;
    assert(iprod(0, fl) == 1);
    lemma_iprod_next(0, fl, 1, 2);
    lemma_iprod_next(1, fl, 2, 2);
    lemma_iprod_next(2, fl, 4, 2);
    lemma_iprod_next(3, fl, 8, 2);
    assert forall|j: int| 0 <= j < 4 implies field_mod(#[trigger] fl(j)) && mpow(3, ((17 - 1) as nat / fl(j)) as nat, 17) != 1 by {
        {
            assert(fl(j) == 2);
            assert((17 - 1) as nat / 2 == 8);
        }
    }
    lemma_lucas(17, 3, fl, 4);
}

/// `5^47736` modulo 47737.
#[verifier::spinoff_prover]
proof fn lemma_pow_47737_full()
    ensures
        mpow(5, 47736, 47737) == 1,
{
    lemma_mpow_first(5, 47737);
    lemma_mpow_next(5, 1, 5, 0, 25, 47737);
    lemma_mpow_next(5, 2, 25, 1, 3125, 47737);
    lemma_mpow_next(5, 5, 3125, 1, 40911, 47737);
    lemma_mpow_next(5, 11, 40911, 1, 14820, 47737);
    lemma_mpow_next(5, 23, 14820, 0, 42200, 47737);
    lemma_mpow_next(5, 46, 42200, 1, 8338, 47737);
    lemma_mpow_next(5, 93, 8338, 0, 17172, 47737);
    lemma_mpow_next(5, 186, 17172, 0, 6135, 47737);
    lemma_mpow_next(5, 372, 6135, 1, 11871, 47737);
    lemma_mpow_next(5, 745, 11871, 1, 5085, 47737);
    lemma_mpow_next(5, 1491, 5085, 1, 14329, 47737);
    lemma_mpow_next(5, 2983, 14329, 1, 17020, 47737);
    lemma_mpow_next(5, 5967, 17020, 0, 12284, 47737);
    lemma_mpow_next(5, 11934, 12284, 0, 47736, 47737);
    lemma_mpow_next(5, 23868, 47736, 0, 1, 47737);
}

/// `5^23868` modulo 47737.
#[verifier::spinoff_prover]
proof fn lemma_pow_47737_by_2()
    ensures
        mpow(5, 23868, 47737) == 47736,
{
    lemma_mpow_first(5, 47737);
    lemma_mpow_next(5, 1, 5, 0, 25, 47737);
    lemma_mpow_next(5, 2, 25, 1, 3125, 47737);
    lemma_mpow_next(5, 5, 3125, 1, 40911, 47737);
    lemma_mpow_next(5, 11, 40911, 1, 14820, 47737);
    lemma_mpow_next(5, 23, 14820, 0, 42200, 47737);
    lemma_mpow_next(5, 46, 42200, 1, 8338, 47737);
    lemma_mpow_next(5, 93, 8338, 0, 17172, 47737);
    lemma_mpow_next(5, 186, 17172, 0, 6135, 47737);
    lemma_mpow_next(5, 372, 6135, 1, 11871, 47737);
    lemma_mpow_next(5, 745, 11871, 1, 5085, 47737);
    lemma_mpow_next(5, 1491, 5085, 1, 14329, 47737);
    lemma_mpow_next(5, 2983, 14329, 1, 17020, 47737);
    lemma_mpow_next(5, 5967, 17020, 0, 12284, 47737);
    lemma_mpow_next(5, 11934, 12284, 0, 47736, 47737);
}

/// `5^15912` modulo 47737.
#[verifier::spinoff_prover]
proof fn lemma_pow_47737_by_3()
    ensures
        mpow(5, 15912, 47737) == 42905,
{
    lemma_mpow_first(5, 47737);
    lemma_mpow_next(5, 1, 5, 1, 125, 47737);
    lemma_mpow_next(5, 3, 125, 1, 30388, 47737);
    lemma_mpow_next(5, 7, 30388, 1, 30080, 47737);
    lemma_mpow_next(5, 15, 30080, 1, 44247, 47737);
    lemma_mpow_next(5, 31, 44247, 0, 7165, 47737);
    lemma_mpow_next(5, 62, 7165, 0, 19950, 47737);
    lemma_mpow_next(5, 124, 19950, 0, 19131, 47737);
    lemma_mpow_next(5, 248, 19131, 1, 25647, 47737);
    lemma_mpow_next(5, 497, 25647, 0, 486, 47737);
    lemma_mpow_next(5, 994, 486, 1, 35292, 47737);
    lemma_mpow_next(5, 1989, 35292, 0, 19197, 47737);
    lemma_mpow_next(5, 3978, 19197, 0, 42906, 47737);
    lemma_mpow_next(5, 7956, 42906, 0, 42905, 47737);
}

/// `5^3672` modulo 47737.
#[verifier::spinoff_prover]
proof fn lemma_pow_47737_by_13()
    ensures
        mpow(5, 3672, 47737) == 26006,
{
    lemma_mpow_first(5, 47737);
    lemma_mpow_next(5, 1, 5, 1, 125, 47737);
    lemma_mpow_next(5, 3, 125, 1, 30388, 47737);
    lemma_mpow_next(5, 7, 30388, 0, 6016, 47737);
    lemma_mpow_next(5, 14, 6016, 0, 7610, 47737);
    lemma_mpow_next(5, 28, 7610, 1, 35595, 47737);
    lemma_mpow_next(5, 57, 35595, 0, 16308, 47737);
    lemma_mpow_next(5, 114, 16308, 1, 40185, 47737);
    lemma_mpow_next(5, 229, 40185, 1, 30419, 47737);
    lemma_mpow_next(5, 459, 30419, 0, 29290, 47737);
    lemma_mpow_next(5, 918, 29290, 0, 22473, 47737);
    lemma_mpow_next(5, 1836, 22473, 0, 26006, 47737);
}

/// `5^2808` modulo 47737.
#[verifier::spinoff_prover]
proof fn lemma_pow_47737_by_17()
    ensures
        mpow(5, 2808, 47737) == 23688,
{
    lemma_mpow_first(5, 47737);
    lemma_mpow_next(5, 1, 5, 0, 25, 47737);
    lemma_mpow_next(5, 2, 25, 1, 3125, 47737);
    lemma_mpow_next(5, 5, 3125, 0, 27277, 47737);
    lemma_mpow_next(5, 10, 27277, 1, 29235, 47737);
    lemma_mpow_next(5, 21, 29235, 1, 9885, 47737);
    lemma_mpow_next(5, 43, 9885, 1, 25667, 47737);
    lemma_mpow_next(5, 87, 25667, 1, 25971, 47737);
    lemma_mpow_next(5, 175, 25971, 1, 36103, 47737);
    lemma_mpow_next(5, 351, 36103, 0, 15561, 47737);
    lemma_mpow_next(5, 702, 15561, 0, 22657, 47737);
    lemma_mpow_next(5, 1404, 22657, 0, 23688, 47737);
}

/// Every nonzero residue modulo 47737 is a unit, by Lucas's criterion with `5`.
#[verifier::spinoff_prover]
pub proof fn lemma_field_47737()
    ensures
        field_mod(47737),
{
    lemma_field_2();
    lemma_field_3();
    lemma_field_13();
    lemma_field_17();
    lemma_pow_47737_full();
    lemma_pow_47737_by_2();
    lemma_pow_47737_by_3();
    lemma_pow_47737_by_13();
    lemma_pow_47737_by_17();
    let fl = |i: int| if i < 3 { 2nat } else if i < 6 { 3nat } else if i < 7 { 13nat } else { 17nat };
    assert(iprod(0, fl) == 1);
    lemma_iprod_next(0, fl, 1, 2);
    lemma_iprod_next(1, fl, 2, 2);
    lemma_iprod_next(2, fl, 4, 2);
    lemma_iprod_next(3, fl, 8, 3);
    lemma_iprod_next(4, fl, 24, 3);
    lemma_iprod_next(5, fl, 72, 3);
    lemma_iprod_next(6, fl, 216, 13);
    lemma_iprod_next(7, fl, 2808, 17);
    assert forall|j: int| 0 <= j < 8 implies field_mod(#[trigger] fl(j)) && mpow(5, ((47737 - 1) as nat / fl(j)) as nat, 47737) != 1 by {
        if j < 3 {
            assert(fl(j) == 2);
            assert((47737 - 1) as nat / 2 == 23868);
        } else if j < 6 {
            assert(fl(j) == 3);
            assert((47737 - 1) as nat / 3 == 15912);
        } else if j < 7 {
            assert(fl(j) == 13);
            assert((47737 - 1) as nat / 13 == 3672);
        } else {
            assert(fl(j) == 17);
            assert((47737 - 1) as nat / 17 == 2808);
        }
    }
    lemma_lucas(47737, 5, fl, 8);
}

/// `2^859266` modulo 859267.
#[verifier::spinoff_prover]
proof fn lemma_pow_859267_full()
    ensures
        mpow(2, 859266, 859267) == 1,
{
    lemma_mpow_first(2, 859267);
    lemma_mpow_next(2, 1, 2, 1, 8, 859267);
    lemma_mpow_next(2, 3, 8, 0, 64, 859267);
    lemma_mpow_next(2, 6, 64, 1, 8192, 859267);
    lemma_mpow_next(2, 13, 8192, 0, 86038, 859267);
    lemma_mpow_next(2, 26, 86038, 0, 811506, 859267);
    lemma_mpow_next(2, 52, 811506, 0, 618503, 859267);
    lemma_mpow_next(2, 104, 618503, 1, 585218, 859267);
    lemma_mpow_next(2, 209, 585218, 1, 681600, 859267);
    lemma_mpow_next(2, 419, 681600, 1, 779288, 859267);
    lemma_mpow_next(2, 839, 779288, 0, 256893, 859267);
    lemma_mpow_next(2, 1678, 256893, 0, 589315, 859267);
    lemma_mpow_next(2, 3356, 589315, 1, 155335, 859267);
    lemma_mpow_next(2, 6713, 155335, 0, 744865, 859267);
    lemma_mpow_next(2, 13426, 744865, 0, 321927, 859267);
    lemma_mpow_next(2, 26852, 321927, 0, 800459, 859267);
    lemma_mpow_next(2, 53704, 800459, 0, 690456, 859267);
    lemma_mpow_next(2, 107408, 690456, 0, 422933, 859267);
    lemma_mpow_next(2, 214816, 422933, 1, 859266, 859267);
    lemma_mpow_next(2, 429633, 859266, 0, 1, 859267);
}

/// `2^429633` modulo 859267.
#[verifier::spinoff_prover]
proof fn lemma_pow_859267_by_2()
    ensures
        mpow(2, 429633, 859267) == 859266,
{
    lemma_mpow_first(2, 859267);
    lemma_mpow_next(2, 1, 2, 1, 8, 859267);
    lemma_mpow_next(2, 3, 8, 0, 64, 859267);
    lemma_mpow_next(2, 6, 64, 1, 8192, 859267);
    lemma_mpow_next(2, 13, 8192, 0, 86038, 859267);
    lemma_mpow_next(2, 26, 86038, 0, 811506, 859267);
    lemma_mpow_next(2, 52, 811506, 0, 618503, 859267);
    lemma_mpow_next(2, 104, 618503, 1, 585218, 859267);
    lemma_mpow_next(2, 209, 585218, 1, 681600, 859267);
    lemma_mpow_next(2, 419, 681600, 1, 779288, 859267);
    lemma_mpow_next(2, 839, 779288, 0, 256893, 859267);
    lemma_mpow_next(2, 1678, 256893, 0, 589315, 859267);
    lemma_mpow_next(2, 3356, 589315, 1, 155335, 859267);
    lemma_mpow_next(2, 6713, 155335, 0, 744865, 859267);
    lemma_mpow_next(2, 13426, 744865, 0, 321927, 859267);
    lemma_mpow_next(2, 26852, 321927, 0, 800459, 859267);
    lemma_mpow_next(2, 53704, 800459, 0, 690456, 859267);
    lemma_mpow_next(2, 107408, 690456, 0, 422933, 859267);
    lemma_mpow_next(2, 214816, 422933, 1, 859266, 859267);
}

/// `2^286422` modulo 859267.
#[verifier::spinoff_prover]
proof fn lemma_pow_859267_by_3()
    ensures
        mpow(2, 286422, 859267) == 119571,
{
    lemma_mpow_first(2, 859267);
    lemma_mpow_next(2, 1, 2, 0, 4, 859267);
    lemma_mpow_next(2, 2, 4, 0, 16, 859267);
    lemma_mpow_next(2, 4, 16, 0, 256, 859267);
    lemma_mpow_next(2, 8, 256, 1, 131072, 859267);
    lemma_mpow_next(2, 17, 131072, 0, 544053, 859267);
    lemma_mpow_next(2, 34, 544053, 1, 489570, 859267);
    lemma_mpow_next(2, 69, 489570, 1, 7044, 859267);
    lemma_mpow_next(2, 139, 7044, 1, 420167, 859267);
    lemma_mpow_next(2, 279, 420167, 1, 72075, 859267);
    lemma_mpow_next(2, 559, 72075, 0, 536610, 859267);
    lemma_mpow_next(2, 1118, 536610, 1, 77659, 859267);
    lemma_mpow_next(2, 2237, 77659, 1, 309683, 859267);
    lemma_mpow_next(2, 4475, 309683, 0, 770619, 859267);
    lemma_mpow_next(2, 8950, 770619, 1, 83111, 859267);
    lemma_mpow_next(2, 17901, 83111, 0, 650175, 859267);
    lemma_mpow_next(2, 35802, 650175, 1, 778275, 859267);
    lemma_mpow_next(2, 71605, 778275, 1, 119572, 859267);
    lemma_mpow_next(2, 143211, 119572, 0, 119571, 859267);
}

/// `2^18` modulo 859267.
#[verifier::spinoff_prover]
proof fn lemma_pow_859267_by_47737()
    ensures
        mpow(2, 18, 859267) == 262144,
{
    lemma_mpow_first(2, 859267);
    lemma_mpow_next(2, 1, 2, 0, 4, 859267);
    lemma_mpow_next(2, 2, 4, 0, 16, 859267);
    lemma_mpow_next(2, 4, 16, 1, 512, 859267);
    lemma_mpow_next(2, 9, 512, 0, 262144, 859267);
}

/// Every nonzero residue modulo 859267 is a unit, by Lucas's criterion with `2`.
#[verifier::spinoff_prover]
pub proof fn lemma_field_859267()
    ensures
        field_mod(859267),
{
    lemma_field_2();
    lemma_field_3();
    lemma_field_47737();
    lemma_pow_859267_full();
    lemma_pow_859267_by_2();
    lemma_pow_859267_by_3();
    lemma_pow_859267_by_47737();
    let fl = |i: int| if i < 1 { 2nat } else if i < 3 { 3nat } else { 47737nat };
    assert(iprod(0, fl) == 1);
    lemma_iprod_next(0, fl, 1, 2);
    lemma_iprod_next(1, fl, 2, 3);
    lemma_iprod_next(2, fl, 6, 3);
    lemma_iprod_next(3, fl, 18, 47737);
    assert forall|j: int| 0 <= j < 4 implies field_mod(#[trigger] fl(j)) && mpow(2, ((859267 - 1) as nat / fl(j)) as nat, 859267) != 1 by {
        if j < 1 {
            assert(fl(j) == 2);
            assert((859267 - 1) as nat / 2 == 429633);
        } else if j < 3 {
            assert(fl(j) == 3);
            assert((859267 - 1) as nat / 3 == 286422);
        } else {
            assert(fl(j) == 47737);
            assert((859267 - 1) as nat / 47737 == 18);
        }
    }
    lemma_lucas(859267, 2, fl, 4);
}

/// `5^22` modulo 23.
#[verifier::spinoff_prover]
proof fn lemma_pow_23_full()
    ensures
        mpow(5, 22, 23) == 1,
{
    lemma_mpow_first(5, 23);
    lemma_mpow_next(5, 1, 5, 0, 2, 23);
    lemma_mpow_next(5, 2, 2, 1, 20, 23);
    lemma_mpow_next(5, 5, 20, 1, 22, 23);
    lemma_mpow_next(5, 11, 22, 0, 1, 23);
}

/// `5^11` modulo 23.
#[verifier::spinoff_prover]
proof fn lemma_pow_23_by_2()
    ensures
        mpow(5, 11, 23) == 22,
{
    lemma_mpow_first(5, 23);
    lemma_mpow_next(5, 1, 5, 0, 2, 23);
    lemma_mpow_next(5, 2, 2, 1, 20, 23);
    lemma_mpow_next(5, 5, 20, 1, 22, 23);
}

/// `5^2` modulo 23.
#[verifier::spinoff_prover]
proof fn lemma_pow_23_by_11()
    ensures
        mpow(5, 2, 23) == 2,
{
    lemma_mpow_first(5, 23);
    lemma_mpow_next(5, 1, 5, 0, 2, 23);
}

/// Every nonzero residue modulo 23 is a unit, by Lucas's criterion with `5`.
#[verifier::spinoff_prover]
pub proof fn lemma_field_23()
    ensures
        field_mod(23),
{
    lemma_field_2();
    lemma_field_11();
    lemma_pow_23_full();
    lemma_pow_23_by_2();
    lemma_pow_23_by_11();
    let fl = |i: int| if i < 1 { 2nat } else { 11nat };
    assert(iprod(0, fl) == 1);
    lemma_iprod_next(0, fl, 1, 2);
    lemma_iprod_next(1, fl, 2, 11);
    assert forall|j: int| 0 <= j < 2 implies field_mod(#[trigger] fl(j)) && mpow(5, ((23 - 1) as nat / fl(j)) as nat, 23) != 1 by {
        if j < 1 {
            assert(fl(j) == 2);
            assert((23 - 1) as nat / 2 == 11);
        } else {
            assert(fl(j) == 11);
            assert((23 - 1) as nat / 11 == 2);
        }
    }
    lemma_lucas(23, 5, fl, 2);
}

/// `5^46` modulo 47.
#[verifier::spinoff_prover]
proof fn lemma_pow_47_full()
    ensures
        mpow(5, 46, 47) == 1,
{
    lemma_mpow_first(5, 47);
    lemma_mpow_next(5, 1, 5, 0, 25, 47);
    lemma_mpow_next(5, 2, 25, 1, 23, 47);
    lemma_mpow_next(5, 5, 23, 1, 13, 47);
    lemma_mpow_next(5, 11, 13, 1, 46, 47);
    lemma_mpow_next(5, 23, 46, 0, 1, 47);
}

/// `5^23` modulo 47.
#[verifier::spinoff_prover]
proof fn lemma_pow_47_by_2()
    ensures
        mpow(5, 23, 47) == 46,
{
    lemma_mpow_first(5, 47);
    lemma_mpow_next(5, 1, 5, 0, 25, 47);
    lemma_mpow_next(5, 2, 25, 1, 23, 47);
    lemma_mpow_next(5, 5, 23, 1, 13, 47);
    lemma_mpow_next(5, 11, 13, 1, 46, 47);
}

/// `5^2` modulo 47.
#[verifier::spinoff_prover]
proof fn lemma_pow_47_by_23()
    ensures
        mpow(5, 2, 47) == 25,
{
    lemma_mpow_first(5, 47);
    lemma_mpow_next(5, 1, 5, 0, 25, 47);
}

/// Every nonzero residue modulo 47 is a unit, by Lucas's criterion with `5`.
#[verifier::spinoff_prover]
pub proof fn lemma_field_47()
    ensures
        field_mod(47),
{
    lemma_field_2();
    lemma_field_23();
    lemma_pow_47_full();
    lemma_pow_47_by_2();
    lemma_pow_47_by_23();
    let fl = |i: int| if i < 1 { 2nat } else { 23nat };
    assert(iprod(0, fl) == 1);
    lemma_iprod_next(0, fl, 1, 2);
    lemma_iprod_next(1, fl, 2, 23);
    assert forall|j: int| 0 <= j < 2 implies field_mod(#[trigger] fl(j)) && mpow(5, ((47 - 1) as nat / fl(j)) as nat, 47) != 1 by {
        if j < 1 {
            assert(fl(j) == 2);
            assert((47 - 1) as nat / 2 == 23);
        } else {
            assert(fl(j) == 23);
            assert((47 - 1) as nat / 23 == 2);
        }
    }
    lemma_lucas(47, 5, fl, 2);
}

/// `5^72` modulo 73.
#[verifier::spinoff_prover]
proof fn lemma_pow_73_full()
    ensures
        mpow(5, 72, 73) == 1,
{
    lemma_mpow_first(5, 73);
    lemma_mpow_next(5, 1, 5, 0, 25, 73);
    lemma_mpow_next(5, 2, 25, 0, 41, 73);
    lemma_mpow_next(5, 4, 41, 1, 10, 73);
    lemma_mpow_next(5, 9, 10, 0, 27, 73);
    lemma_mpow_next(5, 18, 27, 0, 72, 73);
    lemma_mpow_next(5, 36, 72, 0, 1, 73);
}

/// `5^36` modulo 73.
#[verifier::spinoff_prover]
proof fn lemma_pow_73_by_2()
    ensures
        mpow(5, 36, 73) == 72,
{
    lemma_mpow_first(5, 73);
    lemma_mpow_next(5, 1, 5, 0, 25, 73);
    lemma_mpow_next(5, 2, 25, 0, 41, 73);
    lemma_mpow_next(5, 4, 41, 1, 10, 73);
    lemma_mpow_next(5, 9, 10, 0, 27, 73);
    lemma_mpow_next(5, 18, 27, 0, 72, 73);
}

/// `5^24` modulo 73.
#[verifier::spinoff_prover]
proof fn lemma_pow_73_by_3()
    ensures
        mpow(5, 24, 73) == 8,
{
    lemma_mpow_first(5, 73);
    lemma_mpow_next(5, 1, 5, 1, 52, 73);
    lemma_mpow_next(5, 3, 52, 0, 3, 73);
    lemma_mpow_next(5, 6, 3, 0, 9, 73);
    lemma_mpow_next(5, 12, 9, 0, 8, 73);
}

/// Every nonzero residue modulo 73 is a unit, by Lucas's criterion with `5`.
#[verifier::spinoff_prover]
pub proof fn lemma_field_73()
    ensures
        field_mod(73),
{
    lemma_field_2();
    lemma_field_3();
    lemma_pow_73_full();
    lemma_pow_73_by_2();
    lemma_pow_73_by_3();
    let fl = |i: int| if i < 3 { 2nat } else { 3nat };
    assert(iprod(0, fl) == 1);
    lemma_iprod_next(0, fl, 1, 2);
    lemma_iprod_next(1, fl, 2, 2);
    lemma_iprod_next(2, fl, 4, 2);
    lemma_iprod_next(3, fl, 8, 3);
    lemma_iprod_next(4, fl, 24, 3);
    assert forall|j: int| 0 <= j < 5 implies field_mod(#[trigger] fl(j)) && mpow(5, ((73 - 1) as nat / fl(j)) as nat, 73) != 1 by {
        if j < 3 {
            assert(fl(j) == 2);
            assert((73 - 1) as nat / 2 == 36);
        } else {
            assert(fl(j) == 3);
            assert((73 - 1) as nat / 3 == 24);
        }
    }
    lemma_lucas(73, 5, fl, 5);
}

/// `5^1606` modulo 1607.
#[verifier::spinoff_prover]
proof fn lemma_pow_1607_full()
    ensures
        mpow(5, 1606, 1607) == 1,
{
    lemma_mpow_first(5, 1607);
    lemma_mpow_next(5, 1, 5, 1, 125, 1607);
    lemma_mpow_next(5, 3, 125, 0, 1162, 1607);
    lemma_mpow_next(5, 6, 1162, 0, 364, 1607);
    lemma_mpow_next(5, 12, 364, 1, 396, 1607);
    lemma_mpow_next(5, 25, 396, 0, 937, 1607);
    lemma_mpow_next(5, 50, 937, 0, 547, 1607);
    lemma_mpow_next(5, 100, 547, 0, 307, 1607);
    lemma_mpow_next(5, 200, 307, 1, 394, 1607);
    lemma_mpow_next(5, 401, 394, 1, 1606, 1607);
    lemma_mpow_next(5, 803, 1606, 0, 1, 1607);
}

/// `5^803` modulo 1607.
#[verifier::spinoff_prover]
proof fn lemma_pow_1607_by_2()
    ensures
        mpow(5, 803, 1607) == 1606,
{
    lemma_mpow_first(5, 1607);
    lemma_mpow_next(5, 1, 5, 1, 125, 1607);
    lemma_mpow_next(5, 3, 125, 0, 1162, 1607);
    lemma_mpow_next(5, 6, 1162, 0, 364, 1607);
    lemma_mpow_next(5, 12, 364, 1, 396, 1607);
    lemma_mpow_next(5, 25, 396, 0, 937, 1607);
    lemma_mpow_next(5, 50, 937, 0, 547, 1607);
    lemma_mpow_next(5, 100, 547, 0, 307, 1607);
    lemma_mpow_next(5, 200, 307, 1, 394, 1607);
    lemma_mpow_next(5, 401, 394, 1, 1606, 1607);
}

/// `5^146` modulo 1607.
#[verifier::spinoff_prover]
proof fn lemma_pow_1607_by_11()
    ensures
        mpow(5, 146, 1607) == 1522,
{
    lemma_mpow_first(5, 1607);
    lemma_mpow_next(5, 1, 5, 0, 25, 1607);
    lemma_mpow_next(5, 2, 25, 0, 625, 1607);
    lemma_mpow_next(5, 4, 625, 1, 620, 1607);
    lemma_mpow_next(5, 9, 620, 0, 327, 1607);
    lemma_mpow_next(5, 18, 327, 0, 867, 1607);
    lemma_mpow_next(5, 36, 867, 1, 1279, 1607);
    lemma_mpow_next(5, 73, 1279, 0, 1522, 1607);
}

/// `5^22` modulo 1607.
#[verifier::spinoff_prover]
proof fn lemma_pow_1607_by_73()
    ensures
        mpow(5, 22, 1607) == 286,
{
    lemma_mpow_first(5, 1607);
    lemma_mpow_next(5, 1, 5, 0, 25, 1607);
    lemma_mpow_next(5, 2, 25, 1, 1518, 1607);
    lemma_mpow_next(5, 5, 1518, 1, 1037, 1607);
    lemma_mpow_next(5, 11, 1037, 0, 286, 1607);
}

/// Every nonzero residue modulo 1607 is a unit, by Lucas's criterion with `5`.
#[verifier::spinoff_prover]
pub proof fn lemma_field_1607()
    ensures
        field_mod(1607),
{
    lemma_field_2();
    lemma_field_11();
    lemma_field_73();
    lemma_pow_1607_full();
    lemma_pow_1607_by_2();
    lemma_pow_1607_by_11();
    lemma_pow_1607_by_73();
    let fl = |i: int| if i < 1 { 2nat } else if i < 2 { 11nat } else { 73nat };
    assert(iprod(0, fl) == 1);
    lemma_iprod_next(0, fl, 1, 2);
    lemma_iprod_next(1, fl, 2, 11);
    lemma_iprod_next(2, fl, 22, 73);
    assert forall|j: int| 0 <= j < 3 implies field_mod(#[trigger] fl(j)) && mpow(5, ((1607 - 1) as nat / fl(j)) as nat, 1607) != 1 by {
        if j < 1 {
            assert(fl(j) == 2);
            assert((1607 - 1) as nat / 2 == 803);
        } else if j < 2 {
            assert(fl(j) == 11);
            assert((1607 - 1) as nat / 11 == 146);
        } else {
            assert(fl(j) == 73);
            assert((1607 - 1) as nat / 73 == 22);
        }
    }
    lemma_lucas(1607, 5, fl, 3);
}

/// `2^906348` modulo 906349.
#[verifier::spinoff_prover]
proof fn lemma_pow_906349_full()
    ensures
        mpow(2, 906348, 906349) == 1,
{
    lemma_mpow_first(2, 906349);
    lemma_mpow_next(2, 1, 2, 1, 8, 906349);
    lemma_mpow_next(2, 3, 8, 0, 64, 906349);
    lemma_mpow_next(2, 6, 64, 1, 8192, 906349);
    lemma_mpow_next(2, 13, 8192, 1, 78076, 906349);
    lemma_mpow_next(2, 27, 78076, 1, 423153, 906349);
    lemma_mpow_next(2, 55, 423153, 0, 152969, 906349);
    lemma_mpow_next(2, 110, 152969, 1, 605656, 906349);
    lemma_mpow_next(2, 221, 605656, 0, 716707, 906349);
    lemma_mpow_next(2, 442, 716707, 1, 319688, 906349);
    lemma_mpow_next(2, 885, 319688, 0, 504104, 906349);
    lemma_mpow_next(2, 1770, 504104, 0, 522894, 906349);
    lemma_mpow_next(2, 3540, 522894, 0, 738755, 906349);
    lemma_mpow_next(2, 7080, 738755, 1, 893001, 906349);
    lemma_mpow_next(2, 14161, 893001, 1, 143051, 906349);
    lemma_mpow_next(2, 28323, 143051, 0, 40879, 906349);
    lemma_mpow_next(2, 56646, 40879, 1, 476519, 906349);
    lemma_mpow_next(2, 113293, 476519, 1, 46688, 906349);
    lemma_mpow_next(2, 226587, 46688, 0, 906348, 906349);
    lemma_mpow_next(2, 453174, 906348, 0, 1, 906349);
}

/// `2^453174` modulo 906349.
#[verifier::spinoff_prover]
proof fn lemma_pow_906349_by_2()
    ensures
        mpow(2, 453174, 906349) == 906348,
{
    lemma_mpow_first(2, 906349);
    lemma_mpow_next(2, 1, 2, 1, 8, 906349);
    lemma_mpow_next(2, 3, 8, 0, 64, 906349);
    lemma_mpow_next(2, 6, 64, 1, 8192, 906349);
    lemma_mpow_next(2, 13, 8192, 1, 78076, 906349);
    lemma_mpow_next(2, 27, 78076, 1, 423153, 906349);
    lemma_mpow_next(2, 55, 423153, 0, 152969, 906349);
    lemma_mpow_next(2, 110, 152969, 1, 605656, 906349);
    lemma_mpow_next(2, 221, 605656, 0, 716707, 906349);
    lemma_mpow_next(2, 442, 716707, 1, 319688, 906349);
    lemma_mpow_next(2, 885, 319688, 0, 504104, 906349);
    lemma_mpow_next(2, 1770, 504104, 0, 522894, 906349);
    lemma_mpow_next(2, 3540, 522894, 0, 738755, 906349);
    lemma_mpow_next(2, 7080, 738755, 1, 893001, 906349);
    lemma_mpow_next(2, 14161, 893001, 1, 143051, 906349);
    lemma_mpow_next(2, 28323, 143051, 0, 40879, 906349);
    lemma_mpow_next(2, 56646, 40879, 1, 476519, 906349);
    lemma_mpow_next(2, 113293, 476519, 1, 46688, 906349);
    lemma_mpow_next(2, 226587, 46688, 0, 906348, 906349);
}

/// `2^302116` modulo 906349.
#[verifier::spinoff_prover]
proof fn lemma_pow_906349_by_3()
    ensures
        mpow(2, 302116, 906349) == 161246,
{
    lemma_mpow_first(2, 906349);
    lemma_mpow_next(2, 1, 2, 0, 4, 906349);
    lemma_mpow_next(2, 2, 4, 0, 16, 906349);
    lemma_mpow_next(2, 4, 16, 1, 512, 906349);
    lemma_mpow_next(2, 9, 512, 0, 262144, 906349);
    lemma_mpow_next(2, 18, 262144, 0, 95556, 906349);
    lemma_mpow_next(2, 36, 95556, 1, 778620, 906349);
    lemma_mpow_next(2, 73, 778620, 1, 830882, 906349);
    lemma_mpow_next(2, 147, 830882, 1, 448295, 906349);
    lemma_mpow_next(2, 295, 448295, 0, 17859, 906349);
    lemma_mpow_next(2, 590, 17859, 0, 815382, 906349);
    lemma_mpow_next(2, 1180, 815382, 0, 28719, 906349);
    lemma_mpow_next(2, 2360, 28719, 0, 3371, 906349);
    lemma_mpow_next(2, 4720, 3371, 1, 68557, 906349);
    lemma_mpow_next(2, 9441, 68557, 0, 642684, 906349);
    lemma_mpow_next(2, 18882, 642684, 0, 451227, 906349);
    lemma_mpow_next(2, 37764, 451227, 1, 787895, 906349);
    lemma_mpow_next(2, 75529, 787895, 0, 161247, 906349);
    lemma_mpow_next(2, 151058, 161247, 0, 161246, 906349);
}

/// `2^19284` modulo 906349.
#[verifier::spinoff_prover]
proof fn lemma_pow_906349_by_47()
    ensures
        mpow(2, 19284, 906349) == 69344,
{
    lemma_mpow_first(2, 906349);
    lemma_mpow_next(2, 1, 2, 0, 4, 906349);
    lemma_mpow_next(2, 2, 4, 0, 16, 906349);
    lemma_mpow_next(2, 4, 16, 1, 512, 906349);
    lemma_mpow_next(2, 9, 512, 0, 262144, 906349);
    lemma_mpow_next(2, 18, 262144, 1, 191112, 906349);
    lemma_mpow_next(2, 37, 191112, 1, 395433, 906349);
    lemma_mpow_next(2, 75, 395433, 0, 302613, 906349);
    lemma_mpow_next(2, 150, 302613, 1, 594061, 906349);
    lemma_mpow_next(2, 301, 594061, 0, 642544, 906349);
    lemma_mpow_next(2, 602, 642544, 1, 859167, 906349);
    lemma_mpow_next(2, 1205, 859167, 0, 147980, 906349);
    lemma_mpow_next(2, 2410, 147980, 1, 470771, 906349);
    lemma_mpow_next(2, 4821, 470771, 0, 345216, 906349);
    lemma_mpow_next(2, 9642, 345216, 0, 69344, 906349);
}

/// `2^564` modulo 906349.
#[verifier::spinoff_prover]
proof fn lemma_pow_906349_by_1607()
    ensures
        mpow(2, 564, 906349) == 210417,
{
    lemma_mpow_first(2, 906349);
    lemma_mpow_next(2, 1, 2, 0, 4, 906349);
    lemma_mpow_next(2, 2, 4, 0, 16, 906349);
    lemma_mpow_next(2, 4, 16, 0, 256, 906349);
    lemma_mpow_next(2, 8, 256, 1, 131072, 906349);
    lemma_mpow_next(2, 17, 131072, 1, 47778, 906349);
    lemma_mpow_next(2, 35, 47778, 0, 550502, 906349);
    lemma_mpow_next(2, 70, 550502, 1, 324540, 906349);
    lemma_mpow_next(2, 141, 324540, 0, 300659, 906349);
    lemma_mpow_next(2, 282, 300659, 0, 210417, 906349);
}

/// Every nonzero residue modulo 906349 is a unit, by Lucas's criterion with `2`.
#[verifier::spinoff_prover]
pub proof fn lemma_field_906349()
    ensures
        field_mod(906349),
{
    lemma_field_2();
    lemma_field_3();
    lemma_field_47();
    lemma_field_1607();
    lemma_pow_906349_full();
    lemma_pow_906349_by_2();
    lemma_pow_906349_by_3();
    lemma_pow_906349_by_47();
    lemma_pow_906349_by_1607();
    let fl = |i: int| if i < 2 { 2nat } else if i < 3 { 3nat } else if i < 4 { 47nat } else { 1607nat };
    assert(iprod(0, fl) == 1);
    lemma_iprod_next(0, fl, 1, 2);
    lemma_iprod_next(1, fl, 2, 2);
    lemma_iprod_next(2, fl, 4, 3);
    lemma_iprod_next(3, fl, 12, 47);
    lemma_iprod_next(4, fl, 564, 1607);
    assert forall|j: int| 0 <= j < 5 implies field_mod(#[trigger] fl(j)) && mpow(2, ((906349 - 1) as nat / fl(j)) as nat, 906349) != 1 by {
        if j < 2 {
            assert(fl(j) == 2);
            assert((906349 - 1) as nat / 2 == 453174);
        } else if j < 3 {
            assert(fl(j) == 3);
            assert((906349 - 1) as nat / 3 == 302116);
        } else if j < 4 {
            assert(fl(j) == 47);
            assert((906349 - 1) as nat / 47 == 19284);
        } else {
            assert(fl(j) == 1607);
            assert((906349 - 1) as nat / 1607 == 564);
        }
    }
    lemma_lucas(906349, 2, fl, 5);
}

/// `3^78` modulo 79.
#[verifier::spinoff_prover]
proof fn lemma_pow_79_full()
    ensures
        mpow(3, 78, 79) == 1,
{
    lemma_mpow_first(3, 79);
    lemma_mpow_next(3, 1, 3, 0, 9, 79);
    lemma_mpow_next(3, 2, 9, 0, 2, 79);
    lemma_mpow_next(3, 4, 2, 1, 12, 79);
    lemma_mpow_next(3, 9, 12, 1, 37, 79);
    lemma_mpow_next(3, 19, 37, 1, 78, 79);
    lemma_mpow_next(3, 39, 78, 0, 1, 79);
}

/// `3^39` modulo 79.
#[verifier::spinoff_prover]
proof fn lemma_pow_79_by_2()
    ensures
        mpow(3, 39, 79) == 78,
{
    lemma_mpow_first(3, 79);
    lemma_mpow_next(3, 1, 3, 0, 9, 79);
    lemma_mpow_next(3, 2, 9, 0, 2, 79);
    lemma_mpow_next(3, 4, 2, 1, 12, 79);
    lemma_mpow_next(3, 9, 12, 1, 37, 79);
    lemma_mpow_next(3, 19, 37, 1, 78, 79);
}

/// `3^26` modulo 79.
#[verifier::spinoff_prover]
proof fn lemma_pow_79_by_3()
    ensures
        mpow(3, 26, 79) == 23,
{
    lemma_mpow_first(3, 79);
    lemma_mpow_next(3, 1, 3, 1, 27, 79);
    lemma_mpow_next(3, 3, 27, 0, 18, 79);
    lemma_mpow_next(3, 6, 18, 1, 24, 79);
    lemma_mpow_next(3, 13, 24, 0, 23, 79);
}

/// `3^6` modulo 79.
#[verifier::spinoff_prover]
proof fn lemma_pow_79_by_13()
    ensures
        mpow(3, 6, 79) == 18,
{
    lemma_mpow_first(3, 79);
    lemma_mpow_next(3, 1, 3, 1, 27, 79);
    lemma_mpow_next(3, 3, 27, 0, 18, 79);
}

/// Every nonzero residue modulo 79 is a unit, by Lucas's criterion with `3`.
#[verifier::spinoff_prover]
pub proof fn lemma_field_79()
    ensures
        field_mod(79),
{
    lemma_field_2();
    lemma_field_3();
    lemma_field_13();
    lemma_pow_79_full();
    lemma_pow_79_by_2();
    lemma_pow_79_by_3();
    lemma_pow_79_by_13();
    let fl = |i: int| if i < 1 { 2nat } else if i < 2 { 3nat } else { 13nat };
    assert(iprod(0, fl) == 1);
    lemma_iprod_next(0, fl, 1, 2);
    lemma_iprod_next(1, fl, 2, 3);
    lemma_iprod_next(2, fl, 6, 13);
    assert forall|j: int| 0 <= j < 3 implies field_mod(#[trigger] fl(j)) && mpow(3, ((79 - 1) as nat / fl(j)) as nat, 79) != 1 by {
        if j < 1 {
            assert(fl(j) == 2);
            assert((79 - 1) as nat / 2 == 39);
        } else if j < 2 {
            assert(fl(j) == 3);
            assert((79 - 1) as nat / 3 == 26);
        } else {
            assert(fl(j) == 13);
            assert((79 - 1) as nat / 13 == 6);
        }
    }
    lemma_lucas(79, 3, fl, 3);
}

/// `11^2508408` modulo 2508409.
#[verifier::spinoff_prover]
proof fn lemma_pow_2508409_full()
    ensures
        mpow(11, 2508408, 2508409) == 1,
{
    lemma_mpow_first(11, 2508409);
    lemma_mpow_next(11, 1, 11, 0, 121, 2508409);
    lemma_mpow_next(11, 2, 121, 0, 14641, 2508409);
    lemma_mpow_next(11, 4, 14641, 1, 43231, 2508409);
    lemma_mpow_next(11, 9, 43231, 1, 1701216, 2508409);
    lemma_mpow_next(11, 19, 1701216, 0, 1301499, 2508409);
    lemma_mpow_next(11, 38, 1301499, 0, 1150209, 2508409);
    lemma_mpow_next(11, 76, 1150209, 1, 17682, 2508409);
    lemma_mpow_next(11, 153, 17682, 0, 1610408, 2508409);
    lemma_mpow_next(11, 306, 1610408, 0, 2470681, 2508409);
    lemma_mpow_next(11, 612, 2470681, 0, 1134081, 2508409);
    lemma_mpow_next(11, 1224, 1134081, 1, 2238584, 2508409);
    lemma_mpow_next(11, 2449, 2238584, 1, 1095445, 2508409);
    lemma_mpow_next(11, 4899, 1095445, 0, 1966515, 2508409);
    lemma_mpow_next(11, 9798, 1966515, 0, 2207651, 2508409);
    lemma_mpow_next(11, 19596, 2207651, 1, 1030583, 2508409);
    lemma_mpow_next(11, 39193, 1030583, 1, 1436968, 2508409);
    lemma_mpow_next(11, 78387, 1436968, 1, 1359855, 2508409);
    lemma_mpow_next(11, 156775, 1359855, 1, 1333023, 2508409);
    lemma_mpow_next(11, 313551, 1333023, 0, 908156, 2508409);
    lemma_mpow_next(11, 627102, 908156, 0, 2508408, 2508409);
    lemma_mpow_next(11, 1254204, 2508408, 0, 1, 2508409);
}

/// `11^1254204` modulo 2508409.
#[verifier::spinoff_prover]
proof fn lemma_pow_2508409_by_2()
    ensures
        mpow(11, 1254204, 2508409) == 2508408,
{
    lemma_mpow_first(11, 2508409);
    lemma_mpow_next(11, 1, 11, 0, 121, 2508409);
    lemma_mpow_next(11, 2, 121, 0, 14641, 2508409);
    lemma_mpow_next(11, 4, 14641, 1, 43231, 2508409);
    lemma_mpow_next(11, 9, 43231, 1, 1701216, 2508409);
    lemma_mpow_next(11, 19, 1701216, 0, 1301499, 2508409);
    lemma_mpow_next(11, 38, 1301499, 0, 1150209, 2508409);
    lemma_mpow_next(11, 76, 1150209, 1, 17682, 2508409);
    lemma_mpow_next(11, 153, 17682, 0, 1610408, 2508409);
    lemma_mpow_next(11, 306, 1610408, 0, 2470681, 2508409);
    lemma_mpow_next(11, 612, 2470681, 0, 1134081, 2508409);
    lemma_mpow_next(11, 1224, 1134081, 1, 2238584, 2508409);
    lemma_mpow_next(11, 2449, 2238584, 1, 1095445, 2508409);
    lemma_mpow_next(11, 4899, 1095445, 0, 1966515, 2508409);
    lemma_mpow_next(11, 9798, 1966515, 0, 2207651, 2508409);
    lemma_mpow_next(11, 19596, 2207651, 1, 1030583, 2508409);
    lemma_mpow_next(11, 39193, 1030583, 1, 1436968, 2508409);
    lemma_mpow_next(11, 78387, 1436968, 1, 1359855, 2508409);
    lemma_mpow_next(11, 156775, 1359855, 1, 1333023, 2508409);
    lemma_mpow_next(11, 313551, 1333023, 0, 908156, 2508409);
    lemma_mpow_next(11, 627102, 908156, 0, 2508408, 2508409);
}

/// `11^836136` modulo 2508409.
#[verifier::spinoff_prover]
proof fn lemma_pow_2508409_by_3()
    ensures
        mpow(11, 836136, 2508409) == 875787,
{
    lemma_mpow_first(11, 2508409);
    lemma_mpow_next(11, 1, 11, 1, 1331, 2508409);
    lemma_mpow_next(11, 3, 1331, 0, 1771561, 2508409);
    lemma_mpow_next(11, 6, 1771561, 0, 2355463, 2508409);
    lemma_mpow_next(11, 12, 2355463, 1, 2164447, 2508409);
    lemma_mpow_next(11, 25, 2164447, 1, 691322, 2508409);
    lemma_mpow_next(11, 51, 691322, 0, 1449323, 2508409);
    lemma_mpow_next(11, 102, 1449323, 0, 478547, 2508409);
    lemma_mpow_next(11, 204, 478547, 0, 2031554, 2508409);
    lemma_mpow_next(11, 408, 2031554, 0, 906766, 2508409);
    lemma_mpow_next(11, 816, 906766, 1, 371376, 2508409);
    lemma_mpow_next(11, 1633, 371376, 0, 281329, 2508409);
    lemma_mpow_next(11, 3266, 281329, 0, 685473, 2508409);
    lemma_mpow_next(11, 6532, 685473, 0, 568258, 2508409);
    lemma_mpow_next(11, 13064, 568258, 1, 950756, 2508409);
    lemma_mpow_next(11, 26129, 950756, 0, 1687478, 2508409);
    lemma_mpow_next(11, 52258, 1687478, 1, 811902, 2508409);
    lemma_mpow_next(11, 104517, 811902, 0, 56494, 2508409);
    lemma_mpow_next(11, 209034, 56494, 0, 875788, 2508409);
    lemma_mpow_next(11, 418068, 875788, 0, 875787, 2508409);
}

/// `11^358344` modulo 2508409.
#[verifier::spinoff_prover]
proof fn lemma_pow_2508409_by_7()
    ensures
        mpow(11, 358344, 2508409) == 1491919,
{
    lemma_mpow_first(11, 2508409);
    lemma_mpow_next(11, 1, 11, 0, 121, 2508409);
    lemma_mpow_next(11, 2, 121, 1, 161051, 2508409);
    lemma_mpow_next(11, 5, 161051, 0, 475541, 2508409);
    lemma_mpow_next(11, 10, 475541, 1, 157598, 2508409);
    lemma_mpow_next(11, 21, 157598, 1, 42591, 2508409);
    lemma_mpow_next(11, 43, 42591, 1, 2040905, 2508409);
    lemma_mpow_next(11, 87, 2040905, 0, 2313846, 2508409);
    lemma_mpow_next(11, 174, 2313846, 1, 1459841, 2508409);
    lemma_mpow_next(11, 349, 1459841, 1, 1367233, 2508409);
    lemma_mpow_next(11, 699, 1367233, 1, 1889630, 2508409);
    lemma_mpow_next(11, 1399, 1889630, 1, 268938, 2508409);
    lemma_mpow_next(11, 2799, 268938, 1, 2010118, 2508409);
    lemma_mpow_next(11, 5599, 2010118, 0, 1564225, 2508409);
    lemma_mpow_next(11, 11198, 1564225, 0, 2392483, 2508409);
    lemma_mpow_next(11, 22396, 2392483, 1, 1653048, 2508409);
    lemma_mpow_next(11, 44793, 1653048, 0, 2245246, 2508409);
    lemma_mpow_next(11, 89586, 2245246, 0, 100488, 2508409);
    lemma_mpow_next(11, 179172, 100488, 0, 1491919, 2508409);
}

/// `11^31752` modulo 2508409.
#[verifier::spinoff_prover]
proof fn lemma_pow_2508409_by_79()
    ensures
        mpow(11, 31752, 2508409) == 2251273,
{
    lemma_mpow_first(11, 2508409);
    lemma_mpow_next(11, 1, 11, 1, 1331, 2508409);
    lemma_mpow_next(11, 3, 1331, 1, 1928308, 2508409);
    lemma_mpow_next(11, 7, 1928308, 1, 2118412, 2508409);
    lemma_mpow_next(11, 15, 2118412, 1, 574825, 2508409);
    lemma_mpow_next(11, 31, 574825, 0, 1096691, 2508409);
    lemma_mpow_next(11, 62, 1096691, 0, 1710570, 2508409);
    lemma_mpow_next(11, 124, 1710570, 0, 660036, 2508409);
    lemma_mpow_next(11, 248, 660036, 0, 2096630, 2508409);
    lemma_mpow_next(11, 496, 2096630, 0, 1021668, 2508409);
    lemma_mpow_next(11, 992, 1021668, 0, 1332326, 2508409);
    lemma_mpow_next(11, 1984, 1332326, 1, 733420, 2508409);
    lemma_mpow_next(11, 3969, 733420, 0, 1670440, 2508409);
    lemma_mpow_next(11, 7938, 1670440, 0, 571546, 2508409);
    lemma_mpow_next(11, 15876, 571546, 0, 2251273, 2508409);
}

/// Every nonzero residue modulo 2508409 is a unit, by Lucas's criterion with `11`.
#[verifier::spinoff_prover]
pub proof fn lemma_field_2508409()
    ensures
        field_mod(2508409),
{
    lemma_field_2();
    lemma_field_3();
    lemma_field_7();
    lemma_field_79();
    lemma_pow_2508409_full();
    lemma_pow_2508409_by_2();
    lemma_pow_2508409_by_3();
    lemma_pow_2508409_by_7();
    lemma_pow_2508409_by_79();
    let fl = |i: int| if i < 3 { 2nat } else if i < 7 { 3nat } else if i < 9 { 7nat } else { 79nat };
    assert(iprod(0, fl) == 1);
    lemma_iprod_next(0, fl, 1, 2);
    lemma_iprod_next(1, fl, 2, 2);
    lemma_iprod_next(2, fl, 4, 2);
    lemma_iprod_next(3, fl, 8, 3);
    lemma_iprod_next(4, fl, 24, 3);
    lemma_iprod_next(5, fl, 72, 3);
    lemma_iprod_next(6, fl, 216, 3);
    lemma_iprod_next(7, fl, 648, 7);
    lemma_iprod_next(8, fl, 4536, 7);
    lemma_iprod_next(9, fl, 31752, 79);
    assert forall|j: int| 0 <= j < 10 implies field_mod(#[trigger] fl(j)) && mpow(11, ((2508409 - 1) as nat / fl(j)) as nat, 2508409) != 1 by {
        if j < 3 {
            assert(fl(j) == 2);
            assert((2508409 - 1) as nat / 2 == 1254204);
        } else if j < 7 {
            assert(fl(j) == 3);
            assert((2508409 - 1) as nat / 3 == 836136);
        } else if j < 9 {
            assert(fl(j) == 7);
            assert((2508409 - 1) as nat / 7 == 358344);
        } else {
            assert(fl(j) == 79);
            assert((2508409 - 1) as nat / 79 == 31752);
        }
    }
    lemma_lucas(2508409, 11, fl, 10);
}

/// `3^18328` modulo 18329.
#[verifier::spinoff_prover]
proof fn lemma_pow_18329_full()
    ensures
        mpow(3, 18328, 18329) == 1,
{
    lemma_mpow_first(3, 18329);
    lemma_mpow_next(3, 1, 3, 0, 9, 18329);
    lemma_mpow_next(3, 2, 9, 0, 81, 18329);
    lemma_mpow_next(3, 4, 81, 0, 6561, 18329);
    lemma_mpow_next(3, 8, 6561, 1, 12358, 18329);
    lemma_mpow_next(3, 17, 12358, 1, 8808, 18329);
    lemma_mpow_next(3, 35, 8808, 1, 950, 18329);
    lemma_mpow_next(3, 71, 950, 1, 13137, 18329);
    lemma_mpow_next(3, 143, 13137, 0, 13234, 18329);
    lemma_mpow_next(3, 286, 13234, 0, 5161, 18329);
    lemma_mpow_next(3, 572, 5161, 1, 11652, 18329);
    lemma_mpow_next(3, 1145, 11652, 1, 274, 18329);
    lemma_mpow_next(3, 2291, 274, 0, 1760, 18329);
    lemma_mpow_next(3, 4582, 1760, 0, 18328, 18329);
    lemma_mpow_next(3, 9164, 18328, 0, 1, 18329);
}

/// `3^9164` modulo 18329.
#[verifier::spinoff_prover]
proof fn lemma_pow_18329_by_2()
    ensures
        mpow(3, 9164, 18329) == 18328,
{
    lemma_mpow_first(3, 18329);
    lemma_mpow_next(3, 1, 3, 0, 9, 18329);
    lemma_mpow_next(3, 2, 9, 0, 81, 18329);
    lemma_mpow_next(3, 4, 81, 0, 6561, 18329);
    lemma_mpow_next(3, 8, 6561, 1, 12358, 18329);
    lemma_mpow_next(3, 17, 12358, 1, 8808, 18329);
    lemma_mpow_next(3, 35, 8808, 1, 950, 18329);
    lemma_mpow_next(3, 71, 950, 1, 13137, 18329);
    lemma_mpow_next(3, 143, 13137, 0, 13234, 18329);
    lemma_mpow_next(3, 286, 13234, 0, 5161, 18329);
    lemma_mpow_next(3, 572, 5161, 1, 11652, 18329);
    lemma_mpow_next(3, 1145, 11652, 1, 274, 18329);
    lemma_mpow_next(3, 2291, 274, 0, 1760, 18329);
    lemma_mpow_next(3, 4582, 1760, 0, 18328, 18329);
}

/// `3^632` modulo 18329.
#[verifier::spinoff_prover]
proof fn lemma_pow_18329_by_29()
    ensures
        mpow(3, 632, 18329) == 8708,
{
    lemma_mpow_first(3, 18329);
    lemma_mpow_next(3, 1, 3, 0, 9, 18329);
    lemma_mpow_next(3, 2, 9, 0, 81, 18329);
    lemma_mpow_next(3, 4, 81, 1, 1354, 18329);
    lemma_mpow_next(3, 9, 1354, 1, 1248, 18329);
    lemma_mpow_next(3, 19, 1248, 1, 16946, 18329);
    lemma_mpow_next(3, 39, 16946, 1, 1090, 18329);
    lemma_mpow_next(3, 79, 1090, 0, 15044, 18329);
    lemma_mpow_next(3, 158, 15044, 0, 13773, 18329);
    lemma_mpow_next(3, 316, 13773, 0, 8708, 18329);
}

/// `3^232` modulo 18329.
#[verifier::spinoff_prover]
proof fn lemma_pow_18329_by_79()
    ensures
        mpow(3, 232, 18329) == 16492,
{
    lemma_mpow_first(3, 18329);
    lemma_mpow_next(3, 1, 3, 1, 27, 18329);
    lemma_mpow_next(3, 3, 27, 1, 2187, 18329);
    lemma_mpow_next(3, 7, 2187, 0, 17429, 18329);
    lemma_mpow_next(3, 14, 17429, 1, 10572, 18329);
    lemma_mpow_next(3, 29, 10572, 0, 15271, 18329);
    lemma_mpow_next(3, 58, 15271, 0, 3574, 18329);
    lemma_mpow_next(3, 116, 3574, 0, 16492, 18329);
}

/// Every nonzero residue modulo 18329 is a unit, by Lucas's criterion with `3`.
#[verifier::spinoff_prover]
pub proof fn lemma_field_18329()
    ensures
        field_mod(18329),
{
    lemma_field_2();
    lemma_field_29();
    lemma_field_79();
    lemma_pow_18329_full();
    lemma_pow_18329_by_2();
    lemma_pow_18329_by_29();
    lemma_pow_18329_by_79();
    let fl = |i: int| if i < 3 { 2nat } else if i < 4 { 29nat } else { 79nat };
    assert(iprod(0, fl) == 1);
    lemma_iprod_next(0, fl, 1, 2);
    lemma_iprod_next(1, fl, 2, 2);
    lemma_iprod_next(2, fl, 4, 2);
    lemma_iprod_next(3, fl, 8, 29);
    lemma_iprod_next(4, fl, 232, 79);
    assert forall|j: int| 0 <= j < 5 implies field_mod(#[trigger] fl(j)) && mpow(3, ((18329 - 1) as nat / fl(j)) as nat, 18329) != 1 by {
        if j < 3 {
            assert(fl(j) == 2);
            assert((18329 - 1) as nat / 2 == 9164);
        } else if j < 4 {
            assert(fl(j) == 29);
            assert((18329 - 1) as nat / 29 == 632);
        } else {
            assert(fl(j) == 79);
            assert((18329 - 1) as nat / 79 == 232);
        }
    }
    lemma_lucas(18329, 3, fl, 5);
}

/// `2^2529402` modulo 2529403.
#[verifier::spinoff_prover]
proof fn lemma_pow_2529403_full()
    ensures
        mpow(2, 2529402, 2529403) == 1,
{
    lemma_mpow_first(2, 2529403);
    lemma_mpow_next(2, 1, 2, 0, 4, 2529403);
    lemma_mpow_next(2, 2, 4, 0, 16, 2529403);
    lemma_mpow_next(2, 4, 16, 1, 512, 2529403);
    lemma_mpow_next(2, 9, 512, 1, 524288, 2529403);
    lemma_mpow_next(2, 19, 524288, 0, 94725, 2529403);
    lemma_mpow_next(2, 38, 94725, 1, 2066368, 2529403);
    lemma_mpow_next(2, 77, 2066368, 0, 1624736, 2529403);
    lemma_mpow_next(2, 154, 1624736, 0, 1158000, 2529403);
    lemma_mpow_next(2, 308, 1158000, 1, 1999100, 2529403);
    lemma_mpow_next(2, 617, 1999100, 1, 1963135, 2529403);
    lemma_mpow_next(2, 1235, 1963135, 0, 1970708, 2529403);
    lemma_mpow_next(2, 2470, 1970708, 0, 1655213, 2529403);
    lemma_mpow_next(2, 4940, 1655213, 0, 2157113, 2529403);
    lemma_mpow_next(2, 9880, 2157113, 0, 1206715, 2529403);
    lemma_mpow_next(2, 19760, 1206715, 1, 450489, 2529403);
    lemma_mpow_next(2, 39521, 450489, 1, 25847, 2529403);
    lemma_mpow_next(2, 79043, 25847, 1, 610034, 2529403);
    lemma_mpow_next(2, 158087, 610034, 1, 1070756, 2529403);
    lemma_mpow_next(2, 316175, 1070756, 0, 737308, 2529403);
    lemma_mpow_next(2, 632350, 737308, 1, 2529402, 2529403);
    lemma_mpow_next(2, 1264701, 2529402, 0, 1, 2529403);
}

/// `2^1264701` modulo 2529403.
#[verifier::spinoff_prover]
proof fn lemma_pow_2529403_by_2()
    ensures
        mpow(2, 1264701, 2529403) == 2529402,
{
    lemma_mpow_first(2, 2529403);
    lemma_mpow_next(2, 1, 2, 0, 4, 2529403);
    lemma_mpow_next(2, 2, 4, 0, 16, 2529403);
    lemma_mpow_next(2, 4, 16, 1, 512, 2529403);
    lemma_mpow_next(2, 9, 512, 1, 524288, 2529403);
    lemma_mpow_next(2, 19, 524288, 0, 94725, 2529403);
    lemma_mpow_next(2, 38, 94725, 1, 2066368, 2529403);
    lemma_mpow_next(2, 77, 2066368, 0, 1624736, 2529403);
    lemma_mpow_next(2, 154, 1624736, 0, 1158000, 2529403);
    lemma_mpow_next(2, 308, 1158000, 1, 1999100, 2529403);
    lemma_mpow_next(2, 617, 1999100, 1, 1963135, 2529403);
    lemma_mpow_next(2, 1235, 1963135, 0, 1970708, 2529403);
    lemma_mpow_next(2, 2470, 1970708, 0, 1655213, 2529403);
    lemma_mpow_next(2, 4940, 1655213, 0, 2157113, 2529403);
    lemma_mpow_next(2, 9880, 2157113, 0, 1206715, 2529403);
    lemma_mpow_next(2, 19760, 1206715, 1, 450489, 2529403);
    lemma_mpow_next(2, 39521, 450489, 1, 25847, 2529403);
    lemma_mpow_next(2, 79043, 25847, 1, 610034, 2529403);
    lemma_mpow_next(2, 158087, 610034, 1, 1070756, 2529403);
    lemma_mpow_next(2, 316175, 1070756, 0, 737308, 2529403);
    lemma_mpow_next(2, 632350, 737308, 1, 2529402, 2529403);
}

/// `2^843134` modulo 2529403.
#[verifier::spinoff_prover]
proof fn lemma_pow_2529403_by_3()
    ensures
        mpow(2, 843134, 2529403) == 2159616,
{
    lemma_mpow_first(2, 2529403);
    lemma_mpow_next(2, 1, 2, 1, 8, 2529403);
    lemma_mpow_next(2, 3, 8, 0, 64, 2529403);
    lemma_mpow_next(2, 6, 64, 0, 4096, 2529403);
    lemma_mpow_next(2, 12, 4096, 1, 672193, 2529403);
    lemma_mpow_next(2, 25, 672193, 1, 1989882, 2529403);
    lemma_mpow_next(2, 51, 1989882, 0, 1741604, 2529403);
    lemma_mpow_next(2, 102, 1741604, 1, 594612, 2529403);
    lemma_mpow_next(2, 205, 594612, 1, 1899602, 2529403);
    lemma_mpow_next(2, 411, 1899602, 1, 1936312, 2529403);
    lemma_mpow_next(2, 823, 1936312, 0, 447280, 2529403);
    lemma_mpow_next(2, 1646, 447280, 1, 124439, 2529403);
    lemma_mpow_next(2, 3293, 124439, 0, 59555, 2529403);
    lemma_mpow_next(2, 6586, 59555, 1, 1150038, 2529403);
    lemma_mpow_next(2, 13173, 1150038, 1, 1027578, 2529403);
    lemma_mpow_next(2, 26347, 1027578, 1, 1645229, 2529403);
    lemma_mpow_next(2, 52695, 1645229, 1, 2154132, 2529403);
    lemma_mpow_next(2, 105391, 2154132, 1, 34623, 2529403);
    lemma_mpow_next(2, 210783, 34623, 1, 2159617, 2529403);
    lemma_mpow_next(2, 421567, 2159617, 0, 2159616, 2529403);
}

/// `2^109974` modulo 2529403.
#[verifier::spinoff_prover]
proof fn lemma_pow_2529403_by_23()
    ensures
        mpow(2, 109974, 2529403) == 1307537,
{
    lemma_mpow_first(2, 2529403);
    lemma_mpow_next(2, 1, 2, 1, 8, 2529403);
    lemma_mpow_next(2, 3, 8, 0, 64, 2529403);
    lemma_mpow_next(2, 6, 64, 1, 8192, 2529403);
    lemma_mpow_next(2, 13, 8192, 0, 1344386, 2529403);
    lemma_mpow_next(2, 26, 1344386, 1, 371319, 2529403);
    lemma_mpow_next(2, 53, 371319, 1, 84462, 2529403);
    lemma_mpow_next(2, 107, 84462, 0, 912984, 2529403);
    lemma_mpow_next(2, 214, 912984, 1, 639272, 2529403);
    lemma_mpow_next(2, 429, 639272, 1, 1270966, 2529403);
    lemma_mpow_next(2, 859, 1270966, 0, 1935266, 2529403);
    lemma_mpow_next(2, 1718, 1935266, 0, 350895, 2529403);
    lemma_mpow_next(2, 3436, 350895, 1, 2043582, 2529403);
    lemma_mpow_next(2, 6873, 2043582, 0, 920708, 2529403);
    lemma_mpow_next(2, 13746, 920708, 1, 729091, 2529403);
    lemma_mpow_next(2, 27493, 729091, 1, 1350617, 2529403);
    lemma_mpow_next(2, 54987, 1350617, 0, 1307537, 2529403);
}

/// `2^138` modulo 2529403.
#[verifier::spinoff_prover]
proof fn lemma_pow_2529403_by_18329()
    ensures
        mpow(2, 138, 2529403) == 1443810,
{
    lemma_mpow_first(2, 2529403);
    lemma_mpow_next(2, 1, 2, 0, 4, 2529403);
    lemma_mpow_next(2, 2, 4, 0, 16, 2529403);
    lemma_mpow_next(2, 4, 16, 0, 256, 2529403);
    lemma_mpow_next(2, 8, 256, 1, 131072, 2529403);
    lemma_mpow_next(2, 17, 131072, 0, 164008, 2529403);
    lemma_mpow_next(2, 34, 164008, 1, 1905124, 2529403);
    lemma_mpow_next(2, 69, 1905124, 0, 1443810, 2529403);
}

/// Every nonzero residue modulo 2529403 is a unit, by Lucas's criterion with `2`.
#[verifier::spinoff_prover]
pub proof fn lemma_field_2529403()
    ensures
        field_mod(2529403),
{
    lemma_field_2();
    lemma_field_3();
    lemma_field_23();
    lemma_field_18329();
    lemma_pow_2529403_full();
    lemma_pow_2529403_by_2();
    lemma_pow_2529403_by_3();
    lemma_pow_2529403_by_23();
    lemma_pow_2529403_by_18329();
    let fl = |i: int| if i < 1 { 2nat } else if i < 2 { 3nat } else if i < 3 { 23nat } else { 18329nat };
    assert(iprod(0, fl) == 1);
    lemma_iprod_next(0, fl, 1, 2);
    lemma_iprod_next(1, fl, 2, 3);
    lemma_iprod_next(2, fl, 6, 23);
    lemma_iprod_next(3, fl, 138, 18329);
    assert forall|j: int| 0 <= j < 4 implies field_mod(#[trigger] fl(j)) && mpow(2, ((2529403 - 1) as nat / fl(j)) as nat, 2529403) != 1 by {
        if j < 1 {
            assert(fl(j) == 2);
            assert((2529403 - 1) as nat / 2 == 1264701);
        } else if j < 2 {
            assert(fl(j) == 3);
            assert((2529403 - 1) as nat / 3 == 843134);
        } else if j < 3 {
            assert(fl(j) == 23);
            assert((2529403 - 1) as nat / 23 == 109974);
        } else {
            assert(fl(j) == 18329);
            assert((2529403 - 1) as nat / 18329 == 138);
        }
    }
    lemma_lucas(2529403, 2, fl, 4);
}

/// `3^42` modulo 43.
#[verifier::spinoff_prover]
proof fn lemma_pow_43_full()
    ensures
        mpow(3, 42, 43) == 1,
{
    lemma_mpow_first(3, 43);
    lemma_mpow_next(3, 1, 3, 0, 9, 43);
    lemma_mpow_next(3, 2, 9, 1, 28, 43);
    lemma_mpow_next(3, 5, 28, 0, 10, 43);
    lemma_mpow_next(3, 10, 10, 1, 42, 43);
    lemma_mpow_next(3, 21, 42, 0, 1, 43);
}

/// `3^21` modulo 43.
#[verifier::spinoff_prover]
proof fn lemma_pow_43_by_2()
    ensures
        mpow(3, 21, 43) == 42,
{
    lemma_mpow_first(3, 43);
    lemma_mpow_next(3, 1, 3, 0, 9, 43);
    lemma_mpow_next(3, 2, 9, 1, 28, 43);
    lemma_mpow_next(3, 5, 28, 0, 10, 43);
    lemma_mpow_next(3, 10, 10, 1, 42, 43);
}

/// `3^14` modulo 43.
#[verifier::spinoff_prover]
proof fn lemma_pow_43_by_3()
    ensures
        mpow(3, 14, 43) == 36,
{
    lemma_mpow_first(3, 43);
    lemma_mpow_next(3, 1, 3, 1, 27, 43);
    lemma_mpow_next(3, 3, 27, 1, 37, 43);
    lemma_mpow_next(3, 7, 37, 0, 36, 43);
}

/// `3^6` modulo 43.
#[verifier::spinoff_prover]
proof fn lemma_pow_43_by_7()
    ensures
        mpow(3, 6, 43) == 41,
{
    lemma_mpow_first(3, 43);
    lemma_mpow_next(3, 1, 3, 1, 27, 43);
    lemma_mpow_next(3, 3, 27, 0, 41, 43);
}

/// Every nonzero residue modulo 43 is a unit, by Lucas's criterion with `3`.
#[verifier::spinoff_prover]
pub proof fn lemma_field_43()
    ensures
        field_mod(43),
{
    lemma_field_2();
    lemma_field_3();
    lemma_field_7();
    lemma_pow_43_full();
    lemma_pow_43_by_2();
    lemma_pow_43_by_3();
    lemma_pow_43_by_7();
    let fl = |i: int| if i < 1 { 2nat } else if i < 2 { 3nat } else { 7nat };
    assert(iprod(0, fl) == 1);
    lemma_iprod_next(0, fl, 1, 2);
    lemma_iprod_next(1, fl, 2, 3);
    lemma_iprod_next(2, fl, 6, 7);
    assert forall|j: int| 0 <= j < 3 implies field_mod(#[trigger] fl(j)) && mpow(3, ((43 - 1) as nat / fl(j)) as nat, 43) != 1 by {
        if j < 1 {
            assert(fl(j) == 2);
            assert((43 - 1) as nat / 2 == 21);
        } else if j < 2 {
            assert(fl(j) == 3);
            assert((43 - 1) as nat / 3 == 14);
        } else {
            assert(fl(j) == 7);
            assert((43 - 1) as nat / 7 == 6);
        }
    }
    lemma_lucas(43, 3, fl, 3);
}

/// `5^96` modulo 97.
#[verifier::spinoff_prover]
proof fn lemma_pow_97_full()
    ensures
        mpow(5, 96, 97) == 1,
{
    lemma_mpow_first(5, 97);
    lemma_mpow_next(5, 1, 5, 1, 28, 97);
    lemma_mpow_next(5, 3, 28, 0, 8, 97);
    lemma_mpow_next(5, 6, 8, 0, 64, 97);
    lemma_mpow_next(5, 12, 64, 0, 22, 97);
    lemma_mpow_next(5, 24, 22, 0, 96, 97);
    lemma_mpow_next(5, 48, 96, 0, 1, 97);
}

/// `5^48` modulo 97.
#[verifier::spinoff_prover]
proof fn lemma_pow_97_by_2()
    ensures
        mpow(5, 48, 97) == 96,
{
    lemma_mpow_first(5, 97);
    lemma_mpow_next(5, 1, 5, 1, 28, 97);
    lemma_mpow_next(5, 3, 28, 0, 8, 97);
    lemma_mpow_next(5, 6, 8, 0, 64, 97);
    lemma_mpow_next(5, 12, 64, 0, 22, 97);
    lemma_mpow_next(5, 24, 22, 0, 96, 97);
}

/// `5^32` modulo 97.
#[verifier::spinoff_prover]
proof fn lemma_pow_97_by_3()
    ensures
        mpow(5, 32, 97) == 35,
{
    lemma_mpow_first(5, 97);
    lemma_mpow_next(5, 1, 5, 0, 25, 97);
    lemma_mpow_next(5, 2, 25, 0, 43, 97);
    lemma_mpow_next(5, 4, 43, 0, 6, 97);
    lemma_mpow_next(5, 8, 6, 0, 36, 97);
    lemma_mpow_next(5, 16, 36, 0, 35, 97);
}

/// Every nonzero residue modulo 97 is a unit, by Lucas's criterion with `5`.
#[verifier::spinoff_prover]
pub proof fn lemma_field_97()
    ensures
        field_mod(97),
{
    lemma_field_2();
    lemma_field_3();
    lemma_pow_97_full();
    lemma_pow_97_by_2();
    lemma_pow_97_by_3();
    let fl = |i: int| if i < 5 { 2nat } else { 3nat };
    assert(iprod(0, fl) == 1);
    lemma_iprod_next(0, fl, 1, 2);
    lemma_iprod_next(1, fl, 2, 2);
    lemma_iprod_next(2, fl, 4, 2);
    lemma_iprod_next(3, fl, 8, 2);
    lemma_iprod_next(4, fl, 16, 2);
    lemma_iprod_next(5, fl, 32, 3);
    assert forall|j: int| 0 <= j < 6 implies field_mod(#[trigger] fl(j)) && mpow(5, ((97 - 1) as nat / fl(j)) as nat, 97) != 1 by {
        if j < 5 {
            assert(fl(j) == 2);
            assert((97 - 1) as nat / 2 == 48);
        } else {
            assert(fl(j) == 3);
            assert((97 - 1) as nat / 3 == 32);
        }
    }
    lemma_lucas(97, 5, fl, 6);
}

/// `3^448` modulo 449.
#[verifier::spinoff_prover]
proof fn lemma_pow_449_full()
    ensures
        mpow(3, 448, 449) == 1,
{
    lemma_mpow_first(3, 449);
    lemma_mpow_next(3, 1, 3, 1, 27, 449);
    lemma_mpow_next(3, 3, 27, 1, 391, 449);
    lemma_mpow_next(3, 7, 391, 0, 221, 449);
    lemma_mpow_next(3, 14, 221, 0, 349, 449);
    lemma_mpow_next(3, 28, 349, 0, 122, 449);
    lemma_mpow_next(3, 56, 122, 0, 67, 449);
    lemma_mpow_next(3, 112, 67, 0, 448, 449);
    lemma_mpow_next(3, 224, 448, 0, 1, 449);
}

/// `3^224` modulo 449.
#[verifier::spinoff_prover]
proof fn lemma_pow_449_by_2()
    ensures
        mpow(3, 224, 449) == 448,
{
    lemma_mpow_first(3, 449);
    lemma_mpow_next(3, 1, 3, 1, 27, 449);
    lemma_mpow_next(3, 3, 27, 1, 391, 449);
    lemma_mpow_next(3, 7, 391, 0, 221, 449);
    lemma_mpow_next(3, 14, 221, 0, 349, 449);
    lemma_mpow_next(3, 28, 349, 0, 122, 449);
    lemma_mpow_next(3, 56, 122, 0, 67, 449);
    lemma_mpow_next(3, 112, 67, 0, 448, 449);
}

/// `3^64` modulo 449.
#[verifier::spinoff_prover]
proof fn lemma_pow_449_by_7()
    ensures
        mpow(3, 64, 449) == 324,
{
    lemma_mpow_first(3, 449);
    lemma_mpow_next(3, 1, 3, 0, 9, 449);
    lemma_mpow_next(3, 2, 9, 0, 81, 449);
    lemma_mpow_next(3, 4, 81, 0, 275, 449);
    lemma_mpow_next(3, 8, 275, 0, 193, 449);
    lemma_mpow_next(3, 16, 193, 0, 431, 449);
    lemma_mpow_next(3, 32, 431, 0, 324, 449);
}

/// Every nonzero residue modulo 449 is a unit, by Lucas's criterion with `3`.
#[verifier::spinoff_prover]
pub proof fn lemma_field_449()
    ensures
        field_mod(449),
{
    lemma_field_2();
    lemma_field_7();
    lemma_pow_449_full();
    lemma_pow_449_by_2();
    lemma_pow_449_by_7();
    let fl = |i: int| if i < 6 { 2nat } else { 7nat };
    assert(iprod(0, fl) == 1);
    lemma_iprod_next(0, fl, 1, 2);
    lemma_iprod_next(1, fl, 2, 2);
    lemma_iprod_next(2, fl, 4, 2);
    lemma_iprod_next(3, fl, 8, 2);
    lemma_iprod_next(4, fl, 16, 2);
    lemma_iprod_next(5, fl, 32, 2);
    lemma_iprod_next(6, fl, 64, 7);
    assert forall|j: int| 0 <= j < 7 implies field_mod(#[trigger] fl(j)) && mpow(3, ((449 - 1) as nat / fl(j)) as nat, 449) != 1 by {
        if j < 6 {
            assert(fl(j) == 2);
            assert((449 - 1) as nat / 2 == 224);
        } else {
            assert(fl(j) == 7);
            assert((449 - 1) as nat / 7 == 64);
        }
    }
    lemma_lucas(449, 3, fl, 7);
}

/// `5^609742` modulo 609743.
#[verifier::spinoff_prover]
proof fn lemma_pow_609743_full()
    ensures
        mpow(5, 609742, 609743) == 1,
{
    lemma_mpow_first(5, 609743);
    lemma_mpow_next(5, 1, 5, 0, 25, 609743);
    lemma_mpow_next(5, 2, 25, 0, 625, 609743);
    lemma_mpow_next(5, 4, 625, 1, 123896, 609743);
    lemma_mpow_next(5, 9, 123896, 0, 548534, 609743);
    lemma_mpow_next(5, 18, 548534, 1, 183959, 609743);
    lemma_mpow_next(5, 37, 183959, 0, 177181, 609743);
    lemma_mpow_next(5, 74, 177181, 0, 488406, 609743);
    lemma_mpow_next(5, 148, 488406, 1, 284941, 609743);
    lemma_mpow_next(5, 297, 284941, 1, 343636, 609743);
    lemma_mpow_next(5, 595, 343636, 0, 432144, 609743);
    lemma_mpow_next(5, 1190, 432144, 1, 45770, 609743);
    lemma_mpow_next(5, 2381, 45770, 1, 299246, 609743);
    lemma_mpow_next(5, 4763, 299246, 1, 460250, 609743);
    lemma_mpow_next(5, 9527, 460250, 0, 466356, 609743);
    lemma_mpow_next(5, 19054, 466356, 0, 517295, 609743);
    lemma_mpow_next(5, 38108, 517295, 1, 544851, 609743);
    lemma_mpow_next(5, 76217, 544851, 1, 432530, 609743);
    lemma_mpow_next(5, 152435, 432530, 1, 609742, 609743);
    lemma_mpow_next(5, 304871, 609742, 0, 1, 609743);
}

/// `5^304871` modulo 609743.
#[verifier::spinoff_prover]
proof fn lemma_pow_609743_by_2()
    ensures
        mpow(5, 304871, 609743) == 609742,
{
    lemma_mpow_first(5, 609743);
    lemma_mpow_next(5, 1, 5, 0, 25, 609743);
    lemma_mpow_next(5, 2, 25, 0, 625, 609743);
    lemma_mpow_next(5, 4, 625, 1, 123896, 609743);
    lemma_mpow_next(5, 9, 123896, 0, 548534, 609743);
    lemma_mpow_next(5, 18, 548534, 1, 183959, 609743);
    lemma_mpow_next(5, 37, 183959, 0, 177181, 609743);
    lemma_mpow_next(5, 74, 177181, 0, 488406, 609743);
    lemma_mpow_next(5, 148, 488406, 1, 284941, 609743);
    lemma_mpow_next(5, 297, 284941, 1, 343636, 609743);
    lemma_mpow_next(5, 595, 343636, 0, 432144, 609743);
    lemma_mpow_next(5, 1190, 432144, 1, 45770, 609743);
    lemma_mpow_next(5, 2381, 45770, 1, 299246, 609743);
    lemma_mpow_next(5, 4763, 299246, 1, 460250, 609743);
    lemma_mpow_next(5, 9527, 460250, 0, 466356, 609743);
    lemma_mpow_next(5, 19054, 466356, 0, 517295, 609743);
    lemma_mpow_next(5, 38108, 517295, 1, 544851, 609743);
    lemma_mpow_next(5, 76217, 544851, 1, 432530, 609743);
    lemma_mpow_next(5, 152435, 432530, 1, 609742, 609743);
}

/// `5^87106` modulo 609743.
#[verifier::spinoff_prover]
proof fn lemma_pow_609743_by_7()
    ensures
        mpow(5, 87106, 609743) == 207533,
{
    lemma_mpow_first(5, 609743);
    lemma_mpow_next(5, 1, 5, 0, 25, 609743);
    lemma_mpow_next(5, 2, 25, 1, 3125, 609743);
    lemma_mpow_next(5, 5, 3125, 0, 9737, 609743);
    lemma_mpow_next(5, 10, 9737, 1, 275534, 609743);
    lemma_mpow_next(5, 21, 275534, 0, 493969, 609743);
    lemma_mpow_next(5, 42, 493969, 1, 22764, 609743);
    lemma_mpow_next(5, 85, 22764, 0, 527889, 609743);
    lemma_mpow_next(5, 170, 527889, 0, 221232, 609743);
    lemma_mpow_next(5, 340, 221232, 0, 136957, 609743);
    lemma_mpow_next(5, 680, 136957, 1, 308929, 609743);
    lemma_mpow_next(5, 1361, 308929, 0, 152681, 609743);
    lemma_mpow_next(5, 2722, 152681, 0, 403128, 609743);
    lemma_mpow_next(5, 5444, 403128, 0, 431309, 609743);
    lemma_mpow_next(5, 10888, 431309, 0, 351868, 609743);
    lemma_mpow_next(5, 21776, 351868, 1, 452024, 609743);
    lemma_mpow_next(5, 43553, 452024, 0, 207533, 609743);
}

/// `5^6286` modulo 609743.
#[verifier::spinoff_prover]
proof fn lemma_pow_609743_by_97()
    ensures
        mpow(5, 6286, 609743) == 544069,
{
    lemma_mpow_first(5, 609743);
    lemma_mpow_next(5, 1, 5, 1, 125, 609743);
    lemma_mpow_next(5, 3, 125, 0, 15625, 609743);
    lemma_mpow_next(5, 6, 15625, 0, 243425, 609743);
    lemma_mpow_next(5, 12, 243425, 0, 296142, 609743);
    lemma_mpow_next(5, 24, 296142, 1, 83912, 609743);
    lemma_mpow_next(5, 49, 83912, 0, 521323, 609743);
    lemma_mpow_next(5, 98, 521323, 0, 581397, 609743);
    lemma_mpow_next(5, 196, 581397, 0, 464185, 609743);
    lemma_mpow_next(5, 392, 464185, 1, 127486, 609743);
    lemma_mpow_next(5, 785, 127486, 1, 512398, 609743);
    lemma_mpow_next(5, 1571, 512398, 1, 165310, 609743);
    lemma_mpow_next(5, 3143, 165310, 0, 544069, 609743);
}

/// `5^1358` modulo 609743.
#[verifier::spinoff_prover]
proof fn lemma_pow_609743_by_449()
    ensures
        mpow(5, 1358, 609743) == 475632,
{
    lemma_mpow_first(5, 609743);
    lemma_mpow_next(5, 1, 5, 0, 25, 609743);
    lemma_mpow_next(5, 2, 25, 1, 3125, 609743);
    lemma_mpow_next(5, 5, 3125, 0, 9737, 609743);
    lemma_mpow_next(5, 10, 9737, 1, 275534, 609743);
    lemma_mpow_next(5, 21, 275534, 0, 493969, 609743);
    lemma_mpow_next(5, 42, 493969, 0, 248450, 609743);
    lemma_mpow_next(5, 84, 248450, 1, 349475, 609743);
    lemma_mpow_next(5, 169, 349475, 1, 166195, 609743);
    lemma_mpow_next(5, 339, 166195, 1, 149340, 609743);
    lemma_mpow_next(5, 679, 149340, 0, 475632, 609743);
}

/// Every nonzero residue modulo 609743 is a unit, by Lucas's criterion with `5`.
#[verifier::spinoff_prover]
pub proof fn lemma_field_609743()
    ensures
        field_mod(609743),
{
    lemma_field_2();
    lemma_field_7();
    lemma_field_97();
    lemma_field_449();
    lemma_pow_609743_full();
    lemma_pow_609743_by_2();
    lemma_pow_609743_by_7();
    lemma_pow_609743_by_97();
    lemma_pow_609743_by_449();
    let fl = |i: int| if i < 1 { 2nat } else if i < 2 { 7nat } else if i < 3 { 97nat } else { 449nat };
    assert(iprod(0, fl) == 1);
    lemma_iprod_next(0, fl, 1, 2);
    lemma_iprod_next(1, fl, 2, 7);
    lemma_iprod_next(2, fl, 14, 97);
    lemma_iprod_next(3, fl, 1358, 449);
    assert forall|j: int| 0 <= j < 4 implies field_mod(#[trigger] fl(j)) && mpow(5, ((609743 - 1) as nat / fl(j)) as nat, 609743) != 1 by {
        if j < 1 {
            assert(fl(j) == 2);
            assert((609743 - 1) as nat / 2 == 304871);
        } else if j < 2 {
            assert(fl(j) == 7);
            assert((609743 - 1) as nat / 7 == 87106);
        } else if j < 3 {
            assert(fl(j) == 97);
            assert((609743 - 1) as nat / 97 == 6286);
        } else {
            assert(fl(j) == 449);
            assert((609743 - 1) as nat / 449 == 1358);
        }
    }
    lemma_lucas(609743, 5, fl, 4);
}

/// `2^52437898` modulo 52437899.
#[verifier::spinoff_prover]
proof fn lemma_pow_52437899_full()
    ensures
        mpow(2, 52437898, 52437899) == 1,
{
    lemma_mpow_first(2, 52437899);
    lemma_mpow_next(2, 1, 2, 1, 8, 52437899);
    lemma_mpow_next(2, 3, 8, 0, 64, 52437899);
    lemma_mpow_next(2, 6, 64, 0, 4096, 52437899);
    lemma_mpow_next(2, 12, 4096, 1, 33554432, 52437899);
    lemma_mpow_next(2, 25, 33554432, 0, 9244734, 52437899);
    lemma_mpow_next(2, 50, 9244734, 0, 36051990, 52437899);
    lemma_mpow_next(2, 100, 36051990, 0, 29754985, 52437899);
    lemma_mpow_next(2, 200, 29754985, 0, 5339680, 52437899);
    lemma_mpow_next(2, 400, 5339680, 0, 18803332, 52437899);
    lemma_mpow_next(2, 800, 18803332, 0, 33523976, 52437899);
    lemma_mpow_next(2, 1600, 33523976, 0, 49795726, 52437899);
    lemma_mpow_next(2, 3200, 49795726, 1, 41336118, 52437899);
    lemma_mpow_next(2, 6401, 41336118, 0, 27941351, 52437899);
    lemma_mpow_next(2, 12802, 27941351, 0, 5900752, 52437899);
    lemma_mpow_next(2, 25604, 5900752, 0, 4353706, 52437899);
    lemma_mpow_next(2, 51208, 4353706, 1, 4727913, 52437899);
    lemma_mpow_next(2, 102417, 4727913, 1, 24813395, 52437899);
    lemma_mpow_next(2, 204835, 24813395, 1, 49872139, 52437899);
    lemma_mpow_next(2, 409671, 49872139, 0, 18099241, 52437899);
    lemma_mpow_next(2, 819342, 18099241, 0, 33200737, 52437899);
    lemma_mpow_next(2, 1638684, 33200737, 0, 42776413, 52437899);
    lemma_mpow_next(2, 3277368, 42776413, 1, 2005077, 52437899);
    lemma_mpow_next(2, 6554737, 2005077, 0, 24935397, 52437899);
    lemma_mpow_next(2, 13109474, 24935397, 1, 52437898, 52437899);
    lemma_mpow_next(2, 26218949, 52437898, 0, 1, 52437899);
}

/// `2^26218949` modulo 52437899.
#[verifier::spinoff_prover]
proof fn lemma_pow_52437899_by_2()
    ensures
        mpow(2, 26218949, 52437899) == 52437898,
{
    lemma_mpow_first(2, 52437899);
    lemma_mpow_next(2, 1, 2, 1, 8, 52437899);
    lemma_mpow_next(2, 3, 8, 0, 64, 52437899);
    lemma_mpow_next(2, 6, 64, 0, 4096, 52437899);
    lemma_mpow_next(2, 12, 4096, 1, 33554432, 52437899);
    lemma_mpow_next(2, 25, 33554432, 0, 9244734, 52437899);
    lemma_mpow_next(2, 50, 9244734, 0, 36051990, 52437899);
    lemma_mpow_next(2, 100, 36051990, 0, 29754985, 52437899);
    lemma_mpow_next(2, 200, 29754985, 0, 5339680, 52437899);
    lemma_mpow_next(2, 400, 5339680, 0, 18803332, 52437899);
    lemma_mpow_next(2, 800, 18803332, 0, 33523976, 52437899);
    lemma_mpow_next(2, 1600, 33523976, 0, 49795726, 52437899);
    lemma_mpow_next(2, 3200, 49795726, 1, 41336118, 52437899);
    lemma_mpow_next(2, 6401, 41336118, 0, 27941351, 52437899);
    lemma_mpow_next(2, 12802, 27941351, 0, 5900752, 52437899);
    lemma_mpow_next(2, 25604, 5900752, 0, 4353706, 52437899);
    lemma_mpow_next(2, 51208, 4353706, 1, 4727913, 52437899);
    lemma_mpow_next(2, 102417, 4727913, 1, 24813395, 52437899);
    lemma_mpow_next(2, 204835, 24813395, 1, 49872139, 52437899);
    lemma_mpow_next(2, 409671, 49872139, 0, 18099241, 52437899);
    lemma_mpow_next(2, 819342, 18099241, 0, 33200737, 52437899);
    lemma_mpow_next(2, 1638684, 33200737, 0, 42776413, 52437899);
    lemma_mpow_next(2, 3277368, 42776413, 1, 2005077, 52437899);
    lemma_mpow_next(2, 6554737, 2005077, 0, 24935397, 52437899);
    lemma_mpow_next(2, 13109474, 24935397, 1, 52437898, 52437899);
}

/// `2^1219486` modulo 52437899.
#[verifier::spinoff_prover]
proof fn lemma_pow_52437899_by_43()
    ensures
        mpow(2, 1219486, 52437899) == 11758757,
{
    lemma_mpow_first(2, 52437899);
    lemma_mpow_next(2, 1, 2, 0, 4, 52437899);
    lemma_mpow_next(2, 2, 4, 0, 16, 52437899);
    lemma_mpow_next(2, 4, 16, 1, 512, 52437899);
    lemma_mpow_next(2, 9, 512, 0, 262144, 52437899);
    lemma_mpow_next(2, 18, 262144, 1, 51658092, 52437899);
    lemma_mpow_next(2, 37, 51658092, 0, 29080445, 52437899);
    lemma_mpow_next(2, 74, 29080445, 0, 44115044, 52437899);
    lemma_mpow_next(2, 148, 44115044, 1, 2739929, 52437899);
    lemma_mpow_next(2, 297, 2739929, 1, 35543109, 52437899);
    lemma_mpow_next(2, 595, 35543109, 0, 24464875, 52437899);
    lemma_mpow_next(2, 1190, 24464875, 1, 45912299, 52437899);
    lemma_mpow_next(2, 2381, 45912299, 1, 1934948, 52437899);
    lemma_mpow_next(2, 4763, 1934948, 1, 20424006, 52437899);
    lemma_mpow_next(2, 9527, 20424006, 0, 47882269, 52437899);
    lemma_mpow_next(2, 19054, 47882269, 0, 50344377, 52437899);
    lemma_mpow_next(2, 38108, 50344377, 1, 44656330, 52437899);
    lemma_mpow_next(2, 76217, 44656330, 1, 42273527, 52437899);
    lemma_mpow_next(2, 152435, 42273527, 1, 49632117, 52437899);
    lemma_mpow_next(2, 304871, 49632117, 1, 31460904, 52437899);
    lemma_mpow_next(2, 609743, 31460904, 0, 11758757, 52437899);
}

/// `2^86` modulo 52437899.
#[verifier::spinoff_prover]
proof fn lemma_pow_52437899_by_609743()
    ensures
        mpow(2, 86, 52437899) == 27034091,
{
    lemma_mpow_first(2, 52437899);
    lemma_mpow_next(2, 1, 2, 0, 4, 52437899);
    lemma_mpow_next(2, 2, 4, 1, 32, 52437899);
    lemma_mpow_next(2, 5, 32, 0, 1024, 52437899);
    lemma_mpow_next(2, 10, 1024, 1, 2097152, 52437899);
    lemma_mpow_next(2, 21, 2097152, 1, 2530251, 52437899);
    lemma_mpow_next(2, 43, 2530251, 0, 27034091, 52437899);
}

/// Every nonzero residue modulo 52437899 is a unit, by Lucas's criterion with `2`.
#[verifier::spinoff_prover]
pub proof fn lemma_field_52437899()
    ensures
        field_mod(52437899),
{
    lemma_field_2();
    lemma_field_43();
    lemma_field_609743();
    lemma_pow_52437899_full();
    lemma_pow_52437899_by_2();
    lemma_pow_52437899_by_43();
    lemma_pow_52437899_by_609743();
    let fl = |i: int| if i < 1 { 2nat } else if i < 2 { 43nat } else { 609743nat };
    assert(iprod(0, fl) == 1);
    lemma_iprod_next(0, fl, 1, 2);
    lemma_iprod_next(1, fl, 2, 43);
    lemma_iprod_next(2, fl, 86, 609743);
    assert forall|j: int| 0 <= j < 3 implies field_mod(#[trigger] fl(j)) && mpow(2, ((52437899 - 1) as nat / fl(j)) as nat, 52437899) != 1 by {
        if j < 1 {
            assert(fl(j) == 2);
            assert((52437899 - 1) as nat / 2 == 26218949);
        } else if j < 2 {
            assert(fl(j) == 43);
            assert((52437899 - 1) as nat / 43 == 1219486);
        } else {
            assert(fl(j) == 609743);
            assert((52437899 - 1) as nat / 609743 == 86);
        }
    }
    lemma_lucas(52437899, 2, fl, 3);
}

/// `3^88` modulo 89.
#[verifier::spinoff_prover]
proof fn lemma_pow_89_full()
    ensures
        mpow(3, 88, 89) == 1,
{
    lemma_mpow_first(3, 89);
    lemma_mpow_next(3, 1, 3, 0, 9, 89);
    lemma_mpow_next(3, 2, 9, 1, 65, 89);
    lemma_mpow_next(3, 5, 65, 1, 37, 89);
    lemma_mpow_next(3, 11, 37, 0, 34, 89);
    lemma_mpow_next(3, 22, 34, 0, 88, 89);
    lemma_mpow_next(3, 44, 88, 0, 1, 89);
}

/// `3^44` modulo 89.
#[verifier::spinoff_prover]
proof fn lemma_pow_89_by_2()
    ensures
        mpow(3, 44, 89) == 88,
{
    lemma_mpow_first(3, 89);
    lemma_mpow_next(3, 1, 3, 0, 9, 89);
    lemma_mpow_next(3, 2, 9, 1, 65, 89);
    lemma_mpow_next(3, 5, 65, 1, 37, 89);
    lemma_mpow_next(3, 11, 37, 0, 34, 89);
    lemma_mpow_next(3, 22, 34, 0, 88, 89);
}

/// `3^8` modulo 89.
#[verifier::spinoff_prover]
proof fn lemma_pow_89_by_11()
    ensures
        mpow(3, 8, 89) == 64,
{
    lemma_mpow_first(3, 89);
    lemma_mpow_next(3, 1, 3, 0, 9, 89);
    lemma_mpow_next(3, 2, 9, 0, 81, 89);
    lemma_mpow_next(3, 4, 81, 0, 64, 89);
}

/// Every nonzero residue modulo 89 is a unit, by Lucas's criterion with `3`.
#[verifier::spinoff_prover]
pub proof fn lemma_field_89()
    ensures
        field_mod(89),
{
    lemma_field_2();
    lemma_field_11();
    lemma_pow_89_full();
    lemma_pow_89_by_2();
    lemma_pow_89_by_11();
    let fl = |i: int| if i < 3 { 2nat } else { 11nat };
    assert(iprod(0, fl) == 1);
    lemma_iprod_next(0, fl, 1, 2);
    lemma_iprod_next(1, fl, 2, 2);
    lemma_iprod_next(2, fl, 4, 2);
    lemma_iprod_next(3, fl, 8, 11);
    assert forall|j: int| 0 <= j < 4 implies field_mod(#[trigger] fl(j)) && mpow(3, ((89 - 1) as nat / fl(j)) as nat, 89) != 1 by {
        if j < 3 {
            assert(fl(j) == 2);
            assert((89 - 1) as nat / 2 == 44);
        } else {
            assert(fl(j) == 11);
            assert((89 - 1) as nat / 11 == 8);
        }
    }
    lemma_lucas(89, 3, fl, 4);
}

/// `2^178` modulo 179.
#[verifier::spinoff_prover]
proof fn lemma_pow_179_full()
    ensures
        mpow(2, 178, 179) == 1,
{
    lemma_mpow_first(2, 179);
    lemma_mpow_next(2, 1, 2, 0, 4, 179);
    lemma_mpow_next(2, 2, 4, 1, 32, 179);
    lemma_mpow_next(2, 5, 32, 1, 79, 179);
    lemma_mpow_next(2, 11, 79, 0, 155, 179);
    lemma_mpow_next(2, 22, 155, 0, 39, 179);
    lemma_mpow_next(2, 44, 39, 1, 178, 179);
    lemma_mpow_next(2, 89, 178, 0, 1, 179);
}

/// `2^89` modulo 179.
#[verifier::spinoff_prover]
proof fn lemma_pow_179_by_2()
    ensures
        mpow(2, 89, 179) == 178,
{
    lemma_mpow_first(2, 179);
    lemma_mpow_next(2, 1, 2, 0, 4, 179);
    lemma_mpow_next(2, 2, 4, 1, 32, 179);
    lemma_mpow_next(2, 5, 32, 1, 79, 179);
    lemma_mpow_next(2, 11, 79, 0, 155, 179);
    lemma_mpow_next(2, 22, 155, 0, 39, 179);
    lemma_mpow_next(2, 44, 39, 1, 178, 179);
}

/// `2^2` modulo 179.
#[verifier::spinoff_prover]
proof fn lemma_pow_179_by_89()
    ensures
        mpow(2, 2, 179) == 4,
{
    lemma_mpow_first(2, 179);
    lemma_mpow_next(2, 1, 2, 0, 4, 179);
}

/// Every nonzero residue modulo 179 is a unit, by Lucas's criterion with `2`.
#[verifier::spinoff_prover]
pub proof fn lemma_field_179()
    ensures
        field_mod(179),
{
    lemma_field_2();
    lemma_field_89();
    lemma_pow_179_full();
    lemma_pow_179_by_2();
    lemma_pow_179_by_89();
    let fl = |i: int| if i < 1 { 2nat } else { 89nat };
    assert(iprod(0, fl) == 1);
    lemma_iprod_next(0, fl, 1, 2);
    lemma_iprod_next(1, fl, 2, 89);
    assert forall|j: int| 0 <= j < 2 implies field_mod(#[trigger] fl(j)) && mpow(2, ((179 - 1) as nat / fl(j)) as nat, 179) != 1 by {
        if j < 1 {
            assert(fl(j) == 2);
            assert((179 - 1) as nat / 2 == 89);
        } else {
            assert(fl(j) == 89);
            assert((179 - 1) as nat / 89 == 2);
        }
    }
    lemma_lucas(179, 2, fl, 2);
}

/// `7^358` modulo 359.
#[verifier::spinoff_prover]
proof fn lemma_pow_359_full()
    ensures
        mpow(7, 358, 359) == 1,
{
    lemma_mpow_first(7, 359);
    lemma_mpow_next(7, 1, 7, 0, 49, 359);
    lemma_mpow_next(7, 2, 49, 1, 293, 359);
    lemma_mpow_next(7, 5, 293, 1, 336, 359);
    lemma_mpow_next(7, 11, 336, 0, 170, 359);
    lemma_mpow_next(7, 22, 170, 0, 180, 359);
    lemma_mpow_next(7, 44, 180, 1, 271, 359);
    lemma_mpow_next(7, 89, 271, 1, 358, 359);
    lemma_mpow_next(7, 179, 358, 0, 1, 359);
}

/// `7^179` modulo 359.
#[verifier::spinoff_prover]
proof fn lemma_pow_359_by_2()
    ensures
        mpow(7, 179, 359) == 358,
{
    lemma_mpow_first(7, 359);
    lemma_mpow_next(7, 1, 7, 0, 49, 359);
    lemma_mpow_next(7, 2, 49, 1, 293, 359);
    lemma_mpow_next(7, 5, 293, 1, 336, 359);
    lemma_mpow_next(7, 11, 336, 0, 170, 359);
    lemma_mpow_next(7, 22, 170, 0, 180, 359);
    lemma_mpow_next(7, 44, 180, 1, 271, 359);
    lemma_mpow_next(7, 89, 271, 1, 358, 359);
}

/// `7^2` modulo 359.
#[verifier::spinoff_prover]
proof fn lemma_pow_359_by_179()
    ensures
        mpow(7, 2, 359) == 49,
{
    lemma_mpow_first(7, 359);
    lemma_mpow_next(7, 1, 7, 0, 49, 359);
}

/// Every nonzero residue modulo 359 is a unit, by Lucas's criterion with `7`.
#[verifier::spinoff_prover]
pub proof fn lemma_field_359()
    ensures
        field_mod(359),
{
    lemma_field_2();
    lemma_field_179();
    lemma_pow_359_full();
    lemma_pow_359_by_2();
    lemma_pow_359_by_179();
    let fl = |i: int| if i < 1 { 2nat } else { 179nat };
    assert(iprod(0, fl) == 1);
    lemma_iprod_next(0, fl, 1, 2);
    lemma_iprod_next(1, fl, 2, 179);
    assert forall|j: int| 0 <= j < 2 implies field_mod(#[trigger] fl(j)) && mpow(7, ((359 - 1) as nat / fl(j)) as nat, 359) != 1 by {
        if j < 1 {
            assert(fl(j) == 2);
            assert((359 - 1) as nat / 2 == 179);
        } else {
            assert(fl(j) == 179);
            assert((359 - 1) as nat / 179 == 2);
        }
    }
    lemma_lucas(359, 7, fl, 2);
}

/// `3^110572` modulo 110573.
#[verifier::spinoff_prover]
proof fn lemma_pow_110573_full()
    ensures
        mpow(3, 110572, 110573) == 1,
{
    lemma_mpow_first(3, 110573);
    lemma_mpow_next(3, 1, 3, 1, 27, 110573);
    lemma_mpow_next(3, 3, 27, 0, 729, 110573);
    lemma_mpow_next(3, 6, 729, 1, 46301, 110573);
    lemma_mpow_next(3, 13, 46301, 0, 103850, 110573);
    lemma_mpow_next(3, 26, 103850, 1, 33689, 110573);
    lemma_mpow_next(3, 53, 33689, 1, 82347, 110573);
    lemma_mpow_next(3, 107, 82347, 1, 85833, 110573);
    lemma_mpow_next(3, 215, 85833, 1, 27562, 110573);
    lemma_mpow_next(3, 431, 27562, 1, 82002, 110573);
    lemma_mpow_next(3, 863, 82002, 1, 45892, 110573);
    lemma_mpow_next(3, 1727, 45892, 1, 85772, 110573);
    lemma_mpow_next(3, 3455, 85772, 0, 82575, 110573);
    lemma_mpow_next(3, 6910, 82575, 1, 108021, 110573);
    lemma_mpow_next(3, 13821, 108021, 1, 77264, 110573);
    lemma_mpow_next(3, 27643, 77264, 0, 110572, 110573);
    lemma_mpow_next(3, 55286, 110572, 0, 1, 110573);
}

/// `3^55286` modulo 110573.
#[verifier::spinoff_prover]
proof fn lemma_pow_110573_by_2()
    ensures
        mpow(3, 55286, 110573) == 110572,
{
    lemma_mpow_first(3, 110573);
    lemma_mpow_next(3, 1, 3, 1, 27, 110573);
    lemma_mpow_next(3, 3, 27, 0, 729, 110573);
    lemma_mpow_next(3, 6, 729, 1, 46301, 110573);
    lemma_mpow_next(3, 13, 46301, 0, 103850, 110573);
    lemma_mpow_next(3, 26, 103850, 1, 33689, 110573);
    lemma_mpow_next(3, 53, 33689, 1, 82347, 110573);
    lemma_mpow_next(3, 107, 82347, 1, 85833, 110573);
    lemma_mpow_next(3, 215, 85833, 1, 27562, 110573);
    lemma_mpow_next(3, 431, 27562, 1, 82002, 110573);
    lemma_mpow_next(3, 863, 82002, 1, 45892, 110573);
    lemma_mpow_next(3, 1727, 45892, 1, 85772, 110573);
    lemma_mpow_next(3, 3455, 85772, 0, 82575, 110573);
    lemma_mpow_next(3, 6910, 82575, 1, 108021, 110573);
    lemma_mpow_next(3, 13821, 108021, 1, 77264, 110573);
    lemma_mpow_next(3, 27643, 77264, 0, 110572, 110573);
}

/// `3^15796` modulo 110573.
#[verifier::spinoff_prover]
proof fn lemma_pow_110573_by_7()
    ensures
        mpow(3, 15796, 110573) == 68842,
{
    lemma_mpow_first(3, 110573);
    lemma_mpow_next(3, 1, 3, 1, 27, 110573);
    lemma_mpow_next(3, 3, 27, 1, 2187, 110573);
    lemma_mpow_next(3, 7, 2187, 1, 84990, 110573);
    lemma_mpow_next(3, 15, 84990, 0, 8302, 110573);
    lemma_mpow_next(3, 30, 8302, 1, 108675, 110573);
    lemma_mpow_next(3, 61, 108675, 1, 81631, 110573);
    lemma_mpow_next(3, 123, 81631, 0, 48889, 110573);
    lemma_mpow_next(3, 246, 48889, 1, 75632, 110573);
    lemma_mpow_next(3, 493, 75632, 1, 391, 110573);
    lemma_mpow_next(3, 987, 391, 0, 42308, 110573);
    lemma_mpow_next(3, 1974, 42308, 1, 33420, 110573);
    lemma_mpow_next(3, 3949, 33420, 0, 109100, 110573);
    lemma_mpow_next(3, 7898, 109100, 0, 68842, 110573);
}

/// `3^10052` modulo 110573.
#[verifier::spinoff_prover]
proof fn lemma_pow_110573_by_11()
    ensures
        mpow(3, 10052, 110573) == 59068,
{
    lemma_mpow_first(3, 110573);
    lemma_mpow_next(3, 1, 3, 0, 9, 110573);
    lemma_mpow_next(3, 2, 9, 0, 81, 110573);
    lemma_mpow_next(3, 4, 81, 1, 19683, 110573);
    lemma_mpow_next(3, 9, 19683, 1, 28664, 110573);
    lemma_mpow_next(3, 19, 28664, 1, 91945, 110573);
    lemma_mpow_next(3, 39, 91945, 0, 24310, 110573);
    lemma_mpow_next(3, 78, 24310, 1, 818, 110573);
    lemma_mpow_next(3, 157, 818, 0, 5686, 110573);
    lemma_mpow_next(3, 314, 5686, 0, 43280, 110573);
    lemma_mpow_next(3, 628, 43280, 0, 51780, 110573);
    lemma_mpow_next(3, 1256, 51780, 1, 93461, 110573);
    lemma_mpow_next(3, 2513, 93461, 0, 23240, 110573);
    lemma_mpow_next(3, 5026, 23240, 0, 59068, 110573);
}

/// `3^308` modulo 110573.
#[verifier::spinoff_prover]
proof fn lemma_pow_110573_by_359()
    ensures
        mpow(3, 308, 110573) == 48848,
{
    lemma_mpow_first(3, 110573);
    lemma_mpow_next(3, 1, 3, 0, 9, 110573);
    lemma_mpow_next(3, 2, 9, 0, 81, 110573);
    lemma_mpow_next(3, 4, 81, 1, 19683, 110573);
    lemma_mpow_next(3, 9, 19683, 1, 28664, 110573);
    lemma_mpow_next(3, 19, 28664, 0, 67506, 110573);
    lemma_mpow_next(3, 38, 67506, 1, 44961, 110573);
    lemma_mpow_next(3, 77, 44961, 0, 106508, 110573);
    lemma_mpow_next(3, 154, 106508, 0, 48848, 110573);
}

/// Every nonzero residue modulo 110573 is a unit, by Lucas's criterion with `3`.
#[verifier::spinoff_prover]
pub proof fn lemma_field_110573()
    ensures
        field_mod(110573),
{
    lemma_field_2();
    lemma_field_7();
    lemma_field_11();
    lemma_field_359();
    lemma_pow_110573_full();
    lemma_pow_110573_by_2();
    lemma_pow_110573_by_7();
    lemma_pow_110573_by_11();
    lemma_pow_110573_by_359();
    let fl = |i: int| if i < 2 { 2nat } else if i < 3 { 7nat } else if i < 4 { 11nat } else { 359nat };
    assert(iprod(0, fl) == 1);
    lemma_iprod_next(0, fl, 1, 2);
    lemma_iprod_next(1, fl, 2, 2);
    lemma_iprod_next(2, fl, 4, 7);
    lemma_iprod_next(3, fl, 28, 11);
    lemma_iprod_next(4, fl, 308, 359);
    assert forall|j: int| 0 <= j < 5 implies field_mod(#[trigger] fl(j)) && mpow(3, ((110573 - 1) as nat / fl(j)) as nat, 110573) != 1 by {
        if j < 2 {
            assert(fl(j) == 2);
            assert((110573 - 1) as nat / 2 == 55286);
        } else if j < 3 {
            assert(fl(j) == 7);
            assert((110573 - 1) as nat / 7 == 15796);
        } else if j < 4 {
            assert(fl(j) == 11);
            assert((110573 - 1) as nat / 11 == 10052);
        } else {
            assert(fl(j) == 359);
            assert((110573 - 1) as nat / 359 == 308);
        }
    }
    lemma_lucas(110573, 3, fl, 5);
}

/// `5^2653752` modulo 2653753.
#[verifier::spinoff_prover]
proof fn lemma_pow_2653753_full()
    ensures
        mpow(5, 2653752, 2653753) == 1,
{
    lemma_mpow_first(5, 2653753);
    lemma_mpow_next(5, 1, 5, 0, 25, 2653753);
    lemma_mpow_next(5, 2, 25, 1, 3125, 2653753);
    lemma_mpow_next(5, 5, 3125, 0, 1804366, 2653753);
    lemma_mpow_next(5, 10, 1804366, 0, 1023930, 2653753);
    lemma_mpow_next(5, 20, 1023930, 0, 1178425, 2653753);
    lemma_mpow_next(5, 40, 1178425, 0, 419502, 2653753);
    lemma_mpow_next(5, 80, 419502, 1, 2104057, 2653753);
    lemma_mpow_next(5, 161, 2104057, 1, 1765379, 2653753);
    lemma_mpow_next(5, 323, 1765379, 1, 1335982, 2653753);
    lemma_mpow_next(5, 647, 1335982, 1, 2555498, 2653753);
    lemma_mpow_next(5, 1295, 2555498, 1, 1111808, 2653753);
    lemma_mpow_next(5, 2591, 1111808, 1, 2368579, 2653753);
    lemma_mpow_next(5, 5183, 2368579, 0, 2603344, 2653753);
    lemma_mpow_next(5, 10366, 2603344, 0, 1425660, 2653753);
    lemma_mpow_next(5, 20732, 1425660, 0, 2320406, 2653753);
    lemma_mpow_next(5, 41464, 2320406, 1, 768953, 2653753);
    lemma_mpow_next(5, 82929, 768953, 1, 860112, 2653753);
    lemma_mpow_next(5, 165859, 860112, 1, 452387, 2653753);
    lemma_mpow_next(5, 331719, 452387, 0, 1873915, 2653753);
    lemma_mpow_next(5, 663438, 1873915, 0, 2653752, 2653753);
    lemma_mpow_next(5, 1326876, 2653752, 0, 1, 2653753);
}

/// `5^1326876` modulo 2653753.
#[verifier::spinoff_prover]
proof fn lemma_pow_2653753_by_2()
    ensures
        mpow(5, 1326876, 2653753) == 2653752,
{
    lemma_mpow_first(5, 2653753);
    lemma_mpow_next(5, 1, 5, 0, 25, 2653753);
    lemma_mpow_next(5, 2, 25, 1, 3125, 2653753);
    lemma_mpow_next(5, 5, 3125, 0, 1804366, 2653753);
    lemma_mpow_next(5, 10, 1804366, 0, 1023930, 2653753);
    lemma_mpow_next(5, 20, 1023930, 0, 1178425, 2653753);
    lemma_mpow_next(5, 40, 1178425, 0, 419502, 2653753);
    lemma_mpow_next(5, 80, 419502, 1, 2104057, 2653753);
    lemma_mpow_next(5, 161, 2104057, 1, 1765379, 2653753);
    lemma_mpow_next(5, 323, 1765379, 1, 1335982, 2653753);
    lemma_mpow_next(5, 647, 1335982, 1, 2555498, 2653753);
    lemma_mpow_next(5, 1295, 2555498, 1, 1111808, 2653753);
    lemma_mpow_next(5, 2591, 1111808, 1, 2368579, 2653753);
    lemma_mpow_next(5, 5183, 2368579, 0, 2603344, 2653753);
    lemma_mpow_next(5, 10366, 2603344, 0, 1425660, 2653753);
    lemma_mpow_next(5, 20732, 1425660, 0, 2320406, 2653753);
    lemma_mpow_next(5, 41464, 2320406, 1, 768953, 2653753);
    lemma_mpow_next(5, 82929, 768953, 1, 860112, 2653753);
    lemma_mpow_next(5, 165859, 860112, 1, 452387, 2653753);
    lemma_mpow_next(5, 331719, 452387, 0, 1873915, 2653753);
    lemma_mpow_next(5, 663438, 1873915, 0, 2653752, 2653753);
}

/// `5^884584` modulo 2653753.
#[verifier::spinoff_prover]
proof fn lemma_pow_2653753_by_3()
    ensures
        mpow(5, 884584, 2653753) == 2076727,
{
    lemma_mpow_first(5, 2653753);
    lemma_mpow_next(5, 1, 5, 1, 125, 2653753);
    lemma_mpow_next(5, 3, 125, 0, 15625, 2653753);
    lemma_mpow_next(5, 6, 15625, 1, 2630498, 2653753);
    lemma_mpow_next(5, 13, 2630498, 0, 2083166, 2653753);
    lemma_mpow_next(5, 26, 2083166, 1, 1033856, 2653753);
    lemma_mpow_next(5, 53, 1033856, 1, 1473347, 2653753);
    lemma_mpow_next(5, 107, 1473347, 1, 23400, 2653753);
    lemma_mpow_next(5, 215, 23400, 1, 1780657, 2653753);
    lemma_mpow_next(5, 431, 1780657, 1, 1188547, 2653753);
    lemma_mpow_next(5, 863, 1188547, 1, 1486257, 2653753);
    lemma_mpow_next(5, 1727, 1486257, 1, 1436883, 2653753);
    lemma_mpow_next(5, 3455, 1436883, 0, 2306677, 2653753);
    lemma_mpow_next(5, 6910, 2306677, 1, 2352988, 2653753);
    lemma_mpow_next(5, 13821, 2352988, 1, 226064, 2653753);
    lemma_mpow_next(5, 27643, 226064, 0, 1610575, 2653753);
    lemma_mpow_next(5, 55286, 1610575, 1, 464894, 2653753);
    lemma_mpow_next(5, 110573, 464894, 0, 2133163, 2653753);
    lemma_mpow_next(5, 221146, 2133163, 0, 2076728, 2653753);
    lemma_mpow_next(5, 442292, 2076728, 0, 2076727, 2653753);
}

/// `5^24` modulo 2653753.
#[verifier::spinoff_prover]
proof fn lemma_pow_2653753_by_110573()
    ensures
        mpow(5, 24, 2653753) == 401777,
{
    lemma_mpow_first(5, 2653753);
    lemma_mpow_next(5, 1, 5, 1, 125, 2653753);
    lemma_mpow_next(5, 3, 125, 0, 15625, 2653753);
    lemma_mpow_next(5, 6, 15625, 0, 2649102, 2653753);
    lemma_mpow_next(5, 12, 2649102, 0, 401777, 2653753);
}

/// Every nonzero residue modulo 2653753 is a unit, by Lucas's criterion with `5`.
#[verifier::spinoff_prover]
pub proof fn lemma_field_2653753()
    ensures
        field_mod(2653753),
{
    lemma_field_2();
    lemma_field_3();
    lemma_field_110573();
    lemma_pow_2653753_full();
    lemma_pow_2653753_by_2();
    lemma_pow_2653753_by_3();
    lemma_pow_2653753_by_110573();
    let fl = |i: int| if i < 3 { 2nat } else if i < 4 { 3nat } else { 110573nat };
    assert(iprod(0, fl) == 1);
    lemma_iprod_next(0, fl, 1, 2);
    lemma_iprod_next(1, fl, 2, 2);
    lemma_iprod_next(2, fl, 4, 2);
    lemma_iprod_next(3, fl, 8, 3);
    lemma_iprod_next(4, fl, 24, 110573);
    assert forall|j: int| 0 <= j < 5 implies field_mod(#[trigger] fl(j)) && mpow(5, ((2653753 - 1) as nat / fl(j)) as nat, 2653753) != 1 by {
        if j < 3 {
            assert(fl(j) == 2);
            assert((2653753 - 1) as nat / 2 == 1326876);
        } else if j < 4 {
            assert(fl(j) == 3);
            assert((2653753 - 1) as nat / 3 == 884584);
        } else {
            assert(fl(j) == 110573);
            assert((2653753 - 1) as nat / 110573 == 24);
        }
    }
    lemma_lucas(2653753, 5, fl, 5);
}

/// `7^63690072` modulo 63690073.
#[verifier::spinoff_prover]
proof fn lemma_pow_63690073_full()
    ensures
        mpow(7, 63690072, 63690073) == 1,
{
    lemma_mpow_first(7, 63690073);
    lemma_mpow_next(7, 1, 7, 1, 343, 63690073);
    lemma_mpow_next(7, 3, 343, 1, 823543, 63690073);
    lemma_mpow_next(7, 7, 823543, 1, 39778450, 63690073);
    lemma_mpow_next(7, 15, 39778450, 0, 57870353, 63690073);
    lemma_mpow_next(7, 30, 57870353, 0, 33858460, 63690073);
    lemma_mpow_next(7, 60, 33858460, 1, 23229834, 63690073);
    lemma_mpow_next(7, 121, 23229834, 0, 25792427, 63690073);
    lemma_mpow_next(7, 242, 25792427, 1, 62815400, 63690073);
    lemma_mpow_next(7, 485, 62815400, 1, 53900371, 63690073);
    lemma_mpow_next(7, 971, 53900371, 1, 699341, 63690073);
    lemma_mpow_next(7, 1943, 699341, 1, 12345998, 63690073);
    lemma_mpow_next(7, 3887, 12345998, 0, 10701747, 63690073);
    lemma_mpow_next(7, 7774, 10701747, 1, 61364739, 63690073);
    lemma_mpow_next(7, 15549, 61364739, 0, 18394002, 63690073);
    lemma_mpow_next(7, 31098, 18394002, 1, 61238554, 63690073);
    lemma_mpow_next(7, 62197, 61238554, 0, 22738935, 63690073);
    lemma_mpow_next(7, 124394, 22738935, 1, 38695863, 63690073);
    lemma_mpow_next(7, 248789, 38695863, 0, 19806227, 63690073);
    lemma_mpow_next(7, 497578, 19806227, 1, 45513556, 63690073);
    lemma_mpow_next(7, 995157, 45513556, 0, 12951235, 63690073);
    lemma_mpow_next(7, 1990314, 12951235, 1, 16944493, 63690073);
    lemma_mpow_next(7, 3980629, 16944493, 1, 15383386, 63690073);
    lemma_mpow_next(7, 7961259, 15383386, 0, 9954225, 63690073);
    lemma_mpow_next(7, 15922518, 9954225, 0, 63690072, 63690073);
    lemma_mpow_next(7, 31845036, 63690072, 0, 1, 63690073);
}

/// `7^31845036` modulo 63690073.
#[verifier::spinoff_prover]
proof fn lemma_pow_63690073_by_2()
    ensures
        mpow(7, 31845036, 63690073) == 63690072,
{
    lemma_mpow_first(7, 63690073);
    lemma_mpow_next(7, 1, 7, 1, 343, 63690073);
    lemma_mpow_next(7, 3, 343, 1, 823543, 63690073);
    lemma_mpow_next(7, 7, 823543, 1, 39778450, 63690073);
    lemma_mpow_next(7, 15, 39778450, 0, 57870353, 63690073);
    lemma_mpow_next(7, 30, 57870353, 0, 33858460, 63690073);
    lemma_mpow_next(7, 60, 33858460, 1, 23229834, 63690073);
    lemma_mpow_next(7, 121, 23229834, 0, 25792427, 63690073);
    lemma_mpow_next(7, 242, 25792427, 1, 62815400, 63690073);
    lemma_mpow_next(7, 485, 62815400, 1, 53900371, 63690073);
    lemma_mpow_next(7, 971, 53900371, 1, 699341, 63690073);
    lemma_mpow_next(7, 1943, 699341, 1, 12345998, 63690073);
    lemma_mpow_next(7, 3887, 12345998, 0, 10701747, 63690073);
    lemma_mpow_next(7, 7774, 10701747, 1, 61364739, 63690073);
    lemma_mpow_next(7, 15549, 61364739, 0, 18394002, 63690073);
    lemma_mpow_next(7, 31098, 18394002, 1, 61238554, 63690073);
    lemma_mpow_next(7, 62197, 61238554, 0, 22738935, 63690073);
    lemma_mpow_next(7, 124394, 22738935, 1, 38695863, 63690073);
    lemma_mpow_next(7, 248789, 38695863, 0, 19806227, 63690073);
    lemma_mpow_next(7, 497578, 19806227, 1, 45513556, 63690073);
    lemma_mpow_next(7, 995157, 45513556, 0, 12951235, 63690073);
    lemma_mpow_next(7, 1990314, 12951235, 1, 16944493, 63690073);
    lemma_mpow_next(7, 3980629, 16944493, 1, 15383386, 63690073);
    lemma_mpow_next(7, 7961259, 15383386, 0, 9954225, 63690073);
    lemma_mpow_next(7, 15922518, 9954225, 0, 63690072, 63690073);
}

/// `7^21230024` modulo 63690073.
#[verifier::spinoff_prover]
proof fn lemma_pow_63690073_by_3()
    ensures
        mpow(7, 21230024, 63690073) == 2527736,
{
    lemma_mpow_first(7, 63690073);
    lemma_mpow_next(7, 1, 7, 0, 49, 63690073);
    lemma_mpow_next(7, 2, 49, 1, 16807, 63690073);
    lemma_mpow_next(7, 5, 16807, 0, 27714957, 63690073);
    lemma_mpow_next(7, 10, 27714957, 0, 1712869, 63690073);
    lemma_mpow_next(7, 20, 1712869, 0, 36998416, 63690073);
    lemma_mpow_next(7, 40, 36998416, 0, 8779181, 63690073);
    lemma_mpow_next(7, 80, 8779181, 1, 34352911, 63690073);
    lemma_mpow_next(7, 161, 34352911, 1, 39755228, 63690073);
    lemma_mpow_next(7, 323, 39755228, 1, 17066764, 63690073);
    lemma_mpow_next(7, 647, 17066764, 1, 27140608, 63690073);
    lemma_mpow_next(7, 1295, 27140608, 1, 31616560, 63690073);
    lemma_mpow_next(7, 2591, 31616560, 1, 36551083, 63690073);
    lemma_mpow_next(7, 5183, 36551083, 0, 36033500, 63690073);
    lemma_mpow_next(7, 10366, 36033500, 0, 34720756, 63690073);
    lemma_mpow_next(7, 20732, 34720756, 0, 36571623, 63690073);
    lemma_mpow_next(7, 41464, 36571623, 1, 5032486, 63690073);
    lemma_mpow_next(7, 82929, 5032486, 1, 25495799, 63690073);
    lemma_mpow_next(7, 165859, 25495799, 1, 38003452, 63690073);
    lemma_mpow_next(7, 331719, 38003452, 0, 28258228, 63690073);
    lemma_mpow_next(7, 663438, 28258228, 0, 39307446, 63690073);
    lemma_mpow_next(7, 1326876, 39307446, 1, 42098405, 63690073);
    lemma_mpow_next(7, 2653753, 42098405, 0, 2115072, 63690073);
    lemma_mpow_next(7, 5307506, 2115072, 0, 2527737, 63690073);
    lemma_mpow_next(7, 10615012, 2527737, 0, 2527736, 63690073);
}

/// `7^24` modulo 63690073.
#[verifier::spinoff_prover]
proof fn lemma_pow_63690073_by_2653753()
    ensures
        mpow(7, 24, 63690073) == 36433797,
{
    lemma_mpow_first(7, 63690073);
    lemma_mpow_next(7, 1, 7, 1, 343, 63690073);
    lemma_mpow_next(7, 3, 343, 0, 117649, 63690073);
    lemma_mpow_next(7, 6, 117649, 0, 20541360, 63690073);
    lemma_mpow_next(7, 12, 20541360, 0, 36433797, 63690073);
}

/// Every nonzero residue modulo 63690073 is a unit, by Lucas's criterion with `7`.
#[verifier::spinoff_prover]
pub proof fn lemma_field_63690073()
    ensures
        field_mod(63690073),
{
    lemma_field_2();
    lemma_field_3();
    lemma_field_2653753();
    lemma_pow_63690073_full();
    lemma_pow_63690073_by_2();
    lemma_pow_63690073_by_3();
    lemma_pow_63690073_by_2653753();
    let fl = |i: int| if i < 3 { 2nat } else if i < 4 { 3nat } else { 2653753nat };
    assert(iprod(0, fl) == 1);
    lemma_iprod_next(0, fl, 1, 2);
    lemma_iprod_next(1, fl, 2, 2);
    lemma_iprod_next(2, fl, 4, 2);
    lemma_iprod_next(3, fl, 8, 3);
    lemma_iprod_next(4, fl, 24, 2653753);
    assert forall|j: int| 0 <= j < 5 implies field_mod(#[trigger] fl(j)) && mpow(7, ((63690073 - 1) as nat / fl(j)) as nat, 63690073) != 1 by {
        if j < 3 {
            assert(fl(j) == 2);
            assert((63690073 - 1) as nat / 2 == 31845036);
        } else if j < 4 {
            assert(fl(j) == 3);
            assert((63690073 - 1) as nat / 3 == 21230024);
        } else {
            assert(fl(j) == 2653753);
            assert((63690073 - 1) as nat / 2653753 == 24);
        }
    }
    lemma_lucas(63690073, 7, fl, 5);
}

/// `2^254760292` modulo 254760293.
#[verifier::spinoff_prover]
proof fn lemma_pow_254760293_full()
    ensures
        mpow(2, 254760292, 254760293) == 1,
{
    lemma_mpow_first(2, 254760293);
    lemma_mpow_next(2, 1, 2, 1, 8, 254760293);
    lemma_mpow_next(2, 3, 8, 1, 128, 254760293);
    lemma_mpow_next(2, 7, 128, 1, 32768, 254760293);
    lemma_mpow_next(2, 15, 32768, 0, 54700652, 254760293);
    lemma_mpow_next(2, 30, 54700652, 0, 159378346, 254760293);
    lemma_mpow_next(2, 60, 159378346, 1, 65722422, 254760293);
    lemma_mpow_next(2, 121, 65722422, 0, 187958919, 254760293);
    lemma_mpow_next(2, 242, 187958919, 1, 226542769, 254760293);
    lemma_mpow_next(2, 485, 226542769, 1, 153334994, 254760293);
    lemma_mpow_next(2, 971, 153334994, 1, 128256490, 254760293);
    lemma_mpow_next(2, 1943, 128256490, 1, 133433634, 254760293);
    lemma_mpow_next(2, 3887, 133433634, 0, 181437756, 254760293);
    lemma_mpow_next(2, 7774, 181437756, 1, 140102573, 254760293);
    lemma_mpow_next(2, 15549, 140102573, 0, 158282623, 254760293);
    lemma_mpow_next(2, 31098, 158282623, 1, 37398729, 254760293);
    lemma_mpow_next(2, 62197, 37398729, 0, 96249988, 254760293);
    lemma_mpow_next(2, 124394, 96249988, 1, 154435615, 254760293);
    lemma_mpow_next(2, 248789, 154435615, 0, 147872793, 254760293);
    lemma_mpow_next(2, 497578, 147872793, 1, 202681862, 254760293);
    lemma_mpow_next(2, 995157, 202681862, 0, 181761341, 254760293);
    lemma_mpow_next(2, 1990314, 181761341, 1, 172495129, 254760293);
    lemma_mpow_next(2, 3980629, 172495129, 1, 156428946, 254760293);
    lemma_mpow_next(2, 7961259, 156428946, 0, 105848654, 254760293);
    lemma_mpow_next(2, 15922518, 105848654, 0, 221955166, 254760293);
    lemma_mpow_next(2, 31845036, 221955166, 1, 189150038, 254760293);
    lemma_mpow_next(2, 63690073, 189150038, 0, 254760292, 254760293);
    lemma_mpow_next(2, 127380146, 254760292, 0, 1, 254760293);
}

/// `2^127380146` modulo 254760293.
#[verifier::spinoff_prover]
proof fn lemma_pow_254760293_by_2()
    ensures
        mpow(2, 127380146, 254760293) == 254760292,
{
    lemma_mpow_first(2, 254760293);
    lemma_mpow_next(2, 1, 2, 1, 8, 254760293);
    lemma_mpow_next(2, 3, 8, 1, 128, 254760293);
    lemma_mpow_next(2, 7, 128, 1, 32768, 254760293);
    lemma_mpow_next(2, 15, 32768, 0, 54700652, 254760293);
    lemma_mpow_next(2, 30, 54700652, 0, 159378346, 254760293);
    lemma_mpow_next(2, 60, 159378346, 1, 65722422, 254760293);
    lemma_mpow_next(2, 121, 65722422, 0, 187958919, 254760293);
    lemma_mpow_next(2, 242, 187958919, 1, 226542769, 254760293);
    lemma_mpow_next(2, 485, 226542769, 1, 153334994, 254760293);
    lemma_mpow_next(2, 971, 153334994, 1, 128256490, 254760293);
    lemma_mpow_next(2, 1943, 128256490, 1, 133433634, 254760293);
    lemma_mpow_next(2, 3887, 133433634, 0, 181437756, 254760293);
    lemma_mpow_next(2, 7774, 181437756, 1, 140102573, 254760293);
    lemma_mpow_next(2, 15549, 140102573, 0, 158282623, 254760293);
    lemma_mpow_next(2, 31098, 158282623, 1, 37398729, 254760293);
    lemma_mpow_next(2, 62197, 37398729, 0, 96249988, 254760293);
    lemma_mpow_next(2, 124394, 96249988, 1, 154435615, 254760293);
    lemma_mpow_next(2, 248789, 154435615, 0, 147872793, 254760293);
    lemma_mpow_next(2, 497578, 147872793, 1, 202681862, 254760293);
    lemma_mpow_next(2, 995157, 202681862, 0, 181761341, 254760293);
    lemma_mpow_next(2, 1990314, 181761341, 1, 172495129, 254760293);
    lemma_mpow_next(2, 3980629, 172495129, 1, 156428946, 254760293);
    lemma_mpow_next(2, 7961259, 156428946, 0, 105848654, 254760293);
    lemma_mpow_next(2, 15922518, 105848654, 0, 221955166, 254760293);
    lemma_mpow_next(2, 31845036, 221955166, 1, 189150038, 254760293);
    lemma_mpow_next(2, 63690073, 189150038, 0, 254760292, 254760293);
}

/// `2^4` modulo 254760293.
#[verifier::spinoff_prover]
proof fn lemma_pow_254760293_by_63690073()
    ensures
        mpow(2, 4, 254760293) == 16,
{
    lemma_mpow_first(2, 254760293);
    lemma_mpow_next(2, 1, 2, 0, 4, 254760293);
    lemma_mpow_next(2, 2, 4, 0, 16, 254760293);
}

/// Every nonzero residue modulo 254760293 is a unit, by Lucas's criterion with `2`.
#[verifier::spinoff_prover]
pub proof fn lemma_field_254760293()
    ensures
        field_mod(254760293),
{
    lemma_field_2();
    lemma_field_63690073();
    lemma_pow_254760293_full();
    lemma_pow_254760293_by_2();
    lemma_pow_254760293_by_63690073();
    let fl = |i: int| if i < 2 { 2nat } else { 63690073nat };
    assert(iprod(0, fl) == 1);
    lemma_iprod_next(0, fl, 1, 2);
    lemma_iprod_next(1, fl, 2, 2);
    lemma_iprod_next(2, fl, 4, 63690073);
    assert forall|j: int| 0 <= j < 3 implies field_mod(#[trigger] fl(j)) && mpow(2, ((254760293 - 1) as nat / fl(j)) as nat, 254760293) != 1 by {
        if j < 2 {
            assert(fl(j) == 2);
            assert((254760293 - 1) as nat / 2 == 127380146);
        } else {
            assert(fl(j) == 63690073);
            assert((254760293 - 1) as nat / 63690073 == 4);
        }
    }
    lemma_lucas(254760293, 2, fl, 3);
}

/// Squarings 1 to 16 of the power below.
#[verifier::spinoff_prover]
#[verifier::rlimit(50)]
proof fn lemma_pow_order_by_2_part0()
    requires
        mpow(7, 1, modulus()) == 7,
    ensures
        mpow(7, 118710, modulus()) == 22816540351633602738192130541066621712366663107624345430205656830477168492618nat,
{
    lemma_mpow_next(7, 1, 7, 1, 343, modulus());
    lemma_mpow_next(7, 3, 343, 1, 823543, modulus());
    lemma_mpow_next(7, 7, 823543, 0, 678223072849, modulus());
    lemma_mpow_next(7, 14, 678223072849, 0, 459986536544739960976801nat, modulus());
    lemma_mpow_next(7, 28, 459986536544739960976801nat, 1, 1481113296616977741464105532513750734030421355207nat, modulus());
    lemma_mpow_next(7, 57, 1481113296616977741464105532513750734030421355207nat, 1, 50812959634798886647946896004561157400029061343721986663699157761528182262319nat, modulus());
    lemma_mpow_next(7, 115, 50812959634798886647946896004561157400029061343721986663699157761528182262319nat, 1, 43052992836175641204287124766852548125670877822609131470897959595288986996010nat, modulus());
    lemma_mpow_next(7, 231, 43052992836175641204287124766852548125670877822609131470897959595288986996010nat, 1, 46460523878899133695987356687739964248955257032461749418494916568605936171475nat, modulus());
    lemma_mpow_next(7, 463, 46460523878899133695987356687739964248955257032461749418494916568605936171475nat, 1, 20071117275329597944528306465045640192165886227770137128872635422258972007265nat, modulus());
    lemma_mpow_next(7, 927, 20071117275329597944528306465045640192165886227770137128872635422258972007265nat, 0, 46310834301184855689776880926486663263207947624631662199286124021737585626228nat, modulus());
    lemma_mpow_next(7, 1854, 46310834301184855689776880926486663263207947624631662199286124021737585626228nat, 1, 10197276943159012553273366649165975643584278654061065206792596747390185438861nat, modulus());
    lemma_mpow_next(7, 3709, 10197276943159012553273366649165975643584278654061065206792596747390185438861nat, 1, 13431437839960019589404610549249061508729351596255741380795413501395783689639nat, modulus());
    lemma_mpow_next(7, 7419, 13431437839960019589404610549249061508729351596255741380795413501395783689639nat, 0, 37891154123899018532623533129818841122258047686394048270712783308439375410392nat, modulus());
    lemma_mpow_next(7, 14838, 37891154123899018532623533129818841122258047686394048270712783308439375410392nat, 1, 14347835172965473863033084039200119740040465831312137516115477316407846868042nat, modulus());
    lemma_mpow_next(7, 29677, 14347835172965473863033084039200119740040465831312137516115477316407846868042nat, 1, 22582111284226769210993376805781461855896534947161334723399090286184138399724nat, modulus());
    lemma_mpow_next(7, 59355, 22582111284226769210993376805781461855896534947161334723399090286184138399724nat, 0, 22816540351633602738192130541066621712366663107624345430205656830477168492618nat, modulus());
}

/// Squarings 17 to 32 of the power below.
#[verifier::spinoff_prover]
#[verifier::rlimit(50)]
proof fn lemma_pow_order_by_2_part1()
    requires
        mpow(7, 118710, modulus()) == 22816540351633602738192130541066621712366663107624345430205656830477168492618nat,
    ensures
        mpow(7, 7779818828, modulus()) == 10150605306331240441937819007687316038997203598771093090557901838603731746605nat,
{
    lemma_mpow_next(7, 118710, 22816540351633602738192130541066621712366663107624345430205656830477168492618nat, 1, 25010740654137382887681974789337995051740031460663375676004501763984509516415nat, modulus());
    lemma_mpow_next(7, 237421, 25010740654137382887681974789337995051740031460663375676004501763984509516415nat, 0, 31535378746210068166376978443802018445901671804246729203715267642439510779338nat, modulus());
    lemma_mpow_next(7, 474842, 31535378746210068166376978443802018445901671804246729203715267642439510779338nat, 0, 12333807453290692423819548880496570513589846300918924925346028745529403197987nat, modulus());
    lemma_mpow_next(7, 949684, 12333807453290692423819548880496570513589846300918924925346028745529403197987nat, 1, 44881336919244681448480810312773607757274225662442272623329356618898640995967nat, modulus());
    lemma_mpow_next(7, 1899369, 44881336919244681448480810312773607757274225662442272623329356618898640995967nat, 1, 40699069628139919370514693981070913000587570843629946279369053837430084134637nat, modulus());
    lemma_mpow_next(7, 3798739, 40699069628139919370514693981070913000587570843629946279369053837430084134637nat, 1, 51952376253812673265732412005851436247931678807156493457568461864570347614267nat, modulus());
    lemma_mpow_next(7, 7597479, 51952376253812673265732412005851436247931678807156493457568461864570347614267nat, 0, 27709021390842213128629326074905577550131738051915234559593492240391079732111nat, modulus());
    lemma_mpow_next(7, 15194958, 27709021390842213128629326074905577550131738051915234559593492240391079732111nat, 1, 47791987846355897988884122250528721661649083318960009073962462666272474309215nat, modulus());
    lemma_mpow_next(7, 30389917, 47791987846355897988884122250528721661649083318960009073962462666272474309215nat, 0, 26931571879365494740192310469584173294560702997338007338003900692018908369379nat, modulus());
    lemma_mpow_next(7, 60779834, 26931571879365494740192310469584173294560702997338007338003900692018908369379nat, 1, 22087431366097330222119942327715581974590672885760721692330702459508896909672nat, modulus());
    lemma_mpow_next(7, 121559669, 22087431366097330222119942327715581974590672885760721692330702459508896909672nat, 0, 32900095547027742790147756438831676050035588852495931795248174319483974918012nat, modulus());
    lemma_mpow_next(7, 243119338, 32900095547027742790147756438831676050035588852495931795248174319483974918012nat, 0, 6338257377187619480922960761350821061868224835500540596173938196809178259424nat, modulus());
    lemma_mpow_next(7, 486238676, 6338257377187619480922960761350821061868224835500540596173938196809178259424nat, 1, 13103244856955763806548267172708349413265144626695697604684572309003514394361nat, modulus());
    lemma_mpow_next(7, 972477353, 13103244856955763806548267172708349413265144626695697604684572309003514394361nat, 1, 2526808823005373797174447963095479949139728424835878967499012127195204095373nat, modulus());
    lemma_mpow_next(7, 1944954707, 2526808823005373797174447963095479949139728424835878967499012127195204095373nat, 0, 33589990193086100029993441932406533457785957405795203383976668752525674407757nat, modulus());
    lemma_mpow_next(7, 3889909414, 33589990193086100029993441932406533457785957405795203383976668752525674407757nat, 0, 10150605306331240441937819007687316038997203598771093090557901838603731746605nat, modulus());
}

/// Squarings 33 to 48 of the power below.
#[verifier::spinoff_prover]
#[verifier::rlimit(50)]
proof fn lemma_pow_order_by_2_part2()
    requires
        mpow(7, 7779818828, modulus()) == 10150605306331240441937819007687316038997203598771093090557901838603731746605nat,
    ensures
        mpow(7, 509858206754421, modulus()) == 8796384226471656762541333576857795885562154788817511438249804720186062002441nat,
{
    lemma_mpow_next(7, 7779818828, 10150605306331240441937819007687316038997203598771093090557901838603731746605nat, 1, 28638047976808316964275216189127909172374786801419746382731369038106030763862nat, modulus());
    lemma_mpow_next(7, 15559637657, 28638047976808316964275216189127909172374786801419746382731369038106030763862nat, 0, 37100679812520719956698407783306023094283257414602917128225778234092011481356nat, modulus());
    lemma_mpow_next(7, 31119275314, 37100679812520719956698407783306023094283257414602917128225778234092011481356nat, 1, 19886396760129902492196237028897736715633364878274704541571680573978000826709nat, modulus());
    lemma_mpow_next(7, 62238550629, 19886396760129902492196237028897736715633364878274704541571680573978000826709nat, 0, 50297304383077481868165198493211079897914074961879868443490505621345974652915nat, modulus());
    lemma_mpow_next(7, 124477101258, 50297304383077481868165198493211079897914074961879868443490505621345974652915nat, 0, 24847965371090380337960874254127657045387767484021582603484925518107218967402nat, modulus());
    lemma_mpow_next(7, 248954202516, 24847965371090380337960874254127657045387767484021582603484925518107218967402nat, 1, 25117426549959376921652756820133717039028974363434382187968249731445426098870nat, modulus());
    lemma_mpow_next(7, 497908405033, 25117426549959376921652756820133717039028974363434382187968249731445426098870nat, 1, 10317907942793712342599724973569841966288086962130053029495427176918064444688nat, modulus());
    lemma_mpow_next(7, 995816810067, 10317907942793712342599724973569841966288086962130053029495427176918064444688nat, 0, 29925677593997698923132654374637653498477698703767858753811036595634963234104nat, modulus());
    lemma_mpow_next(7, 1991633620134, 29925677593997698923132654374637653498477698703767858753811036595634963234104nat, 0, 30984642125362226158170552826376047725164738928651673846415123121306690841492nat, modulus());
    lemma_mpow_next(7, 3983267240268, 30984642125362226158170552826376047725164738928651673846415123121306690841492nat, 1, 8776411495517646501078227222350850928284293915788283702100199016651135073692nat, modulus());
    lemma_mpow_next(7, 7966534480537, 8776411495517646501078227222350850928284293915788283702100199016651135073692nat, 1, 16334498892271926813686035995985333424589922628815706786147580843004757558972nat, modulus());
    lemma_mpow_next(7, 15933068961075, 16334498892271926813686035995985333424589922628815706786147580843004757558972nat, 1, 16662167121720172397775424717515234668307909792228464973243125581951564248940nat, modulus());
    lemma_mpow_next(7, 31866137922151, 16662167121720172397775424717515234668307909792228464973243125581951564248940nat, 0, 12789856499364335502767009450859331604700211572807240670940040426699461586095nat, modulus());
    lemma_mpow_next(7, 63732275844302, 12789856499364335502767009450859331604700211572807240670940040426699461586095nat, 1, 34403836004423702438555964152452007720155779881266299735849353170574363785152nat, modulus());
    lemma_mpow_next(7, 127464551688605, 34403836004423702438555964152452007720155779881266299735849353170574363785152nat, 0, 3017821443302668513410711684817721249974028986540096669949570767226965458417nat, modulus());
    lemma_mpow_next(7, 254929103377210, 3017821443302668513410711684817721249974028986540096669949570767226965458417nat, 1, 8796384226471656762541333576857795885562154788817511438249804720186062002441nat, modulus());
}

/// Squarings 49 to 64 of the power below.
#[verifier::spinoff_prover]
#[verifier::rlimit(50)]
proof fn lemma_pow_order_by_2_part3()
    requires
        mpow(7, 509858206754421, modulus()) == 8796384226471656762541333576857795885562154788817511438249804720186062002441nat,
    ensures
        mpow(7, 33414067437857797408nat, modulus()) == 4657578438477497526011666404425691202604317455406874705372936749212068589018nat,
{
    lemma_mpow_next(7, 509858206754421, 8796384226471656762541333576857795885562154788817511438249804720186062002441nat, 1, 33990011299677401968082520849595712494149118135409629991881203618783579379142nat, modulus());
    lemma_mpow_next(7, 1019716413508843, 33990011299677401968082520849595712494149118135409629991881203618783579379142nat, 1, 31497111077883483530421911333661905148317039009951516868592792576893561696826nat, modulus());
    lemma_mpow_next(7, 2039432827017687, 31497111077883483530421911333661905148317039009951516868592792576893561696826nat, 1, 4619695985380765690080265803041057798597586882019405616974535775836568208381nat, modulus());
    lemma_mpow_next(7, 4078865654035375, 4619695985380765690080265803041057798597586882019405616974535775836568208381nat, 1, 27563809226258302456832040571597077413473141779755403281714696506545559632484nat, modulus());
    lemma_mpow_next(7, 8157731308070751, 27563809226258302456832040571597077413473141779755403281714696506545559632484nat, 0, 44661102871155277717782349443448644733480483784987523149512827103810545135079nat, modulus());
    lemma_mpow_next(7, 16315462616141502, 44661102871155277717782349443448644733480483784987523149512827103810545135079nat, 1, 40373193841024578025190287323777666423306333795241090276362664318259754304254nat, modulus());
    lemma_mpow_next(7, 32630925232283005, 40373193841024578025190287323777666423306333795241090276362664318259754304254nat, 0, 8793409015524651562977129810873344359790030995341499311913894491807768443663nat, modulus());
    lemma_mpow_next(7, 65261850464566010, 8793409015524651562977129810873344359790030995341499311913894491807768443663nat, 1, 26706463779542849200410041322618087935261705815042524575252946409190233973831nat, modulus());
    lemma_mpow_next(7, 130523700929132021, 26706463779542849200410041322618087935261705815042524575252946409190233973831nat, 0, 20208610612304078104857579435534307978543889498570469963486099926410269801971nat, modulus());
    lemma_mpow_next(7, 261047401858264042, 20208610612304078104857579435534307978543889498570469963486099926410269801971nat, 0, 22271208203811712892065603975171476400575243446436565825002129509164270574220nat, modulus());
    lemma_mpow_next(7, 522094803716528084, 22271208203811712892065603975171476400575243446436565825002129509164270574220nat, 1, 23934916166564276492379061587509527099531688934518240374057636237779616605637nat, modulus());
    lemma_mpow_next(7, 1044189607433056169nat, 23934916166564276492379061587509527099531688934518240374057636237779616605637nat, 0, 16997562554633069491027547104628413592728860559060324608741804946701517626228nat, modulus());
    lemma_mpow_next(7, 2088379214866112338nat, 16997562554633069491027547104628413592728860559060324608741804946701517626228nat, 0, 10849406125948736573694375775135659237417726401501653842901790078275768873847nat, modulus());
    lemma_mpow_next(7, 4176758429732224676nat, 10849406125948736573694375775135659237417726401501653842901790078275768873847nat, 0, 565288174552152271382022056477377743536699998195153647960848897446522389495nat, modulus());
    lemma_mpow_next(7, 8353516859464449352nat, 565288174552152271382022056477377743536699998195153647960848897446522389495nat, 0, 6954981720455459529914825488024541800088992844792280731759706829297719119123nat, modulus());
    lemma_mpow_next(7, 16707033718928898704nat, 6954981720455459529914825488024541800088992844792280731759706829297719119123nat, 0, 4657578438477497526011666404425691202604317455406874705372936749212068589018nat, modulus());
}

/// Squarings 65 to 80 of the power below.
#[verifier::spinoff_prover]
#[verifier::rlimit(50)]
proof fn lemma_pow_order_by_2_part4()
    requires
        mpow(7, 33414067437857797408nat, modulus()) == 4657578438477497526011666404425691202604317455406874705372936749212068589018nat,
    ensures
        mpow(7, 2189824323607448610983143nat, modulus()) == 41945473556435827182775198126269713213109501154821287954778351034972582923583nat,
{
    lemma_mpow_next(7, 33414067437857797408nat, 4657578438477497526011666404425691202604317455406874705372936749212068589018nat, 1, 14964758027366108352274588213784498998525468339507792387660405062707508651450nat, modulus());
    lemma_mpow_next(7, 66828134875715594817nat, 14964758027366108352274588213784498998525468339507792387660405062707508651450nat, 1, 23425686325917846270897495180160796744734593067956641557023436880805560142064nat, modulus());
    lemma_mpow_next(7, 133656269751431189635nat, 23425686325917846270897495180160796744734593067956641557023436880805560142064nat, 0, 5053398502294102117630388466461251538804435003181271277742179693191615895625nat, modulus());
    lemma_mpow_next(7, 267312539502862379270nat, 5053398502294102117630388466461251538804435003181271277742179693191615895625nat, 0, 39943013088723629852982319558761706776467528578223889287145769839448371371264nat, modulus());
    lemma_mpow_next(7, 534625079005724758540nat, 39943013088723629852982319558761706776467528578223889287145769839448371371264nat, 1, 20768197206167619629460651062515653030548494122320160971031635938913366702812nat, modulus());
    lemma_mpow_next(7, 1069250158011449517081nat, 20768197206167619629460651062515653030548494122320160971031635938913366702812nat, 1, 24571893010855614934063231611460299117618887489813918134487090635242448415354nat, modulus());
    lemma_mpow_next(7, 2138500316022899034163nat, 24571893010855614934063231611460299117618887489813918134487090635242448415354nat, 0, 1921065008112394845114692780022855649047464802324335048775994628093095345830nat, modulus());
    lemma_mpow_next(7, 4277000632045798068326nat, 1921065008112394845114692780022855649047464802324335048775994628093095345830nat, 0, 20211043734294855002994916478447835319796151361574642952941447308393405313716nat, modulus());
    lemma_mpow_next(7, 8554001264091596136652nat, 20211043734294855002994916478447835319796151361574642952941447308393405313716nat, 1, 22213438864729720497967262048603795859374732042237315948251570798254784213256nat, modulus());
    lemma_mpow_next(7, 17108002528183192273305nat, 22213438864729720497967262048603795859374732042237315948251570798254784213256nat, 1, 10976846537693332356911523268348386138100679047422367152936488733980975977003nat, modulus());
    lemma_mpow_next(7, 34216005056366384546611nat, 10976846537693332356911523268348386138100679047422367152936488733980975977003nat, 1, 39280113577977105893946817800220373774895800135254775287971735906521219617964nat, modulus());
    lemma_mpow_next(7, 68432010112732769093223nat, 39280113577977105893946817800220373774895800135254775287971735906521219617964nat, 0, 37167175286514574705811928457362264955584123510870705631336382075456213737660nat, modulus());
    lemma_mpow_next(7, 136864020225465538186446nat, 37167175286514574705811928457362264955584123510870705631336382075456213737660nat, 0, 36712270636867509138454966699446650458662825142398861936643824109726493524275nat, modulus());
    lemma_mpow_next(7, 273728040450931076372892nat, 36712270636867509138454966699446650458662825142398861936643824109726493524275nat, 1, 15433183569551983735111267301027695917601047432844765533343475422999966846079nat, modulus());
    lemma_mpow_next(7, 547456080901862152745785nat, 15433183569551983735111267301027695917601047432844765533343475422999966846079nat, 1, 47479687863939371880165516219330777810064587034120969046479772603140890960906nat, modulus());
    lemma_mpow_next(7, 1094912161803724305491571nat, 47479687863939371880165516219330777810064587034120969046479772603140890960906nat, 1, 41945473556435827182775198126269713213109501154821287954778351034972582923583nat, modulus());
}

/// Squarings 81 to 96 of the power below.
#[verifier::spinoff_prover]
#[verifier::rlimit(50)]
proof fn lemma_pow_order_by_2_part5()
    requires
        mpow(7, 2189824323607448610983143nat, modulus()) == 41945473556435827182775198126269713213109501154821287954778351034972582923583nat,
    ensures
        mpow(7, 143512326871937752169391284256nat, modulus()) == 19808391940299695280421066020666180166280141364439361754570393626483478651576nat,
{
    lemma_mpow_next(7, 2189824323607448610983143nat, 41945473556435827182775198126269713213109501154821287954778351034972582923583nat, 0, 20978249366510441623630856408123427597574838307176931582360647538956887640051nat, modulus());
    lemma_mpow_next(7, 4379648647214897221966286nat, 20978249366510441623630856408123427597574838307176931582360647538956887640051nat, 1, 3957653391360717405892493203175109804293249520883102714012034004273627860401nat, modulus());
    lemma_mpow_next(7, 8759297294429794443932573nat, 3957653391360717405892493203175109804293249520883102714012034004273627860401nat, 1, 50653815827534072107359998740535554248502972264382356357123800174392647886140nat, modulus());
    lemma_mpow_next(7, 17518594588859588887865147nat, 50653815827534072107359998740535554248502972264382356357123800174392647886140nat, 0, 30755038176274359538707700483094758817941076190119439227326562709452047673514nat, modulus());
    lemma_mpow_next(7, 35037189177719177775730294nat, 30755038176274359538707700483094758817941076190119439227326562709452047673514nat, 0, 34214885581098000336948158268434676012155604033277062518785966397810258439228nat, modulus());
    lemma_mpow_next(7, 70074378355438355551460588nat, 34214885581098000336948158268434676012155604033277062518785966397810258439228nat, 0, 38019113707809371032489532029213613753089180651533624521192486947878628947025nat, modulus());
    lemma_mpow_next(7, 140148756710876711102921176nat, 38019113707809371032489532029213613753089180651533624521192486947878628947025nat, 0, 29278592656628395002788119143040239854733453413021109174616804613724436606335nat, modulus());
    lemma_mpow_next(7, 280297513421753422205842352nat, 29278592656628395002788119143040239854733453413021109174616804613724436606335nat, 0, 37935520921000092017666583823337636937716882453404269097902628930753486591623nat, modulus());
    lemma_mpow_next(7, 560595026843506844411684704nat, 37935520921000092017666583823337636937716882453404269097902628930753486591623nat, 0, 10454702271275726019778020656573353131886920485386831311893670601877760291828nat, modulus());
    lemma_mpow_next(7, 1121190053687013688823369408nat, 10454702271275726019778020656573353131886920485386831311893670601877760291828nat, 0, 47914997526756992310922113611061941628351932418964410845403981778185161728044nat, modulus());
    lemma_mpow_next(7, 2242380107374027377646738816nat, 47914997526756992310922113611061941628351932418964410845403981778185161728044nat, 1, 48601639136133483904924004256735808352216691416052356216858627487181337603365nat, modulus());
    lemma_mpow_next(7, 4484760214748054755293477633nat, 48601639136133483904924004256735808352216691416052356216858627487181337603365nat, 0, 32967251891899736109226602016829831778896761804446605788042773073206016019764nat, modulus());
    lemma_mpow_next(7, 8969520429496109510586955266nat, 32967251891899736109226602016829831778896761804446605788042773073206016019764nat, 0, 46128211719031117817636756526063442915821103915037345444815038297954215832686nat, modulus());
    lemma_mpow_next(7, 17939040858992219021173910532nat, 46128211719031117817636756526063442915821103915037345444815038297954215832686nat, 0, 21835199336475517559214094233420530427943091092922032493258427531138530132224nat, modulus());
    lemma_mpow_next(7, 35878081717984438042347821064nat, 21835199336475517559214094233420530427943091092922032493258427531138530132224nat, 0, 22911856994951417649797468856834865822935193483496118530613350554390725161612nat, modulus());
    lemma_mpow_next(7, 71756163435968876084695642128nat, 22911856994951417649797468856834865822935193483496118530613350554390725161612nat, 0, 19808391940299695280421066020666180166280141364439361754570393626483478651576nat, modulus());
}

/// Squarings 97 to 112 of the power below.
#[verifier::spinoff_prover]
#[verifier::rlimit(50)]
proof fn lemma_pow_order_by_2_part6()
    requires
        mpow(7, 143512326871937752169391284256nat, modulus()) == 19808391940299695280421066020666180166280141364439361754570393626483478651576nat,
    ensures
        mpow(7, 9405223853879312526173227205011079nat, modulus()) == 52368486005004445901498289157249767680214224095034561656939864186894412298180nat,
{
    lemma_mpow_next(7, 143512326871937752169391284256nat, 19808391940299695280421066020666180166280141364439361754570393626483478651576nat, 0, 15348500761666122565476729953358925948367101297482630554562635813521755256813nat, modulus());
    lemma_mpow_next(7, 287024653743875504338782568512nat, 15348500761666122565476729953358925948367101297482630554562635813521755256813nat, 0, 23278330897705588261350485006070682381231933991218796140719356708354887460247nat, modulus());
    lemma_mpow_next(7, 574049307487751008677565137024nat, 23278330897705588261350485006070682381231933991218796140719356708354887460247nat, 1, 17852835421085039806092975082685171883028933461015151488813550901532442796981nat, modulus());
    lemma_mpow_next(7, 1148098614975502017355130274049nat, 17852835421085039806092975082685171883028933461015151488813550901532442796981nat, 0, 22595109106074254807980650404784657385676579005013171773178992831804177347804nat, modulus());
    lemma_mpow_next(7, 2296197229951004034710260548098nat, 22595109106074254807980650404784657385676579005013171773178992831804177347804nat, 0, 17342184332947129451303380139207664341301261883403338177298215028680260939341nat, modulus());
    lemma_mpow_next(7, 4592394459902008069420521096196nat, 17342184332947129451303380139207664341301261883403338177298215028680260939341nat, 1, 38765884796435018477635328808594593042733872593092892367526099213547604231239nat, modulus());
    lemma_mpow_next(7, 9184788919804016138841042192393nat, 38765884796435018477635328808594593042733872593092892367526099213547604231239nat, 1, 46828989919870775322971766809448387472830860934238026767657575719276701196623nat, modulus());
    lemma_mpow_next(7, 18369577839608032277682084384787nat, 46828989919870775322971766809448387472830860934238026767657575719276701196623nat, 0, 18996739460515147076423455509054172907975932597312516419520789543006076186614nat, modulus());
    lemma_mpow_next(7, 36739155679216064555364168769574nat, 18996739460515147076423455509054172907975932597312516419520789543006076186614nat, 1, 22422701847047690957805028229524166405946422744608531891722958842939411383230nat, modulus());
    lemma_mpow_next(7, 73478311358432129110728337539149nat, 22422701847047690957805028229524166405946422744608531891722958842939411383230nat, 0, 25299123223245289147113218717549820050761615500983126373233727440569813902068nat, modulus());
    lemma_mpow_next(7, 146956622716864258221456675078298nat, 25299123223245289147113218717549820050761615500983126373233727440569813902068nat, 0, 50078837933021526323837054443545530808942362851202042386001403115210381897095nat, modulus());
    lemma_mpow_next(7, 293913245433728516442913350156596nat, 50078837933021526323837054443545530808942362851202042386001403115210381897095nat, 0, 25275871616732425965107811431177325292032598799246468719055663389277864501179nat, modulus());
    lemma_mpow_next(7, 587826490867457032885826700313192nat, 25275871616732425965107811431177325292032598799246468719055663389277864501179nat, 0, 40040879725751472037944479397827654051801199806704772980355163624315505239984nat, modulus());
    lemma_mpow_next(7, 1175652981734914065771653400626384nat, 40040879725751472037944479397827654051801199806704772980355163624315505239984nat, 1, 36739675521050426213345312566328337079689248827389986992862889072011489010722nat, modulus());
    lemma_mpow_next(7, 2351305963469828131543306801252769nat, 36739675521050426213345312566328337079689248827389986992862889072011489010722nat, 1, 6245337748312928510842102409963520326604747406576990554437906283752421858802nat, modulus());
    lemma_mpow_next(7, 4702611926939656263086613602505539nat, 6245337748312928510842102409963520326604747406576990554437906283752421858802nat, 1, 52368486005004445901498289157249767680214224095034561656939864186894412298180nat, modulus());
}

/// Squarings 113 to 128 of the power below.
#[verifier::spinoff_prover]
#[verifier::rlimit(50)]
proof fn lemma_pow_order_by_2_part7()
    requires
        mpow(7, 9405223853879312526173227205011079nat, modulus()) == 52368486005004445901498289157249767680214224095034561656939864186894412298180nat,
    ensures
        mpow(7, 616380750487834625715288618107606097941nat, modulus()) == 38115701501048530952309394923963229086108497449235868469746884313478459268797nat,
{
    lemma_mpow_next(7, 9405223853879312526173227205011079nat, 52368486005004445901498289157249767680214224095034561656939864186894412298180nat, 0, 44364234066543875755465507402728328427094297462215489386064724593567120324733nat, modulus());
    lemma_mpow_next(7, 18810447707758625052346454410022158nat, 44364234066543875755465507402728328427094297462215489386064724593567120324733nat, 1, 43335488285368492333231550996365433744327761002446203467979091262997427523289nat, modulus());
    lemma_mpow_next(7, 37620895415517250104692908820044317nat, 43335488285368492333231550996365433744327761002446203467979091262997427523289nat, 1, 18297102970027718409173986301989894760477308558277954808307660275365519060148nat, modulus());
    lemma_mpow_next(7, 75241790831034500209385817640088635nat, 18297102970027718409173986301989894760477308558277954808307660275365519060148nat, 0, 16551347060367486694307856872633941826601203475303021109946213704736829675924nat, modulus());
    lemma_mpow_next(7, 150483581662069000418771635280177270nat, 16551347060367486694307856872633941826601203475303021109946213704736829675924nat, 0, 36580617503158513281670161957128857130056244997215112608402476723808630266959nat, modulus());
    lemma_mpow_next(7, 300967163324138000837543270560354540nat, 36580617503158513281670161957128857130056244997215112608402476723808630266959nat, 0, 38481307787753392522253001223883634391173231415394935813110930167728311917975nat, modulus());
    lemma_mpow_next(7, 601934326648276001675086541120709080nat, 38481307787753392522253001223883634391173231415394935813110930167728311917975nat, 0, 47244034338990704259138939993488174567834539101069576952382449054083768268074nat, modulus());
    lemma_mpow_next(7, 1203868653296552003350173082241418160nat, 47244034338990704259138939993488174567834539101069576952382449054083768268074nat, 0, 41140925551034058183149055783148645804836839947613851619060351353197018381850nat, modulus());
    lemma_mpow_next(7, 2407737306593104006700346164482836320nat, 41140925551034058183149055783148645804836839947613851619060351353197018381850nat, 0, 8664973336800362195803623148547461319629968933861541187976448414297755878975nat, modulus());
    lemma_mpow_next(7, 4815474613186208013400692328965672640nat, 8664973336800362195803623148547461319629968933861541187976448414297755878975nat, 0, 16154868315698689362488952082761953726183940424043183241619478905724394324651nat, modulus());
    lemma_mpow_next(7, 9630949226372416026801384657931345280nat, 16154868315698689362488952082761953726183940424043183241619478905724394324651nat, 0, 33141738279433600080001485835528836757742020530204955298853280006581484896351nat, modulus());
    lemma_mpow_next(7, 19261898452744832053602769315862690560nat, 33141738279433600080001485835528836757742020530204955298853280006581484896351nat, 1, 6666402553027213267329252434891330151794433134955090914934298527137623338833nat, modulus());
    lemma_mpow_next(7, 38523796905489664107205538631725381121nat, 6666402553027213267329252434891330151794433134955090914934298527137623338833nat, 0, 31857295956479207882514280800217138382369528144059694274551898867317044048735nat, modulus());
    lemma_mpow_next(7, 77047593810979328214411077263450762242nat, 31857295956479207882514280800217138382369528144059694274551898867317044048735nat, 1, 1371148495702234373441215125374693964141871882802590648997853172497591121638nat, modulus());
    lemma_mpow_next(7, 154095187621958656428822154526901524485nat, 1371148495702234373441215125374693964141871882802590648997853172497591121638nat, 0, 33913643672662842510312388637023901464507392568598081420228447129657978330773nat, modulus());
    lemma_mpow_next(7, 308190375243917312857644309053803048970nat, 33913643672662842510312388637023901464507392568598081420228447129657978330773nat, 1, 38115701501048530952309394923963229086108497449235868469746884313478459268797nat, modulus());
}

/// Squarings 129 to 144 of the power below.
#[verifier::spinoff_prover]
#[verifier::rlimit(50)]
proof fn lemma_pow_order_by_2_part8()
    requires
        mpow(7, 616380750487834625715288618107606097941nat, modulus()) == 38115701501048530952309394923963229086108497449235868469746884313478459268797nat,
    ensures
        mpow(7, 40395128863970730030877154876300073234681590nat, modulus()) == 15706582960282018882760856691250972949868973461603787367011306876684012984898nat,
{
    lemma_mpow_next(7, 616380750487834625715288618107606097941nat, 38115701501048530952309394923963229086108497449235868469746884313478459268797nat, 0, 40232925649025291659408480353138316243525307884820971063270331056280495534119nat, modulus());
    lemma_mpow_next(7, 1232761500975669251430577236215212195882nat, 40232925649025291659408480353138316243525307884820971063270331056280495534119nat, 1, 21778022368457368648198299600654585696178304177639630217771807917314360227778nat, modulus());
    lemma_mpow_next(7, 2465523001951338502861154472430424391765nat, 21778022368457368648198299600654585696178304177639630217771807917314360227778nat, 0, 30989928783359158657226969844144457846082663341891768822553165907273738748991nat, modulus());
    lemma_mpow_next(7, 4931046003902677005722308944860848783530nat, 30989928783359158657226969844144457846082663341891768822553165907273738748991nat, 0, 34032005521589243953551211807338074720430726273982663774537565802974194160483nat, modulus());
    lemma_mpow_next(7, 9862092007805354011444617889721697567060nat, 34032005521589243953551211807338074720430726273982663774537565802974194160483nat, 1, 27029952580867948077573166072226308814775774046495755082366728994221721686327nat, modulus());
    lemma_mpow_next(7, 19724184015610708022889235779443395134121nat, 27029952580867948077573166072226308814775774046495755082366728994221721686327nat, 1, 11090466188404625446314413309260105554419971956829133628521280277352587165854nat, modulus());
    lemma_mpow_next(7, 39448368031221416045778471558886790268243nat, 11090466188404625446314413309260105554419971956829133628521280277352587165854nat, 1, 34728338439528861015994529452758991520578466135058616293652872495721530818570nat, modulus());
    lemma_mpow_next(7, 78896736062442832091556943117773580536487nat, 34728338439528861015994529452758991520578466135058616293652872495721530818570nat, 0, 15200334974922747894890033466671805407067263259926356640465325132353582796834nat, modulus());
    lemma_mpow_next(7, 157793472124885664183113886235547161072974nat, 15200334974922747894890033466671805407067263259926356640465325132353582796834nat, 1, 13197169574908656676736486822909521406164574493325699976101688109559477505146nat, modulus());
    lemma_mpow_next(7, 315586944249771328366227772471094322145949nat, 13197169574908656676736486822909521406164574493325699976101688109559477505146nat, 1, 19049365470856218461330147942944690601563669301921386801312145202484309854387nat, modulus());
    lemma_mpow_next(7, 631173888499542656732455544942188644291899nat, 19049365470856218461330147942944690601563669301921386801312145202484309854387nat, 1, 24202987606861017750771670446009640145566915674863399581110501189753478539511nat, modulus());
    lemma_mpow_next(7, 1262347776999085313464911089884377288583799nat, 24202987606861017750771670446009640145566915674863399581110501189753478539511nat, 1, 51133873770160066763648849730134247296484746740596571789572555294487553536554nat, modulus());
    lemma_mpow_next(7, 2524695553998170626929822179768754577167599nat, 51133873770160066763648849730134247296484746740596571789572555294487553536554nat, 0, 10655241698392546056134739068920679681184492800908310873052715336705673748394nat, modulus());
    lemma_mpow_next(7, 5049391107996341253859644359537509154335198nat, 10655241698392546056134739068920679681184492800908310873052715336705673748394nat, 1, 44852285298767538744346144646214544839588347766095114652575487861611014797788nat, modulus());
    lemma_mpow_next(7, 10098782215992682507719288719075018308670397nat, 44852285298767538744346144646214544839588347766095114652575487861611014797788nat, 1, 17031645190687784294529312736425864850536550794652185231886115924488206503970nat, modulus());
    lemma_mpow_next(7, 20197564431985365015438577438150036617340795nat, 17031645190687784294529312736425864850536550794652185231886115924488206503970nat, 0, 15706582960282018882760856691250972949868973461603787367011306876684012984898nat, modulus());
}

/// Squarings 145 to 160 of the power below.
#[verifier::spinoff_prover]
#[verifier::rlimit(50)]
proof fn lemma_pow_order_by_2_part9()
    requires
        mpow(7, 40395128863970730030877154876300073234681590nat, modulus()) == 15706582960282018882760856691250972949868973461603787367011306876684012984898nat,
    ensures
        mpow(7, 2647335165229185763303565221973201599508092719115nat, modulus()) == 28776670783747114026534882668307993373165846638176145418772569029459320295064nat,
{
    lemma_mpow_next(7, 40395128863970730030877154876300073234681590nat, 15706582960282018882760856691250972949868973461603787367011306876684012984898nat, 1, 20974296302155897606235389005321475021538500085012873413173062330865442169923nat, modulus());
    lemma_mpow_next(7, 80790257727941460061754309752600146469363181nat, 20974296302155897606235389005321475021538500085012873413173062330865442169923nat, 0, 14144776024585620677430423064124915514613108285936437970715572548592045470351nat, modulus());
    lemma_mpow_next(7, 161580515455882920123508619505200292938726362nat, 14144776024585620677430423064124915514613108285936437970715572548592045470351nat, 0, 18037653401220724315967422734459338926940547296316296077924988742661160742968nat, modulus());
    lemma_mpow_next(7, 323161030911765840247017239010400585877452724nat, 18037653401220724315967422734459338926940547296316296077924988742661160742968nat, 1, 17092249917983703716995540755714419794127720815296228593356987370172632986447nat, modulus());
    lemma_mpow_next(7, 646322061823531680494034478020801171754905449nat, 17092249917983703716995540755714419794127720815296228593356987370172632986447nat, 0, 51574106065580790548125755468898253116846972109562117611201280751990962466264nat, modulus());
    lemma_mpow_next(7, 1292644123647063360988068956041602343509810898nat, 51574106065580790548125755468898253116846972109562117611201280751990962466264nat, 0, 51085352287425770091026610913705744602335366848435545096609145789671802491262nat, modulus());
    lemma_mpow_next(7, 2585288247294126721976137912083204687019621796nat, 51085352287425770091026610913705744602335366848435545096609145789671802491262nat, 0, 6210086315688444137981873403238961674389818416097901607478871390694124562031nat, modulus());
    lemma_mpow_next(7, 5170576494588253443952275824166409374039243592nat, 6210086315688444137981873403238961674389818416097901607478871390694124562031nat, 0, 7277079948485887386689940974511613936714952664303728680670231621864495526842nat, modulus());
    lemma_mpow_next(7, 10341152989176506887904551648332818748078487184nat, 7277079948485887386689940974511613936714952664303728680670231621864495526842nat, 0, 30932627140072104722580693708995081735056494664331086417833922491968555134840nat, modulus());
    lemma_mpow_next(7, 20682305978353013775809103296665637496156974368nat, 30932627140072104722580693708995081735056494664331086417833922491968555134840nat, 0, 20405372144233404303069218904579989655160810999593845137460024578571392214326nat, modulus());
    lemma_mpow_next(7, 41364611956706027551618206593331274992313948736nat, 20405372144233404303069218904579989655160810999593845137460024578571392214326nat, 0, 47163476540804381083505368701468771881957083335813271263922492492553867016915nat, modulus());
    lemma_mpow_next(7, 82729223913412055103236413186662549984627897472nat, 47163476540804381083505368701468771881957083335813271263922492492553867016915nat, 0, 13263852207060915158847656871423838870474781633145560681147392803409601831794nat, modulus());
    lemma_mpow_next(7, 165458447826824110206472826373325099969255794944nat, 13263852207060915158847656871423838870474781633145560681147392803409601831794nat, 1, 10890831651011036875338983688980760287068686814960680489621282369102753477947nat, modulus());
    lemma_mpow_next(7, 330916895653648220412945652746650199938511589889nat, 10890831651011036875338983688980760287068686814960680489621282369102753477947nat, 0, 45291391690054139224217119448804299865867130408038107664617291782899197523146nat, modulus());
    lemma_mpow_next(7, 661833791307296440825891305493300399877023179778nat, 45291391690054139224217119448804299865867130408038107664617291782899197523146nat, 1, 32656532451807036157874678419989732412061531110723845221020970941597873610446nat, modulus());
    lemma_mpow_next(7, 1323667582614592881651782610986600799754046359557nat, 32656532451807036157874678419989732412061531110723845221020970941597873610446nat, 1, 28776670783747114026534882668307993373165846638176145418772569029459320295064nat, modulus());
}

/// Squarings 161 to 176 of the power below.
#[verifier::spinoff_prover]
#[verifier::rlimit(50)]
proof fn lemma_pow_order_by_2_part10()
    requires
        mpow(7, 2647335165229185763303565221973201599508092719115nat, modulus()) == 28776670783747114026534882668307993373165846638176145418772569029459320295064nat,
    ensures
        mpow(7, 173495757388459918183862450387235740025362364439986169nat, modulus()) == 9090139563474135265571092711920500487800849296381320422997274830993668404899nat,
{
    lemma_mpow_next(7, 2647335165229185763303565221973201599508092719115nat, 28776670783747114026534882668307993373165846638176145418772569029459320295064nat, 1, 7793498126910636470749386684790895699248457732596659883913687151949868768659nat, modulus());
    lemma_mpow_next(7, 5294670330458371526607130443946403199016185438231nat, 7793498126910636470749386684790895699248457732596659883913687151949868768659nat, 1, 30088115989119864239061435054400125271397481708345444082842218471473253357019nat, modulus());
    lemma_mpow_next(7, 10589340660916743053214260887892806398032370876463nat, 30088115989119864239061435054400125271397481708345444082842218471473253357019nat, 1, 41173055647472370285037558043993390945859934928622524463262495230016378353806nat, modulus());
    lemma_mpow_next(7, 21178681321833486106428521775785612796064741752927nat, 41173055647472370285037558043993390945859934928622524463262495230016378353806nat, 1, 50834714646814265077140495704844328125088195280266756423317586827533779791949nat, modulus());
    lemma_mpow_next(7, 42357362643666972212857043551571225592129483505855nat, 50834714646814265077140495704844328125088195280266756423317586827533779791949nat, 1, 10438917472283154374326198115463230072386123987051165531499947893389713918984nat, modulus());
    lemma_mpow_next(7, 84714725287333944425714087103142451184258967011711nat, 10438917472283154374326198115463230072386123987051165531499947893389713918984nat, 1, 5143854172150702302254462136909442628158985275788322267556484079709305119915nat, modulus());
    lemma_mpow_next(7, 169429450574667888851428174206284902368517934023423nat, 5143854172150702302254462136909442628158985275788322267556484079709305119915nat, 1, 29820644718079062206737111430053514602078292012304638822632873375479899897894nat, modulus());
    lemma_mpow_next(7, 338858901149335777702856348412569804737035868046847nat, 29820644718079062206737111430053514602078292012304638822632873375479899897894nat, 1, 6851476658526854076214872777170615889857437907819697324633771952909006352551nat, modulus());
    lemma_mpow_next(7, 677717802298671555405712696825139609474071736093695nat, 6851476658526854076214872777170615889857437907819697324633771952909006352551nat, 1, 14744154471344008666344526308889074840936155848571088089091941361470000897499nat, modulus());
    lemma_mpow_next(7, 1355435604597343110811425393650279218948143472187391nat, 14744154471344008666344526308889074840936155848571088089091941361470000897499nat, 1, 15261188860948225230936826354494812263179472493877213053958824417238147925618nat, modulus());
    lemma_mpow_next(7, 2710871209194686221622850787300558437896286944374783nat, 15261188860948225230936826354494812263179472493877213053958824417238147925618nat, 1, 22379872006641787020487499959015175625354322082998910033561661247578958029457nat, modulus());
    lemma_mpow_next(7, 5421742418389372443245701574601116875792573888749567nat, 22379872006641787020487499959015175625354322082998910033561661247578958029457nat, 1, 10935451115898252832029922836756767874915720993674947302917857418300264918824nat, modulus());
    lemma_mpow_next(7, 10843484836778744886491403149202233751585147777499135nat, 10935451115898252832029922836756767874915720993674947302917857418300264918824nat, 1, 30126186348093503171996440641353126673990352312817478865302909875274971617051nat, modulus());
    lemma_mpow_next(7, 21686969673557489772982806298404467503170295554998271nat, 30126186348093503171996440641353126673990352312817478865302909875274971617051nat, 0, 22127622315854843200459329920983835617392452180234416376969667893760890541734nat, modulus());
    lemma_mpow_next(7, 43373939347114979545965612596808935006340591109996542nat, 22127622315854843200459329920983835617392452180234416376969667893760890541734nat, 0, 16162762308014454819406886605677459243719592559484685227792038760845741009232nat, modulus());
    lemma_mpow_next(7, 86747878694229959091931225193617870012681182219993084nat, 16162762308014454819406886605677459243719592559484685227792038760845741009232nat, 1, 9090139563474135265571092711920500487800849296381320422997274830993668404899nat, modulus());
}

/// Squarings 177 to 192 of the power below.
#[verifier::spinoff_prover]
#[verifier::rlimit(50)]
proof fn lemma_pow_order_by_2_part11()
    requires
        mpow(7, 173495757388459918183862450387235740025362364439986169nat, modulus()) == 9090139563474135265571092711920500487800849296381320422997274830993668404899nat,
    ensures
        mpow(7, 11370217956210109198097609548577881458302147915938933600251nat, modulus()) == 38714807310035404309570935439969805065862584246411836485770409685714868722103nat,
{
    lemma_mpow_next(7, 173495757388459918183862450387235740025362364439986169nat, 9090139563474135265571092711920500487800849296381320422997274830993668404899nat, 0, 25188949360303728673906757346702090696932032749713462208049185911383258370173nat, modulus());
    lemma_mpow_next(7, 346991514776919836367724900774471480050724728879972338nat, 25188949360303728673906757346702090696932032749713462208049185911383258370173nat, 1, 7738432163784744825310947252845018001114395468986886352366051847315771252183nat, modulus());
    lemma_mpow_next(7, 693983029553839672735449801548942960101449457759944677nat, 7738432163784744825310947252845018001114395468986886352366051847315771252183nat, 1, 49779381130810715921080317739409378533207482529232480825886710782578439436631nat, modulus());
    lemma_mpow_next(7, 1387966059107679345470899603097885920202898915519889355nat, 49779381130810715921080317739409378533207482529232480825886710782578439436631nat, 0, 52052614916732026438494395807962988545382734338042726186762901359303970799051nat, modulus());
    lemma_mpow_next(7, 2775932118215358690941799206195771840405797831039778710nat, 52052614916732026438494395807962988545382734338042726186762901359303970799051nat, 1, 33892046168085845282184466942121046126905678820233847150691859264331776329742nat, modulus());
    lemma_mpow_next(7, 5551864236430717381883598412391543680811595662079557421nat, 33892046168085845282184466942121046126905678820233847150691859264331776329742nat, 1, 659054188750636056158028054287713014593033628329180317893660854249123918938nat, modulus());
    lemma_mpow_next(7, 11103728472861434763767196824783087361623191324159114843nat, 659054188750636056158028054287713014593033628329180317893660854249123918938nat, 1, 48081380896996925591060190382826947627686236670822519139812722241838290578509nat, modulus());
    lemma_mpow_next(7, 22207456945722869527534393649566174723246382648318229687nat, 48081380896996925591060190382826947627686236670822519139812722241838290578509nat, 1, 23352114148843498112996071260453874110783258415379525143815897556256272377723nat, modulus());
    lemma_mpow_next(7, 44414913891445739055068787299132349446492765296636459375nat, 23352114148843498112996071260453874110783258415379525143815897556256272377723nat, 1, 26391647458142629663886417034436133598528779795405014791431271949581579333719nat, modulus());
    lemma_mpow_next(7, 88829827782891478110137574598264698892985530593272918751nat, 26391647458142629663886417034436133598528779795405014791431271949581579333719nat, 1, 15515010591326812294883218796287248805840149609691725026032556271818902699091nat, modulus());
    lemma_mpow_next(7, 177659655565782956220275149196529397785971061186545837503nat, 15515010591326812294883218796287248805840149609691725026032556271818902699091nat, 1, 33799030528049451134187096862751160977750339802038526706880770256960714362421nat, modulus());
    lemma_mpow_next(7, 355319311131565912440550298393058795571942122373091675007nat, 33799030528049451134187096862751160977750339802038526706880770256960714362421nat, 1, 11397200185513235644289810330266897495527326046657489872301695510034974147944nat, modulus());
    lemma_mpow_next(7, 710638622263131824881100596786117591143884244746183350015nat, 11397200185513235644289810330266897495527326046657489872301695510034974147944nat, 1, 5124627062372374536550084647739808428045507597750634702457878715022028788183nat, modulus());
    lemma_mpow_next(7, 1421277244526263649762201193572235182287768489492366700031nat, 5124627062372374536550084647739808428045507597750634702457878715022028788183nat, 0, 8972182163159280585710768820689105444765793574402337251583361137192289601116nat, modulus());
    lemma_mpow_next(7, 2842554489052527299524402387144470364575536978984733400062nat, 8972182163159280585710768820689105444765793574402337251583361137192289601116nat, 1, 10333225761922117412069004093368809736780640544359010107135174211830382078994nat, modulus());
    lemma_mpow_next(7, 5685108978105054599048804774288940729151073957969466800125nat, 10333225761922117412069004093368809736780640544359010107135174211830382078994nat, 1, 38714807310035404309570935439969805065862584246411836485770409685714868722103nat, modulus());
}

/// Squarings 193 to 208 of the power below.
#[verifier::spinoff_prover]
#[verifier::rlimit(50)]
proof fn lemma_pow_order_by_2_part12()
    requires
        mpow(7, 11370217956210109198097609548577881458302147915938933600251nat, modulus()) == 38714807310035404309570935439969805065862584246411836485770409685714868722103nat,
    ensures
        mpow(7, 745158603978185716406524939375600039251289565818973952426115071nat, modulus()) == 22124677157508605893849144178750996373015530314627408980492711890894363941889nat,
{
    lemma_mpow_next(7, 11370217956210109198097609548577881458302147915938933600251nat, 38714807310035404309570935439969805065862584246411836485770409685714868722103nat, 1, 46043662996636285446717274342324520774011434958450973177401781077835852490434nat, modulus());
    lemma_mpow_next(7, 22740435912420218396195219097155762916604295831877867200503nat, 46043662996636285446717274342324520774011434958450973177401781077835852490434nat, 1, 35571002038026555529016270026624514473846332084993757528777535962638663273673nat, modulus());
    lemma_mpow_next(7, 45480871824840436792390438194311525833208591663755734401007nat, 35571002038026555529016270026624514473846332084993757528777535962638663273673nat, 1, 18177662391072812436389416564923750222984565978312998642539354318595144681614nat, modulus());
    lemma_mpow_next(7, 90961743649680873584780876388623051666417183327511468802015nat, 18177662391072812436389416564923750222984565978312998642539354318595144681614nat, 1, 46018529888859026547212363532683851929823706736308097084387164201376581001204nat, modulus());
    lemma_mpow_next(7, 181923487299361747169561752777246103332834366655022937604031nat, 46018529888859026547212363532683851929823706736308097084387164201376581001204nat, 1, 43998026748328595084198389704034697993989621382626586932035181222947956179767nat, modulus());
    lemma_mpow_next(7, 363846974598723494339123505554492206665668733310045875208063nat, 43998026748328595084198389704034697993989621382626586932035181222947956179767nat, 1, 11837317643417772487273371511212007714633713229731352482253371925756036793802nat, modulus());
    lemma_mpow_next(7, 727693949197446988678247011108984413331337466620091750416127nat, 11837317643417772487273371511212007714633713229731352482253371925756036793802nat, 1, 12231587157770938772831385322985063435921397093366637005976623920046440206957nat, modulus());
    lemma_mpow_next(7, 1455387898394893977356494022217968826662674933240183500832255nat, 12231587157770938772831385322985063435921397093366637005976623920046440206957nat, 1, 45365437897972007061297817217815692088344944061886358697961860399984895394370nat, modulus());
    lemma_mpow_next(7, 2910775796789787954712988044435937653325349866480367001664511nat, 45365437897972007061297817217815692088344944061886358697961860399984895394370nat, 1, 47751593226184000764374367942774167437687769029958810574974978264682545524381nat, modulus());
    lemma_mpow_next(7, 5821551593579575909425976088871875306650699732960734003329023nat, 47751593226184000764374367942774167437687769029958810574974978264682545524381nat, 1, 46005920749221667463302396374948224538071030422767555785667050078149230632702nat, modulus());
    lemma_mpow_next(7, 11643103187159151818851952177743750613301399465921468006658047nat, 46005920749221667463302396374948224538071030422767555785667050078149230632702nat, 1, 37608753163114080825998892468359238759490458426341459134944486111565249857999nat, modulus());
    lemma_mpow_next(7, 23286206374318303637703904355487501226602798931842936013316095nat, 37608753163114080825998892468359238759490458426341459134944486111565249857999nat, 1, 14802557994176207858381293879232154356623464400922009970247142579442711191981nat, modulus());
    lemma_mpow_next(7, 46572412748636607275407808710975002453205597863685872026632191nat, 14802557994176207858381293879232154356623464400922009970247142579442711191981nat, 1, 10918174782964546565714885360895561175247065689871636754373090869656547310461nat, modulus());
    lemma_mpow_next(7, 93144825497273214550815617421950004906411195727371744053264383nat, 10918174782964546565714885360895561175247065689871636754373090869656547310461nat, 1, 35284199933448902458228813750973327148651658386833033668020053803432690943134nat, modulus());
    lemma_mpow_next(7, 186289650994546429101631234843900009812822391454743488106528767nat, 35284199933448902458228813750973327148651658386833033668020053803432690943134nat, 1, 1597445568395336728658126570184325261737494685062436821068513881219384716225nat, modulus());
    lemma_mpow_next(7, 372579301989092858203262469687800019625644782909486976213057535nat, 1597445568395336728658126570184325261737494685062436821068513881219384716225nat, 1, 22124677157508605893849144178750996373015530314627408980492711890894363941889nat, modulus());
}

/// Squarings 209 to 224 of the power below.
#[verifier::spinoff_prover]
#[verifier::rlimit(50)]
proof fn lemma_pow_order_by_2_part13()
    requires
        mpow(7, 745158603978185716406524939375600039251289565818973952426115071nat, modulus()) == 22124677157508605893849144178750996373015530314627408980492711890894363941889nat,
    ensures
        mpow(7, 48834714270314379110418018426919324172372512985512276946197877358588nat, modulus()) == 20094891866007995289136270587723853997043774683345353712639419774914899074390nat,
{
    lemma_mpow_next(7, 745158603978185716406524939375600039251289565818973952426115071nat, 22124677157508605893849144178750996373015530314627408980492711890894363941889nat, 1, 17768816013661764060816457839837174813363346322098930366641472094067908370723nat, modulus());
    lemma_mpow_next(7, 1490317207956371432813049878751200078502579131637947904852230143nat, 17768816013661764060816457839837174813363346322098930366641472094067908370723nat, 1, 47861337087193486788367863594879277694567398485228449555499705315353469159162nat, modulus());
    lemma_mpow_next(7, 2980634415912742865626099757502400157005158263275895809704460287nat, 47861337087193486788367863594879277694567398485228449555499705315353469159162nat, 1, 9424183396843722115146583268692022822059812567042108775006858330141721534361nat, modulus());
    lemma_mpow_next(7, 5961268831825485731252199515004800314010316526551791619408920575nat, 9424183396843722115146583268692022822059812567042108775006858330141721534361nat, 1, 6093526790530323546791854843081834381041236663911866719716977535196949276139nat, modulus());
    lemma_mpow_next(7, 11922537663650971462504399030009600628020633053103583238817841151nat, 6093526790530323546791854843081834381041236663911866719716977535196949276139nat, 1, 23634753601795092223401946791647252174048020804835912285455554944396694284859nat, modulus());
    lemma_mpow_next(7, 23845075327301942925008798060019201256041266106207166477635682303nat, 23634753601795092223401946791647252174048020804835912285455554944396694284859nat, 1, 34246187675440476899327664009660315563868021928564105165152255874834127378576nat, modulus());
    lemma_mpow_next(7, 47690150654603885850017596120038402512082532212414332955271364607nat, 34246187675440476899327664009660315563868021928564105165152255874834127378576nat, 1, 38328615974275690478886992743895779281115125033710617280083054480196568816062nat, modulus());
    lemma_mpow_next(7, 95380301309207771700035192240076805024165064424828665910542729215nat, 38328615974275690478886992743895779281115125033710617280083054480196568816062nat, 1, 51923271797565088984694433709928514808237031441724767807473304973948299351613nat, modulus());
    lemma_mpow_next(7, 190760602618415543400070384480153610048330128849657331821085458431nat, 51923271797565088984694433709928514808237031441724767807473304973948299351613nat, 1, 19521072763931659794318204841513152880480820682756054014475408528501741617751nat, modulus());
    lemma_mpow_next(7, 381521205236831086800140768960307220096660257699314663642170916863nat, 19521072763931659794318204841513152880480820682756054014475408528501741617751nat, 1, 26382744460655935410426741744085303648271447172302779042480817558572255037091nat, modulus());
    lemma_mpow_next(7, 763042410473662173600281537920614440193320515398629327284341833727nat, 26382744460655935410426741744085303648271447172302779042480817558572255037091nat, 1, 6288960328134239394936759314537654684185342178859472360473062140938601093862nat, modulus());
    lemma_mpow_next(7, 1526084820947324347200563075841228880386641030797258654568683667455nat, 6288960328134239394936759314537654684185342178859472360473062140938601093862nat, 1, 4661929794514414368603409354767823136889358938039667838377326458703263268224nat, modulus());
    lemma_mpow_next(7, 3052169641894648694401126151682457760773282061594517309137367334911nat, 4661929794514414368603409354767823136889358938039667838377326458703263268224nat, 1, 39362018406239698868770717049582365049901582322137686391554325702210363990211nat, modulus());
    lemma_mpow_next(7, 6104339283789297388802252303364915521546564123189034618274734669823nat, 39362018406239698868770717049582365049901582322137686391554325702210363990211nat, 1, 10238227357739495823651030575849232062558860180284477541189508159991286009131nat, modulus());
    lemma_mpow_next(7, 12208678567578594777604504606729831043093128246378069236549469339647nat, 10238227357739495823651030575849232062558860180284477541189508159991286009131nat, 0, 34070893824967080313820779135880760772780807222436853681508667398599787661631nat, modulus());
    lemma_mpow_next(7, 24417357135157189555209009213459662086186256492756138473098938679294nat, 34070893824967080313820779135880760772780807222436853681508667398599787661631nat, 0, 20094891866007995289136270587723853997043774683345353712639419774914899074390nat, modulus());
}

/// Squarings 225 to 240 of the power below.
#[verifier::spinoff_prover]
#[verifier::rlimit(50)]
proof fn lemma_pow_order_by_2_part14()
    requires
        mpow(7, 48834714270314379110418018426919324172372512985512276946197877358588nat, modulus()) == 20094891866007995289136270587723853997043774683345353712639419774914899074390nat,
    ensures
        mpow(7, 3200431834419323149380355255626584828960605011018532581946024090572423168nat, modulus()) == 39072540533732477250409069030641316533649120504872707460480262653418090977761nat,
{
    lemma_mpow_next(7, 48834714270314379110418018426919324172372512985512276946197877358588nat, 20094891866007995289136270587723853997043774683345353712639419774914899074390nat, 0, 5660829372603820951332104046316074966592589311213397907344198301300676239643nat, modulus());
    lemma_mpow_next(7, 97669428540628758220836036853838648344745025971024553892395754717176nat, 5660829372603820951332104046316074966592589311213397907344198301300676239643nat, 0, 37480612446576615530266821837655054090426372233228960378061628060638903214217nat, modulus());
    lemma_mpow_next(7, 195338857081257516441672073707677296689490051942049107784791509434352nat, 37480612446576615530266821837655054090426372233228960378061628060638903214217nat, 0, 15932505959375582308231798849995567447410469395474322018100309999481287547373nat, modulus());
    lemma_mpow_next(7, 390677714162515032883344147415354593378980103884098215569583018868704nat, 15932505959375582308231798849995567447410469395474322018100309999481287547373nat, 0, 4541622677469846713471916119560591929733417256448031920623614406126544048514nat, modulus());
    lemma_mpow_next(7, 781355428325030065766688294830709186757960207768196431139166037737408nat, 4541622677469846713471916119560591929733417256448031920623614406126544048514nat, 0, 734830308204920577628633053915970695663549910788964686411700880930222744862nat, modulus());
    lemma_mpow_next(7, 1562710856650060131533376589661418373515920415536392862278332075474816nat, 734830308204920577628633053915970695663549910788964686411700880930222744862nat, 0, 18596002123094854211120822350746157678791770803088570110573239418060655130524nat, modulus());
    lemma_mpow_next(7, 3125421713300120263066753179322836747031840831072785724556664150949632nat, 18596002123094854211120822350746157678791770803088570110573239418060655130524nat, 0, 52167942466760591552294394977846462646742207006759917080697723404762651336366nat, modulus());
    lemma_mpow_next(7, 6250843426600240526133506358645673494063681662145571449113328301899264nat, 52167942466760591552294394977846462646742207006759917080697723404762651336366nat, 0, 4859563557044021881916617240989566298388494151979623102977292742331120628579nat, modulus());
    lemma_mpow_next(7, 12501686853200481052267012717291346988127363324291142898226656603798528nat, 4859563557044021881916617240989566298388494151979623102977292742331120628579nat, 0, 32468834368094611004052562760214251466632493208153926274007662173556188291130nat, modulus());
    lemma_mpow_next(7, 25003373706400962104534025434582693976254726648582285796453313207597056nat, 32468834368094611004052562760214251466632493208153926274007662173556188291130nat, 0, 1755840822790712607783180844474754741366353396308200820563736496551326485835nat, modulus());
    lemma_mpow_next(7, 50006747412801924209068050869165387952509453297164571592906626415194112nat, 1755840822790712607783180844474754741366353396308200820563736496551326485835nat, 0, 37115000097562964541269718788523040559386243094666416358585267518228781043101nat, modulus());
    lemma_mpow_next(7, 100013494825603848418136101738330775905018906594329143185813252830388224nat, 37115000097562964541269718788523040559386243094666416358585267518228781043101nat, 0, 20439484849038267462774237595151440867617792718791690563928621375157525968123nat, modulus());
    lemma_mpow_next(7, 200026989651207696836272203476661551810037813188658286371626505660776448nat, 20439484849038267462774237595151440867617792718791690563928621375157525968123nat, 0, 15495926509001846844474268026226183818445427694968626800913907911890390421264nat, modulus());
    lemma_mpow_next(7, 400053979302415393672544406953323103620075626377316572743253011321552896nat, 15495926509001846844474268026226183818445427694968626800913907911890390421264nat, 0, 15076889834420168339092859836519192632846122361203618639585008852351569017005nat, modulus());
    lemma_mpow_next(7, 800107958604830787345088813906646207240151252754633145486506022643105792nat, 15076889834420168339092859836519192632846122361203618639585008852351569017005nat, 0, 22872204467218851938836547481240843888453165451755431061227190987689039608686nat, modulus());
    lemma_mpow_next(7, 1600215917209661574690177627813292414480302505509266290973012045286211584nat, 22872204467218851938836547481240843888453165451755431061227190987689039608686nat, 0, 39072540533732477250409069030641316533649120504872707460480262653418090977761nat, modulus());
}

/// Squarings 241 to 253 of the power below.
#[verifier::spinoff_prover]
#[verifier::rlimit(50)]
proof fn lemma_pow_order_by_2_part15()
    requires
        mpow(7, 3200431834419323149380355255626584828960605011018532581946024090572423168nat, modulus()) == 39072540533732477250409069030641316533649120504872707460480262653418090977761nat,
    ensures
        mpow(7, 26217937587563095239723870254092982918845276250263818911301829349969290592256nat, modulus()) == 52435875175126190479447740508185965837690552500527637822603658699938581184512nat,
{
    lemma_mpow_next(7, 3200431834419323149380355255626584828960605011018532581946024090572423168nat, 39072540533732477250409069030641316533649120504872707460480262653418090977761nat, 0, 32731401973776920074999878620293785439674386180695720638377027142500196583783nat, modulus());
    lemma_mpow_next(7, 6400863668838646298760710511253169657921210022037065163892048181144846336nat, 32731401973776920074999878620293785439674386180695720638377027142500196583783nat, 0, 39033254847818212395286706435128746857159659164139250548781411570340225835782nat, modulus());
    lemma_mpow_next(7, 12801727337677292597521421022506339315842420044074130327784096362289692672nat, 39033254847818212395286706435128746857159659164139250548781411570340225835782nat, 0, 49307615728544765012166121802278658070711169839041683575071795236746050763237nat, modulus());
    lemma_mpow_next(7, 25603454675354585195042842045012678631684840088148260655568192724579385344nat, 49307615728544765012166121802278658070711169839041683575071795236746050763237nat, 0, 22781213702924172180523978385542388841346373992886390990881355510284839737428nat, modulus());
    lemma_mpow_next(7, 51206909350709170390085684090025357263369680176296521311136385449158770688nat, 22781213702924172180523978385542388841346373992886390990881355510284839737428nat, 0, 4214636447306890335450803789410475782380792963881561516561680164772024173390nat, modulus());
    lemma_mpow_next(7, 102413818701418340780171368180050714526739360352593042622272770898317541376nat, 4214636447306890335450803789410475782380792963881561516561680164772024173390nat, 0, 36007022166693598376559747923784822035233416720563672082740011604939309541707nat, modulus());
    lemma_mpow_next(7, 204827637402836681560342736360101429053478720705186085244545541796635082752nat, 36007022166693598376559747923784822035233416720563672082740011604939309541707nat, 0, 47309214877430199588914062438791732591241783999377560080318349803002842391998nat, modulus());
    lemma_mpow_next(7, 409655274805673363120685472720202858106957441410372170489091083593270165504nat, 47309214877430199588914062438791732591241783999377560080318349803002842391998nat, 0, 31519469946562159605140591558550197856588417350474800936898404023113662197331nat, modulus());
    lemma_mpow_next(7, 819310549611346726241370945440405716213914882820744340978182167186540331008nat, 31519469946562159605140591558550197856588417350474800936898404023113662197331nat, 0, 36581797046584068049060372878520385032448812009597153775348195406694427778894nat, modulus());
    lemma_mpow_next(7, 1638621099222693452482741890880811432427829765641488681956364334373080662016nat, 36581797046584068049060372878520385032448812009597153775348195406694427778894nat, 0, 14788168760825820622209131888203028446852016562542525606630160374691593895118nat, modulus());
    lemma_mpow_next(7, 3277242198445386904965483781761622864855659531282977363912728668746161324032nat, 14788168760825820622209131888203028446852016562542525606630160374691593895118nat, 0, 23674694431658770659612952115660802947967373701506253797663184111817857449850nat, modulus());
    lemma_mpow_next(7, 6554484396890773809930967563523245729711319062565954727825457337492322648064nat, 23674694431658770659612952115660802947967373701506253797663184111817857449850nat, 0, 3465144826073652318776269530687742778270252468765361963008nat, modulus());
    lemma_mpow_next(7, 13108968793781547619861935127046491459422638125131909455650914674984645296128nat, 3465144826073652318776269530687742778270252468765361963008nat, 0, 52435875175126190479447740508185965837690552500527637822603658699938581184512nat, modulus());
}

/// The generator to the power `(n - 1) / 2` modulo the field order `n`.
proof fn lemma_pow_order_by_2()
    ensures
        mpow(7, 26217937587563095239723870254092982918845276250263818911301829349969290592256nat, modulus()) == 52435875175126190479447740508185965837690552500527637822603658699938581184512nat,
{
    lemma_mpow_first(7, modulus());
    lemma_pow_order_by_2_part0();
    lemma_pow_order_by_2_part1();
    lemma_pow_order_by_2_part2();
    lemma_pow_order_by_2_part3();
    lemma_pow_order_by_2_part4();
    lemma_pow_order_by_2_part5();
    lemma_pow_order_by_2_part6();
    lemma_pow_order_by_2_part7();
    lemma_pow_order_by_2_part8();
    lemma_pow_order_by_2_part9();
    lemma_pow_order_by_2_part10();
    lemma_pow_order_by_2_part11();
    lemma_pow_order_by_2_part12();
    lemma_pow_order_by_2_part13();
    lemma_pow_order_by_2_part14();
    lemma_pow_order_by_2_part15();
}

/// Squarings 1 to 16 of the power below.
#[verifier::spinoff_prover]
#[verifier::rlimit(50)]
proof fn lemma_pow_order_by_3_part0()
    requires
        mpow(7, 1, modulus()) == 7,
    ensures
        mpow(7, 79140, modulus()) == 31370229569018201158085175490708869910453801143705575906407872929129848123799nat,
{
    lemma_mpow_next(7, 1, 7, 0, 49, modulus());
    lemma_mpow_next(7, 2, 49, 0, 2401, modulus());
    lemma_mpow_next(7, 4, 2401, 1, 40353607, modulus());
    lemma_mpow_next(7, 9, 40353607, 1, 11398895185373143, modulus());
    lemma_mpow_next(7, 19, 11398895185373143, 0, 129934811447123020117172145698449nat, modulus());
    lemma_mpow_next(7, 38, 129934811447123020117172145698449nat, 1, 118181386580595879976868414312001964434038548836769923458287039207nat, modulus());
    lemma_mpow_next(7, 77, 118181386580595879976868414312001964434038548836769923458287039207nat, 0, 40764103081196876842556696280259346937554948405502555701329145226261842829405nat, modulus());
    lemma_mpow_next(7, 154, 40764103081196876842556696280259346937554948405502555701329145226261842829405nat, 1, 38696379764620230208601947680976394529438188312086358912809222767423291843421nat, modulus());
    lemma_mpow_next(7, 309, 38696379764620230208601947680976394529438188312086358912809222767423291843421nat, 0, 37651914751171364865593441535777633995415163884281152330702463465846018058821nat, modulus());
    lemma_mpow_next(7, 618, 37651914751171364865593441535777633995415163884281152330702463465846018058821nat, 0, 23929294306921414280855325789905854678005186807064497969489144474753853004001nat, modulus());
    lemma_mpow_next(7, 1236, 23929294306921414280855325789905854678005186807064497969489144474753853004001nat, 1, 7523583347851814188113009236258755674708029325146797758011356173590981528023nat, modulus());
    lemma_mpow_next(7, 2473, 7523583347851814188113009236258755674708029325146797758011356173590981528023nat, 0, 49937468082556280742379179765933191110061932776005211878586843843511871442789nat, modulus());
    lemma_mpow_next(7, 4946, 49937468082556280742379179765933191110061932776005211878586843843511871442789nat, 0, 20049465452971651046528391187836578872560926418335813792229865806138144154777nat, modulus());
    lemma_mpow_next(7, 9892, 20049465452971651046528391187836578872560926418335813792229865806138144154777nat, 1, 35965736964907345309869043711873998804183404708591876385871432050155670135046nat, modulus());
    lemma_mpow_next(7, 19785, 35965736964907345309869043711873998804183404708591876385871432050155670135046nat, 0, 4179305577167864274523677541897497107666038768132127184056419988583553316255nat, modulus());
    lemma_mpow_next(7, 39570, 4179305577167864274523677541897497107666038768132127184056419988583553316255nat, 0, 31370229569018201158085175490708869910453801143705575906407872929129848123799nat, modulus());
}

/// Squarings 17 to 32 of the power below.
#[verifier::spinoff_prover]
#[verifier::rlimit(50)]
proof fn lemma_pow_order_by_3_part1()
    requires
        mpow(7, 79140, modulus()) == 31370229569018201158085175490708869910453801143705575906407872929129848123799nat,
    ensures
        mpow(7, 5186545885, modulus()) == 47234970742035914612424522527350337849657416676411576141362380616908706019185nat,
{
    lemma_mpow_next(7, 79140, 31370229569018201158085175490708869910453801143705575906407872929129848123799nat, 0, 48018650309246867962869383604104267796963271524401442381374531674816211476191nat, modulus());
    lemma_mpow_next(7, 158280, 48018650309246867962869383604104267796963271524401442381374531674816211476191nat, 1, 43669189328624370425961291121707385758352800913974145750187936629655437966451nat, modulus());
    lemma_mpow_next(7, 316561, 43669189328624370425961291121707385758352800913974145750187936629655437966451nat, 1, 16992413689454211709116678042518448973357741457511289875875581039077902376560nat, modulus());
    lemma_mpow_next(7, 633123, 16992413689454211709116678042518448973357741457511289875875581039077902376560nat, 0, 45828794776802351583399773071347091020542502157014674427845246858771109310454nat, modulus());
    lemma_mpow_next(7, 1266246, 45828794776802351583399773071347091020542502157014674427845246858771109310454nat, 1, 49230011419435171422139315175034394016464697856766141125232859107703116759386nat, modulus());
    lemma_mpow_next(7, 2532493, 49230011419435171422139315175034394016464697856766141125232859107703116759386nat, 0, 9555744594361043339382811623499332916067421805804999469632929358684146265873nat, modulus());
    lemma_mpow_next(7, 5064986, 9555744594361043339382811623499332916067421805804999469632929358684146265873nat, 0, 27283111408024138775097459690939389138132268737087390526564892823267068316098nat, modulus());
    lemma_mpow_next(7, 10129972, 27283111408024138775097459690939389138132268737087390526564892823267068316098nat, 0, 28061505338761516197281045779738524225405346320044792670276427335784980958640nat, modulus());
    lemma_mpow_next(7, 20259944, 28061505338761516197281045779738524225405346320044792670276427335784980958640nat, 1, 36837551229445994235763370139141576894121616889915944959836632195214411825445nat, modulus());
    lemma_mpow_next(7, 40519889, 36837551229445994235763370139141576894121616889915944959836632195214411825445nat, 1, 31907076573726394465724705028753841705864988417102126756418731194207455941934nat, modulus());
    lemma_mpow_next(7, 81039779, 31907076573726394465724705028753841705864988417102126756418731194207455941934nat, 0, 28351395099213360236377636556571268887128754471404038313130687803361525176188nat, modulus());
    lemma_mpow_next(7, 162079558, 28351395099213360236377636556571268887128754471404038313130687803361525176188nat, 1, 13967763149898587688672237427130401840010749194676301269918571129691351722733nat, modulus());
    lemma_mpow_next(7, 324159117, 13967763149898587688672237427130401840010749194676301269918571129691351722733nat, 1, 28721545767113582242319810210521756896581509471056681414087701011146356142023nat, modulus());
    lemma_mpow_next(7, 648318235, 28721545767113582242319810210521756896581509471056681414087701011146356142023nat, 1, 12655281985009412446276774367039641812680769235520797864536339140213163921401nat, modulus());
    lemma_mpow_next(7, 1296636471, 12655281985009412446276774367039641812680769235520797864536339140213163921401nat, 0, 23292062611970100589597397885336929831348707657376749222178055446502444078530nat, modulus());
    lemma_mpow_next(7, 2593272942, 23292062611970100589597397885336929831348707657376749222178055446502444078530nat, 1, 47234970742035914612424522527350337849657416676411576141362380616908706019185nat, modulus());
}

/// Squarings 33 to 48 of the power below.
#[verifier::spinoff_prover]
#[verifier::rlimit(50)]
proof fn lemma_pow_order_by_3_part2()
    requires
        mpow(7, 5186545885, modulus()) == 47234970742035914612424522527350337849657416676411576141362380616908706019185nat,
    ensures
        mpow(7, 339905471169614, modulus()) == 32808107157635577703815927485919885132819453044446394287319229893442351752694nat,
{
    lemma_mpow_next(7, 5186545885, 47234970742035914612424522527350337849657416676411576141362380616908706019185nat, 1, 14853296141572940197564370182829349317040447170534572312902129224020407090602nat, modulus());
    lemma_mpow_next(7, 10373091771, 14853296141572940197564370182829349317040447170534572312902129224020407090602nat, 1, 33744540453605820181568239529593755305278106022752753446088537974938254950899nat, modulus());
    lemma_mpow_next(7, 20746183543, 33744540453605820181568239529593755305278106022752753446088537974938254950899nat, 0, 13201219819916478765755547124712879734731198662277811009748361320430315089349nat, modulus());
    lemma_mpow_next(7, 41492367086, 13201219819916478765755547124712879734731198662277811009748361320430315089349nat, 0, 4396455508512346457149031519576078757278307939784776848223595654661249709729nat, modulus());
    lemma_mpow_next(7, 82984734172, 4396455508512346457149031519576078757278307939784776848223595654661249709729nat, 0, 13993724688753577670922282596543800472052733196447807860188537826518121570692nat, modulus());
    lemma_mpow_next(7, 165969468344, 13993724688753577670922282596543800472052733196447807860188537826518121570692nat, 1, 20125922057371754416477971660866926071329038063275489966731202547826798846431nat, modulus());
    lemma_mpow_next(7, 331938936689, 20125922057371754416477971660866926071329038063275489966731202547826798846431nat, 0, 21218329182814228568722912735536670224766539803092820607484383435587477253917nat, modulus());
    lemma_mpow_next(7, 663877873378, 21218329182814228568722912735536670224766539803092820607484383435587477253917nat, 0, 24996612904964615722329971553675081000286976299696549535201019535623879400137nat, modulus());
    lemma_mpow_next(7, 1327755746756, 24996612904964615722329971553675081000286976299696549535201019535623879400137nat, 0, 11226469268656912149328652124573355061027312854330506810436058175536203161767nat, modulus());
    lemma_mpow_next(7, 2655511493512, 11226469268656912149328652124573355061027312854330506810436058175536203161767nat, 1, 41619046124316456691111799082364308604475769362285177626797767420656742369975nat, modulus());
    lemma_mpow_next(7, 5311022987025, 41619046124316456691111799082364308604475769362285177626797767420656742369975nat, 0, 14627301634121049408742325073439694445833099901883232204591366361887398506099nat, modulus());
    lemma_mpow_next(7, 10622045974050, 14627301634121049408742325073439694445833099901883232204591366361887398506099nat, 0, 316467330286569335614710383319438485069879589428833215850771464316884079282nat, modulus());
    lemma_mpow_next(7, 21244091948100, 316467330286569335614710383319438485069879589428833215850771464316884079282nat, 1, 40680426224518791007141613554128467613738629932884841317951441381907660328755nat, modulus());
    lemma_mpow_next(7, 42488183896201, 40680426224518791007141613554128467613738629932884841317951441381907660328755nat, 1, 42908829595949107911473403780289772730511038260667747534353651100683100900594nat, modulus());
    lemma_mpow_next(7, 84976367792403, 42908829595949107911473403780289772730511038260667747534353651100683100900594nat, 1, 13263142092479597993673793947222567145967410814695682236462414458386412193558nat, modulus());
    lemma_mpow_next(7, 169952735584807, 13263142092479597993673793947222567145967410814695682236462414458386412193558nat, 0, 32808107157635577703815927485919885132819453044446394287319229893442351752694nat, modulus());
}

/// Squarings 49 to 64 of the power below.
#[verifier::spinoff_prover]
#[verifier::rlimit(50)]
proof fn lemma_pow_order_by_3_part3()
    requires
        mpow(7, 339905471169614, modulus()) == 32808107157635577703815927485919885132819453044446394287319229893442351752694nat,
    ensures
        mpow(7, 22276044958571864939nat, modulus()) == 4388521026201710969145853991034586044755738524949194843024306516650740655674nat,
{
    lemma_mpow_next(7, 339905471169614, 32808107157635577703815927485919885132819453044446394287319229893442351752694nat, 1, 13878623439237248404162432983565957619662317384415023855055394693658104780028nat, modulus());
    lemma_mpow_next(7, 679810942339229, 13878623439237248404162432983565957619662317384415023855055394693658104780028nat, 0, 21813655681998032091487179196844320746381273136482862200150650658080450041016nat, modulus());
    lemma_mpow_next(7, 1359621884678458, 21813655681998032091487179196844320746381273136482862200150650658080450041016nat, 1, 43034239016861016521542244892748431261529788843554070150922966219045557562087nat, modulus());
    lemma_mpow_next(7, 2719243769356917, 43034239016861016521542244892748431261529788843554070150922966219045557562087nat, 0, 14334358548967353065222141463331899698287566949146577322527000845581115623965nat, modulus());
    lemma_mpow_next(7, 5438487538713834, 14334358548967353065222141463331899698287566949146577322527000845581115623965nat, 0, 14303450118628149064749001375929545463847713786795715062718431377680865551197nat, modulus());
    lemma_mpow_next(7, 10876975077427668, 14303450118628149064749001375929545463847713786795715062718431377680865551197nat, 0, 5884681451336595076873616172417416728411471300806780351777827462973702464683nat, modulus());
    lemma_mpow_next(7, 21753950154855336, 5884681451336595076873616172417416728411471300806780351777827462973702464683nat, 1, 44822764295869808717540979844999845442031888290869514251564547881264139818782nat, modulus());
    lemma_mpow_next(7, 43507900309710673, 44822764295869808717540979844999845442031888290869514251564547881264139818782nat, 1, 37712593519599715455387549625339960598517352400103203828121598515605265268554nat, modulus());
    lemma_mpow_next(7, 87015800619421347, 37712593519599715455387549625339960598517352400103203828121598515605265268554nat, 0, 45195329267877070769139223170777240075476644512501512997900197019515152940870nat, modulus());
    lemma_mpow_next(7, 174031601238842694, 45195329267877070769139223170777240075476644512501512997900197019515152940870nat, 1, 15266819178880720640997262352867203575748574114953146416791816799108022195239nat, modulus());
    lemma_mpow_next(7, 348063202477685389, 15266819178880720640997262352867203575748574114953146416791816799108022195239nat, 1, 40969023394776405472565449027588389208418245250654714736892187951589218619429nat, modulus());
    lemma_mpow_next(7, 696126404955370779, 40969023394776405472565449027588389208418245250654714736892187951589218619429nat, 0, 18543366683611924338629522789567146387844601873755277826782440572010079190591nat, modulus());
    lemma_mpow_next(7, 1392252809910741558nat, 18543366683611924338629522789567146387844601873755277826782440572010079190591nat, 1, 31886752140716998168049649659381153234624737804518581184667929870075712853939nat, modulus());
    lemma_mpow_next(7, 2784505619821483117nat, 31886752140716998168049649659381153234624737804518581184667929870075712853939nat, 0, 25446423378218258681400089857511634342548407241339226179066642105168220969196nat, modulus());
    lemma_mpow_next(7, 5569011239642966234nat, 25446423378218258681400089857511634342548407241339226179066642105168220969196nat, 1, 18362536665598724488013212709995428863110491824741997072415277041195906254322nat, modulus());
    lemma_mpow_next(7, 11138022479285932469nat, 18362536665598724488013212709995428863110491824741997072415277041195906254322nat, 1, 4388521026201710969145853991034586044755738524949194843024306516650740655674nat, modulus());
}

/// Squarings 65 to 80 of the power below.
#[verifier::spinoff_prover]
#[verifier::rlimit(50)]
proof fn lemma_pow_order_by_3_part4()
    requires
        mpow(7, 22276044958571864939nat, modulus()) == 4388521026201710969145853991034586044755738524949194843024306516650740655674nat,
    ensures
        mpow(7, 1459882882404965740655428nat, modulus()) == 9732965118107538010584910636229830208900647071941721894763075664796669422440nat,
{
    lemma_mpow_next(7, 22276044958571864939nat, 4388521026201710969145853991034586044755738524949194843024306516650740655674nat, 0, 11251512553891189706948215355775034993408119762315783847343001224194291239838nat, modulus());
    lemma_mpow_next(7, 44552089917143729878nat, 11251512553891189706948215355775034993408119762315783847343001224194291239838nat, 0, 27486821755023025411255391876330096536878594342250013944450790991298342052244nat, modulus());
    lemma_mpow_next(7, 89104179834287459756nat, 27486821755023025411255391876330096536878594342250013944450790991298342052244nat, 1, 40736253833431348864169810303219066620170782599485786709902122883042073509478nat, modulus());
    lemma_mpow_next(7, 178208359668574919513nat, 40736253833431348864169810303219066620170782599485786709902122883042073509478nat, 1, 3927909521261116535152293019038834696882422804298775396943953921440474359707nat, modulus());
    lemma_mpow_next(7, 356416719337149839027nat, 3927909521261116535152293019038834696882422804298775396943953921440474359707nat, 0, 20028920716659457704587856041134964315001733301112513984788701832905456549059nat, modulus());
    lemma_mpow_next(7, 712833438674299678054nat, 20028920716659457704587856041134964315001733301112513984788701832905456549059nat, 0, 47139270950504128748670639466821964844724631669607537673557910473646006673341nat, modulus());
    lemma_mpow_next(7, 1425666877348599356108nat, 47139270950504128748670639466821964844724631669607537673557910473646006673341nat, 1, 14562441110993699015956741373889358113977020447927255312047425460750824375040nat, modulus());
    lemma_mpow_next(7, 2851333754697198712217nat, 14562441110993699015956741373889358113977020447927255312047425460750824375040nat, 1, 6952812367610181679172787513263169432416531069497946362398114634194881744402nat, modulus());
    lemma_mpow_next(7, 5702667509394397424435nat, 6952812367610181679172787513263169432416531069497946362398114634194881744402nat, 0, 31785689909513168387088550804424835826065651448356032417887310652203579102395nat, modulus());
    lemma_mpow_next(7, 11405335018788794848870nat, 31785689909513168387088550804424835826065651448356032417887310652203579102395nat, 1, 47666013883504744821613776359735823677954140612556129659096677191799275659694nat, modulus());
    lemma_mpow_next(7, 22810670037577589697741nat, 47666013883504744821613776359735823677954140612556129659096677191799275659694nat, 0, 27553038090746318896701195657220616543357086239893074795980292365563461118928nat, modulus());
    lemma_mpow_next(7, 45621340075155179395482nat, 27553038090746318896701195657220616543357086239893074795980292365563461118928nat, 0, 3581504944267374117722508737182761289920317422189409719061264937758497686029nat, modulus());
    lemma_mpow_next(7, 91242680150310358790964nat, 3581504944267374117722508737182761289920317422189409719061264937758497686029nat, 0, 13240055920533648125017627777403887410741775921812200148641248232361943761173nat, modulus());
    lemma_mpow_next(7, 182485360300620717581928nat, 13240055920533648125017627777403887410741775921812200148641248232361943761173nat, 1, 52122570481676206268587946164920859514377241756577470859581334144554195003828nat, modulus());
    lemma_mpow_next(7, 364970720601241435163857nat, 52122570481676206268587946164920859514377241756577470859581334144554195003828nat, 0, 21383073205020732014377485992724457885852088347966465916145057788109650492425nat, modulus());
    lemma_mpow_next(7, 729941441202482870327714nat, 21383073205020732014377485992724457885852088347966465916145057788109650492425nat, 0, 9732965118107538010584910636229830208900647071941721894763075664796669422440nat, modulus());
}

/// Squarings 81 to 96 of the power below.
#[verifier::spinoff_prover]
#[verifier::rlimit(50)]
proof fn lemma_pow_order_by_3_part5()
    requires
        mpow(7, 1459882882404965740655428nat, modulus()) == 9732965118107538010584910636229830208900647071941721894763075664796669422440nat,
    ensures
        mpow(7, 95674884581291834779594189504nat, modulus()) == 18632028826395913687262767903062749688978623662644809627300916096435874954374nat,
{
    lemma_mpow_next(7, 1459882882404965740655428nat, 9732965118107538010584910636229830208900647071941721894763075664796669422440nat, 1, 17564573670966895414330545731889992615812000762625737014072480310193766535311nat, modulus());
    lemma_mpow_next(7, 2919765764809931481310857nat, 17564573670966895414330545731889992615812000762625737014072480310193766535311nat, 1, 34222896058723219711595307966665504058895246943660860214680090185979598313919nat, modulus());
    lemma_mpow_next(7, 5839531529619862962621715nat, 34222896058723219711595307966665504058895246943660860214680090185979598313919nat, 1, 51148173546892700546370143481405368117213788580308563531914111685412392501754nat, modulus());
    lemma_mpow_next(7, 11679063059239725925243431nat, 51148173546892700546370143481405368117213788580308563531914111685412392501754nat, 0, 8614382372498693633451545990580324572386249567424366944144887045164350488408nat, modulus());
    lemma_mpow_next(7, 23358126118479451850486862nat, 8614382372498693633451545990580324572386249567424366944144887045164350488408nat, 1, 50447574447870080768985964633854504974748996727587766318389633018809850455867nat, modulus());
    lemma_mpow_next(7, 46716252236958903700973725nat, 50447574447870080768985964633854504974748996727587766318389633018809850455867nat, 0, 49694386849178192120473922765818847071927590590252397920473800023374656062183nat, modulus());
    lemma_mpow_next(7, 93432504473917807401947450nat, 49694386849178192120473922765818847071927590590252397920473800023374656062183nat, 1, 19374048383515604193215844029290413226811722118462050045295990758774292128161nat, modulus());
    lemma_mpow_next(7, 186865008947835614803894901nat, 19374048383515604193215844029290413226811722118462050045295990758774292128161nat, 0, 49968325209135267161972799794186266654645815252330758573868206104316430431194nat, modulus());
    lemma_mpow_next(7, 373730017895671229607789802nat, 49968325209135267161972799794186266654645815252330758573868206104316430431194nat, 1, 5448460504254002372165448387215855123218978141170725046920520684686770498522nat, modulus());
    lemma_mpow_next(7, 747460035791342459215579605nat, 5448460504254002372165448387215855123218978141170725046920520684686770498522nat, 1, 2319414165368460533198790142774500284873440541891341276864256469346315602780nat, modulus());
    lemma_mpow_next(7, 1494920071582684918431159211nat, 2319414165368460533198790142774500284873440541891341276864256469346315602780nat, 0, 1059338690470831589990314999761201648366187070208885164817096591083509581580nat, modulus());
    lemma_mpow_next(7, 2989840143165369836862318422nat, 1059338690470831589990314999761201648366187070208885164817096591083509581580nat, 0, 50608557605273764028157004184140455595706194799385487687444427503421806007537nat, modulus());
    lemma_mpow_next(7, 5979680286330739673724636844nat, 50608557605273764028157004184140455595706194799385487687444427503421806007537nat, 0, 6011585381710485568947999951739639284175567488869568441688221073786346342810nat, modulus());
    lemma_mpow_next(7, 11959360572661479347449273688nat, 6011585381710485568947999951739639284175567488869568441688221073786346342810nat, 0, 37785351062848766883913073655890741322850376082193111389084756881255566203244nat, modulus());
    lemma_mpow_next(7, 23918721145322958694898547376nat, 37785351062848766883913073655890741322850376082193111389084756881255566203244nat, 0, 37142990860347800493609463307598863219172232192766908030901070402322385973256nat, modulus());
    lemma_mpow_next(7, 47837442290645917389797094752nat, 37142990860347800493609463307598863219172232192766908030901070402322385973256nat, 0, 18632028826395913687262767903062749688978623662644809627300916096435874954374nat, modulus());
}

/// Squarings 97 to 112 of the power below.
#[verifier::spinoff_prover]
#[verifier::rlimit(50)]
proof fn lemma_pow_order_by_3_part6()
    requires
        mpow(7, 95674884581291834779594189504nat, modulus()) == 18632028826395913687262767903062749688978623662644809627300916096435874954374nat,
    ensures
        mpow(7, 6270149235919541684115484803340719nat, modulus()) == 6426808467114661883653364435791530604665311506931095364793152054389166926520nat,
{
    lemma_mpow_next(7, 95674884581291834779594189504nat, 18632028826395913687262767903062749688978623662644809627300916096435874954374nat, 0, 17058561483133899917691530702281288781271425502496949275444822457000121110084nat, modulus());
    lemma_mpow_next(7, 191349769162583669559188379008nat, 17058561483133899917691530702281288781271425502496949275444822457000121110084nat, 0, 51658634547898860859751156986277561373346957654628916691119360472779067746176nat, modulus());
    lemma_mpow_next(7, 382699538325167339118376758016nat, 51658634547898860859751156986277561373346957654628916691119360472779067746176nat, 0, 51958743418532481552095977294758604826053351438641197630110982646763052161240nat, modulus());
    lemma_mpow_next(7, 765399076650334678236753516032nat, 51958743418532481552095977294758604826053351438641197630110982646763052161240nat, 1, 41007746754071940839205317199709715563958690632121603501870592520739816185385nat, modulus());
    lemma_mpow_next(7, 1530798153300669356473507032065nat, 41007746754071940839205317199709715563958690632121603501870592520739816185385nat, 1, 42687211583932332975188593343091941636126844677501504791001507286398496783174nat, modulus());
    lemma_mpow_next(7, 3061596306601338712947014064131nat, 42687211583932332975188593343091941636126844677501504791001507286398496783174nat, 0, 33033351370148606375557260180358012012377386846506228225506447654033215713622nat, modulus());
    lemma_mpow_next(7, 6123192613202677425894028128262nat, 33033351370148606375557260180358012012377386846506228225506447654033215713622nat, 0, 11250359802225149302142802197563234269061269449160775610231152463208385338911nat, modulus());
    lemma_mpow_next(7, 12246385226405354851788056256524nat, 11250359802225149302142802197563234269061269449160775610231152463208385338911nat, 1, 30649105837816100957971082718319335066132097819952713217126874906928597168575nat, modulus());
    lemma_mpow_next(7, 24492770452810709703576112513049nat, 30649105837816100957971082718319335066132097819952713217126874906928597168575nat, 1, 5826556089551683158941817637746741692886899692195528581799055114421201117329nat, modulus());
    lemma_mpow_next(7, 48985540905621419407152225026099nat, 5826556089551683158941817637746741692886899692195528581799055114421201117329nat, 0, 10489265266385007180151998618018864090052080060987160091593362902583233353866nat, modulus());
    lemma_mpow_next(7, 97971081811242838814304450052198nat, 10489265266385007180151998618018864090052080060987160091593362902583233353866nat, 1, 40513188361957935591800784276866543135477135984169894842414092388227988263259nat, modulus());
    lemma_mpow_next(7, 195942163622485677628608900104397nat, 40513188361957935591800784276866543135477135984169894842414092388227988263259nat, 0, 14358822337440947084788312741232451738763296221616046850129769145698372345921nat, modulus());
    lemma_mpow_next(7, 391884327244971355257217800208794nat, 14358822337440947084788312741232451738763296221616046850129769145698372345921nat, 1, 23203051023248708280024082295796527718952082438206773933955666028160510058940nat, modulus());
    lemma_mpow_next(7, 783768654489942710514435600417589nat, 23203051023248708280024082295796527718952082438206773933955666028160510058940nat, 1, 35860823803896525341782892218252090835959540098082762369427901052919354122079nat, modulus());
    lemma_mpow_next(7, 1567537308979885421028871200835179nat, 35860823803896525341782892218252090835959540098082762369427901052919354122079nat, 1, 19172467151567140612014399570886848327142765509040286289056823912388090382858nat, modulus());
    lemma_mpow_next(7, 3135074617959770842057742401670359nat, 19172467151567140612014399570886848327142765509040286289056823912388090382858nat, 1, 6426808467114661883653364435791530604665311506931095364793152054389166926520nat, modulus());
}

/// Squarings 113 to 128 of the power below.
#[verifier::spinoff_prover]
#[verifier::rlimit(50)]
proof fn lemma_pow_order_by_3_part7()
    requires
        mpow(7, 6270149235919541684115484803340719nat, modulus()) == 6426808467114661883653364435791530604665311506931095364793152054389166926520nat,
    ensures
        mpow(7, 410920500325223083810192412071737398627nat, modulus()) == 51020348430699110524811591480683299971870644077252405112571799584207622297385nat,
{
    lemma_mpow_next(7, 6270149235919541684115484803340719nat, 6426808467114661883653364435791530604665311506931095364793152054389166926520nat, 1, 38668220525452791042633631486253459936830674243214552675710873092510403178177nat, modulus());
    lemma_mpow_next(7, 12540298471839083368230969606681439nat, 38668220525452791042633631486253459936830674243214552675710873092510403178177nat, 0, 19110249092591313193072608894978647282121484337092203050471298711303129615974nat, modulus());
    lemma_mpow_next(7, 25080596943678166736461939213362878nat, 19110249092591313193072608894978647282121484337092203050471298711303129615974nat, 0, 9220321859787531546687899715056738446040575479686980295683458912122033604231nat, modulus());
    lemma_mpow_next(7, 50161193887356333472923878426725756nat, 9220321859787531546687899715056738446040575479686980295683458912122033604231nat, 1, 3281606517750510939251045786789550991858464950237172510118497591631931990418nat, modulus());
    lemma_mpow_next(7, 100322387774712666945847756853451513nat, 3281606517750510939251045786789550991858464950237172510118497591631931990418nat, 0, 30885041323326746918309055896629705904106859391603372500257655507628589476951nat, modulus());
    lemma_mpow_next(7, 200644775549425333891695513706903026nat, 30885041323326746918309055896629705904106859391603372500257655507628589476951nat, 1, 17574374397076068472747860595972831718765617822365036884704875358209842347050nat, modulus());
    lemma_mpow_next(7, 401289551098850667783391027413806053nat, 17574374397076068472747860595972831718765617822365036884704875358209842347050nat, 0, 43538992606881727299497382004239201310601628261357065579000217024226944423109nat, modulus());
    lemma_mpow_next(7, 802579102197701335566782054827612106nat, 43538992606881727299497382004239201310601628261357065579000217024226944423109nat, 1, 49219313409803257755639217964151167745599303213164509644326058315355519274849nat, modulus());
    lemma_mpow_next(7, 1605158204395402671133564109655224213nat, 49219313409803257755639217964151167745599303213164509644326058315355519274849nat, 0, 21169915347860801378904920922895976134322972638443851006268361383372418576057nat, modulus());
    lemma_mpow_next(7, 3210316408790805342267128219310448426nat, 21169915347860801378904920922895976134322972638443851006268361383372418576057nat, 1, 254143486767526232124633865666654725289997738699100929833778662235579819889nat, modulus());
    lemma_mpow_next(7, 6420632817581610684534256438620896853nat, 254143486767526232124633865666654725289997738699100929833778662235579819889nat, 1, 4208107055195598536069467966992165514634493756400032733207902109892135657888nat, modulus());
    lemma_mpow_next(7, 12841265635163221369068512877241793707nat, 4208107055195598536069467966992165514634493756400032733207902109892135657888nat, 0, 16328017782647899880668209650775135892441456020608349177252585188364260107024nat, modulus());
    lemma_mpow_next(7, 25682531270326442738137025754483587414nat, 16328017782647899880668209650775135892441456020608349177252585188364260107024nat, 0, 21186291875923738416350455434674531468688599554447509109119324084295261222641nat, modulus());
    lemma_mpow_next(7, 51365062540652885476274051508967174828nat, 21186291875923738416350455434674531468688599554447509109119324084295261222641nat, 0, 2853778554604401742285085316966578375142492726409459790675656408829016335670nat, modulus());
    lemma_mpow_next(7, 102730125081305770952548103017934349656nat, 2853778554604401742285085316966578375142492726409459790675656408829016335670nat, 1, 10983584332551971379965381628549893006881660687565769360350388788207670980632nat, modulus());
    lemma_mpow_next(7, 205460250162611541905096206035868699313nat, 10983584332551971379965381628549893006881660687565769360350388788207670980632nat, 1, 51020348430699110524811591480683299971870644077252405112571799584207622297385nat, modulus());
}

/// Squarings 129 to 144 of the power below.
#[verifier::spinoff_prover]
#[verifier::rlimit(50)]
proof fn lemma_pow_order_by_3_part8()
    requires
        mpow(7, 410920500325223083810192412071737398627nat, modulus()) == 51020348430699110524811591480683299971870644077252405112571799584207622297385nat,
    ensures
        mpow(7, 26930085909313820020584769917533382156454393nat, modulus()) == 10683609135161065980833979909657290330564899619827715709111194629243524842129nat,
{
    lemma_mpow_next(7, 410920500325223083810192412071737398627nat, 51020348430699110524811591480683299971870644077252405112571799584207622297385nat, 1, 47264972447011258526147922321150356504749994379368647060394194062749360049832nat, modulus());
    lemma_mpow_next(7, 821841000650446167620384824143474797255nat, 47264972447011258526147922321150356504749994379368647060394194062749360049832nat, 0, 35251174822260592240156807199346190513586838719161338016925940372249041896869nat, modulus());
    lemma_mpow_next(7, 1643682001300892335240769648286949594510nat, 35251174822260592240156807199346190513586838719161338016925940372249041896869nat, 0, 51899554861585964847000437268388188899889842002305234119945959327424283784253nat, modulus());
    lemma_mpow_next(7, 3287364002601784670481539296573899189020nat, 51899554861585964847000437268388188899889842002305234119945959327424283784253nat, 0, 49094564992653274808695597780783121605927549801323161903617018266237987163256nat, modulus());
    lemma_mpow_next(7, 6574728005203569340963078593147798378040nat, 49094564992653274808695597780783121605927549801323161903617018266237987163256nat, 1, 26428305111653942692019947850851938248232697888661375233403919896482689071061nat, modulus());
    lemma_mpow_next(7, 13149456010407138681926157186295596756081nat, 26428305111653942692019947850851938248232697888661375233403919896482689071061nat, 0, 50942714654140912529127480887275528861844203627236194132545371184717417768008nat, modulus());
    lemma_mpow_next(7, 26298912020814277363852314372591193512162nat, 50942714654140912529127480887275528861844203627236194132545371184717417768008nat, 0, 17819332993889971065351910281453115745727622930780277808311391856380595327850nat, modulus());
    lemma_mpow_next(7, 52597824041628554727704628745182387024324nat, 17819332993889971065351910281453115745727622930780277808311391856380595327850nat, 1, 12967110137223985081919922587695791064349627213379965198156019357136860834345nat, modulus());
    lemma_mpow_next(7, 105195648083257109455409257490364774048649nat, 12967110137223985081919922587695791064349627213379965198156019357136860834345nat, 1, 3616057709610845276401180649455365189280971050990310443325641367404205045654nat, modulus());
    lemma_mpow_next(7, 210391296166514218910818514980729548097299nat, 3616057709610845276401180649455365189280971050990310443325641367404205045654nat, 1, 26940639906434063763770651667379245548504647312656895863049228909179520864938nat, modulus());
    lemma_mpow_next(7, 420782592333028437821637029961459096194599nat, 26940639906434063763770651667379245548504647312656895863049228909179520864938nat, 1, 36484016678357888319730302856046074523855475235829163406470073655764637185795nat, modulus());
    lemma_mpow_next(7, 841565184666056875643274059922918192389199nat, 36484016678357888319730302856046074523855475235829163406470073655764637185795nat, 1, 2003670952397429510526840087099537666388106910161769137330054807130251723197nat, modulus());
    lemma_mpow_next(7, 1683130369332113751286548119845836384778399nat, 2003670952397429510526840087099537666388106910161769137330054807130251723197nat, 1, 39448688423077216152580062321679012527554000428721191088990707819559521573778nat, modulus());
    lemma_mpow_next(7, 3366260738664227502573096239691672769556799nat, 39448688423077216152580062321679012527554000428721191088990707819559521573778nat, 0, 18461620791304023629384260199291990858251314628583402619966119683109646441780nat, modulus());
    lemma_mpow_next(7, 6732521477328455005146192479383345539113598nat, 18461620791304023629384260199291990858251314628583402619966119683109646441780nat, 0, 31867466127289436866482004416332394651132236194236630433431683193025402114240nat, modulus());
    lemma_mpow_next(7, 13465042954656910010292384958766691078227196nat, 31867466127289436866482004416332394651132236194236630433431683193025402114240nat, 1, 10683609135161065980833979909657290330564899619827715709111194629243524842129nat, modulus());
}

/// Squarings 145 to 160 of the power below.
#[verifier::spinoff_prover]
#[verifier::rlimit(50)]
proof fn lemma_pow_order_by_3_part9()
    requires
        mpow(7, 26930085909313820020584769917533382156454393nat, modulus()) == 10683609135161065980833979909657290330564899619827715709111194629243524842129nat,
    ensures
        mpow(7, 1764890110152790508869043481315467733005395146077nat, modulus()) == 47871817658751750776561479485921627345438020500743128867770780380595739209301nat,
{
    lemma_mpow_next(7, 26930085909313820020584769917533382156454393nat, 10683609135161065980833979909657290330564899619827715709111194629243524842129nat, 1, 49108153999107572996849702419249039521724220755724397382862293707337386697771nat, modulus());
    lemma_mpow_next(7, 53860171818627640041169539835066764312908787nat, 49108153999107572996849702419249039521724220755724397382862293707337386697771nat, 0, 29314188188545448849111005626755685389968034449017461687382325357193900023941nat, modulus());
    lemma_mpow_next(7, 107720343637255280082339079670133528625817574nat, 29314188188545448849111005626755685389968034449017461687382325357193900023941nat, 1, 6029142717504653598443392161288351882459079680736781132508267990414450295011nat, modulus());
    lemma_mpow_next(7, 215440687274510560164678159340267057251635149nat, 6029142717504653598443392161288351882459079680736781132508267990414450295011nat, 1, 51652938803239541606168699193198915839755793418166533432040704676429974731280nat, modulus());
    lemma_mpow_next(7, 430881374549021120329356318680534114503270299nat, 51652938803239541606168699193198915839755793418166533432040704676429974731280nat, 0, 13798073461774574469072420382694970740770832642535270634178927148698828549002nat, modulus());
    lemma_mpow_next(7, 861762749098042240658712637361068229006540598nat, 13798073461774574469072420382694970740770832642535270634178927148698828549002nat, 1, 43208964246127574230343912795546739020200931870501108788537292849698178337877nat, modulus());
    lemma_mpow_next(7, 1723525498196084481317425274722136458013081197nat, 43208964246127574230343912795546739020200931870501108788537292849698178337877nat, 0, 26821005871442907644623214597519353647568821079309746939087145326637353805163nat, modulus());
    lemma_mpow_next(7, 3447050996392168962634850549444272916026162394nat, 26821005871442907644623214597519353647568821079309746939087145326637353805163nat, 1, 1608822390070220581255469997888332304157202179800452705773359298488278754101nat, modulus());
    lemma_mpow_next(7, 6894101992784337925269701098888545832052324789nat, 1608822390070220581255469997888332304157202179800452705773359298488278754101nat, 0, 32869229814177083628518592351476297548532683765223311704189976101798321241987nat, modulus());
    lemma_mpow_next(7, 13788203985568675850539402197777091664104649578nat, 32869229814177083628518592351476297548532683765223311704189976101798321241987nat, 1, 9206144032996603249946562463888578538645798559765560916130817746948606495737nat, modulus());
    lemma_mpow_next(7, 27576407971137351701078804395554183328209299157nat, 9206144032996603249946562463888578538645798559765560916130817746948606495737nat, 0, 9621026399605595661764464773845577611230312776155179404405221850292528748498nat, modulus());
    lemma_mpow_next(7, 55152815942274703402157608791108366656418598314nat, 9621026399605595661764464773845577611230312776155179404405221850292528748498nat, 1, 5035685968029606432809540381790729389926547065961240930508302202341751400777nat, modulus());
    lemma_mpow_next(7, 110305631884549406804315217582216733312837196629nat, 5035685968029606432809540381790729389926547065961240930508302202341751400777nat, 1, 29685684830979481850712604616490426684576007147184217392951718433406690696133nat, modulus());
    lemma_mpow_next(7, 220611263769098813608630435164433466625674393259nat, 29685684830979481850712604616490426684576007147184217392951718433406690696133nat, 1, 21047692766421764703532856807928915290726174772227537354884800660577941409960nat, modulus());
    lemma_mpow_next(7, 441222527538197627217260870328866933251348786519nat, 21047692766421764703532856807928915290726174772227537354884800660577941409960nat, 0, 50213410627833881485633450392213965691798874876317054595822026538533810821700nat, modulus());
    lemma_mpow_next(7, 882445055076395254434521740657733866502697573038nat, 50213410627833881485633450392213965691798874876317054595822026538533810821700nat, 1, 47871817658751750776561479485921627345438020500743128867770780380595739209301nat, modulus());
}

/// Squarings 161 to 176 of the power below.
#[verifier::spinoff_prover]
#[verifier::rlimit(50)]
proof fn lemma_pow_order_by_3_part10()
    requires
        mpow(7, 1764890110152790508869043481315467733005395146077nat, modulus()) == 47871817658751750776561479485921627345438020500743128867770780380595739209301nat,
    ensures
        mpow(7, 115663838258973278789241633591490493350241576293324112nat, modulus()) == 22349245653446896524341315351980169091842762964364925705139506698244803781346nat,
{
    lemma_mpow_next(7, 1764890110152790508869043481315467733005395146077nat, 47871817658751750776561479485921627345438020500743128867770780380595739209301nat, 0, 10067871735701078915991740450406865978658641653488461710446372749058449331422nat, modulus());
    lemma_mpow_next(7, 3529780220305581017738086962630935466010790292154nat, 10067871735701078915991740450406865978658641653488461710446372749058449331422nat, 1, 1332660239211880315835870367357219002086995905958772589082548770879370575583nat, modulus());
    lemma_mpow_next(7, 7059560440611162035476173925261870932021580584309nat, 1332660239211880315835870367357219002086995905958772589082548770879370575583nat, 0, 6573625522413548236800862071403869946113222275565804759478388972066956587574nat, modulus());
    lemma_mpow_next(7, 14119120881222324070952347850523741864043161168618nat, 6573625522413548236800862071403869946113222275565804759478388972066956587574nat, 1, 14998209358041330439591158488537926019955145492782819768590259006136082246447nat, modulus());
    lemma_mpow_next(7, 28238241762444648141904695701047483728086322337237nat, 14998209358041330439591158488537926019955145492782819768590259006136082246447nat, 0, 3543195700774057006022139920571515250332428827400308706877885256276831104726nat, modulus());
    lemma_mpow_next(7, 56476483524889296283809391402094967456172644674474nat, 3543195700774057006022139920571515250332428827400308706877885256276831104726nat, 1, 23961232510530321234046483350463457854300624903703961733786265314484213931735nat, modulus());
    lemma_mpow_next(7, 112952967049778592567618782804189934912345289348949nat, 23961232510530321234046483350463457854300624903703961733786265314484213931735nat, 0, 24460290460758655195186021667120115784043172098090292258364991799677426727627nat, modulus());
    lemma_mpow_next(7, 225905934099557185135237565608379869824690578697898nat, 24460290460758655195186021667120115784043172098090292258364991799677426727627nat, 1, 20198413863224541385804797852623549275556067483067663535334580547057558207959nat, modulus());
    lemma_mpow_next(7, 451811868199114370270475131216759739649381157395797nat, 20198413863224541385804797852623549275556067483067663535334580547057558207959nat, 0, 33713213825595821617575688117316624468959120754300024011275770055352130281786nat, modulus());
    lemma_mpow_next(7, 903623736398228740540950262433519479298762314791594nat, 33713213825595821617575688117316624468959120754300024011275770055352130281786nat, 1, 33428650633024184507244417241811552126132658377083853383787807460515205238252nat, modulus());
    lemma_mpow_next(7, 1807247472796457481081900524867038958597524629583189nat, 33428650633024184507244417241811552126132658377083853383787807460515205238252nat, 0, 31458905431601667633023366592163591411667392390822161572743988233584712248587nat, modulus());
    lemma_mpow_next(7, 3614494945592914962163801049734077917195049259166378nat, 31458905431601667633023366592163591411667392390822161572743988233584712248587nat, 1, 31724757602328002460699103779919160422307009394087138238698289993675308992244nat, modulus());
    lemma_mpow_next(7, 7228989891185829924327602099468155834390098518332757nat, 31724757602328002460699103779919160422307009394087138238698289993675308992244nat, 0, 15542649796542259044355529681267861591374271687273400257830815616989679261880nat, modulus());
    lemma_mpow_next(7, 14457979782371659848655204198936311668780197036665514nat, 15542649796542259044355529681267861591374271687273400257830815616989679261880nat, 0, 16421276018080887573074802381072069510810063467266626193605030510766165029136nat, modulus());
    lemma_mpow_next(7, 28915959564743319697310408397872623337560394073331028nat, 16421276018080887573074802381072069510810063467266626193605030510766165029136nat, 0, 27616746877486872828360607186977977233825133575359821739119736270608193745680nat, modulus());
    lemma_mpow_next(7, 57831919129486639394620816795745246675120788146662056nat, 27616746877486872828360607186977977233825133575359821739119736270608193745680nat, 0, 22349245653446896524341315351980169091842762964364925705139506698244803781346nat, modulus());
}

/// Squarings 177 to 192 of the power below.
#[verifier::spinoff_prover]
#[verifier::rlimit(50)]
proof fn lemma_pow_order_by_3_part11()
    requires
        mpow(7, 115663838258973278789241633591490493350241576293324112nat, modulus()) == 22349245653446896524341315351980169091842762964364925705139506698244803781346nat,
    ensures
        mpow(7, 7580145304140072798731739699051920972201431943959289066834nat, modulus()) == 50444239598809609210510254442258921365830613921043709327601321151828596548901nat,
{
    lemma_mpow_next(7, 115663838258973278789241633591490493350241576293324112nat, 22349245653446896524341315351980169091842762964364925705139506698244803781346nat, 1, 51519663216406590933932060818014742192221504402121770360413606015391947857398nat, modulus());
    lemma_mpow_next(7, 231327676517946557578483267182980986700483152586648225nat, 51519663216406590933932060818014742192221504402121770360413606015391947857398nat, 1, 14296025726785663769733863053823705112876493477397622711001384568038886615397nat, modulus());
    lemma_mpow_next(7, 462655353035893115156966534365961973400966305173296451nat, 14296025726785663769733863053823705112876493477397622711001384568038886615397nat, 1, 7541643314303272158846486925387710266589066115131285111818394551001456398978nat, modulus());
    lemma_mpow_next(7, 925310706071786230313933068731923946801932610346592903nat, 7541643314303272158846486925387710266589066115131285111818394551001456398978nat, 1, 31034005787381103381349222353436177310532663752639518790241855237595989629463nat, modulus());
    lemma_mpow_next(7, 1850621412143572460627866137463847893603865220693185807nat, 31034005787381103381349222353436177310532663752639518790241855237595989629463nat, 0, 4586893854646385464605033419226396152641997743358390742366417224593396691060nat, modulus());
    lemma_mpow_next(7, 3701242824287144921255732274927695787207730441386371614nat, 4586893854646385464605033419226396152641997743358390742366417224593396691060nat, 1, 3892487423429064042089269701680753870015184019417587278770360399007566819898nat, modulus());
    lemma_mpow_next(7, 7402485648574289842511464549855391574415460882772743229nat, 3892487423429064042089269701680753870015184019417587278770360399007566819898nat, 0, 8053397317250643075400133150191858606146563415429717257315234539574820378689nat, modulus());
    lemma_mpow_next(7, 14804971297148579685022929099710783148830921765545486458nat, 8053397317250643075400133150191858606146563415429717257315234539574820378689nat, 1, 11691404953362448539201175773132668277774670407913828996340669638482218997009nat, modulus());
    lemma_mpow_next(7, 29609942594297159370045858199421566297661843531090972917nat, 11691404953362448539201175773132668277774670407913828996340669638482218997009nat, 0, 33456054570483004481632121586843527782130049524522209573474667437811044250820nat, modulus());
    lemma_mpow_next(7, 59219885188594318740091716398843132595323687062181945834nat, 33456054570483004481632121586843527782130049524522209573474667437811044250820nat, 1, 13157777449815395213882462476936834624197548573537655005913855396128346988670nat, modulus());
    lemma_mpow_next(7, 118439770377188637480183432797686265190647374124363891669nat, 13157777449815395213882462476936834624197548573537655005913855396128346988670nat, 0, 11141194781299981612902600003411187497509704738734768298643677430926958411677nat, modulus());
    lemma_mpow_next(7, 236879540754377274960366865595372530381294748248727783338nat, 11141194781299981612902600003411187497509704738734768298643677430926958411677nat, 1, 48351644775248003136243433002331999655543671431866970016310496040992381314644nat, modulus());
    lemma_mpow_next(7, 473759081508754549920733731190745060762589496497455566677nat, 48351644775248003136243433002331999655543671431866970016310496040992381314644nat, 0, 3823222564864861063775440578124508519755666315169542624904347952088548912808nat, modulus());
    lemma_mpow_next(7, 947518163017509099841467462381490121525178992994911133354nat, 3823222564864861063775440578124508519755666315169542624904347952088548912808nat, 0, 39177830529674479369614490634092711970933739303037592453906192491236500809896nat, modulus());
    lemma_mpow_next(7, 1895036326035018199682934924762980243050357985989822266708nat, 39177830529674479369614490634092711970933739303037592453906192491236500809896nat, 1, 38769357248705327724720891833447442092958320251969003638147051835537708180532nat, modulus());
    lemma_mpow_next(7, 3790072652070036399365869849525960486100715971979644533417nat, 38769357248705327724720891833447442092958320251969003638147051835537708180532nat, 0, 50444239598809609210510254442258921365830613921043709327601321151828596548901nat, modulus());
}

/// Squarings 193 to 208 of the power below.
#[verifier::spinoff_prover]
#[verifier::rlimit(50)]
proof fn lemma_pow_order_by_3_part12()
    requires
        mpow(7, 7580145304140072798731739699051920972201431943959289066834nat, modulus()) == 50444239598809609210510254442258921365830613921043709327601321151828596548901nat,
    ensures
        mpow(7, 496772402652123810937683292917066692834193043879315968284076714nat, modulus()) == 37318415651848407780009528652000348600037318031287624141069315483887606212537nat,
{
    lemma_mpow_next(7, 7580145304140072798731739699051920972201431943959289066834nat, 50444239598809609210510254442258921365830613921043709327601321151828596548901nat, 1, 37558969956052586472141481165692324050335963441280758280157114933388348410104nat, modulus());
    lemma_mpow_next(7, 15160290608280145597463479398103841944402863887918578133669nat, 37558969956052586472141481165692324050335963441280758280157114933388348410104nat, 0, 36078585530459410678557600758557736092321218357324418120004748196896445328964nat, modulus());
    lemma_mpow_next(7, 30320581216560291194926958796207683888805727775837156267338nat, 36078585530459410678557600758557736092321218357324418120004748196896445328964nat, 1, 18482887007916662436440976195318846499457307418107259966025599615213322695561nat, modulus());
    lemma_mpow_next(7, 60641162433120582389853917592415367777611455551674312534677nat, 18482887007916662436440976195318846499457307418107259966025599615213322695561nat, 0, 21702671400689118685710023211101599930305400633150038305593723002789134881819nat, modulus());
    lemma_mpow_next(7, 121282324866241164779707835184830735555222911103348625069354nat, 21702671400689118685710023211101599930305400633150038305593723002789134881819nat, 1, 15707698530121786049253162253005845000884971768604864778734138926493341274212nat, modulus());
    lemma_mpow_next(7, 242564649732482329559415670369661471110445822206697250138709nat, 15707698530121786049253162253005845000884971768604864778734138926493341274212nat, 0, 33726691285511229983351540629864252160527803948248040649731612540730150633536nat, modulus());
    lemma_mpow_next(7, 485129299464964659118831340739322942220891644413394500277418nat, 33726691285511229983351540629864252160527803948248040649731612540730150633536nat, 1, 48849338327777809972268274306906308233378188941308998839557252420977428888953nat, modulus());
    lemma_mpow_next(7, 970258598929929318237662681478645884441783288826789000554837nat, 48849338327777809972268274306906308233378188941308998839557252420977428888953nat, 0, 36698254376563444657296813273473560779558591948410345413987761474372764986139nat, modulus());
    lemma_mpow_next(7, 1940517197859858636475325362957291768883566577653578001109674nat, 36698254376563444657296813273473560779558591948410345413987761474372764986139nat, 1, 38283951842750062838287091724117549969611542841075531277307521323062269168661nat, modulus());
    lemma_mpow_next(7, 3881034395719717272950650725914583537767133155307156002219349nat, 38283951842750062838287091724117549969611542841075531277307521323062269168661nat, 0, 9417899947780681472238017679310350572348020040966823985554632491176662305405nat, modulus());
    lemma_mpow_next(7, 7762068791439434545901301451829167075534266310614312004438698nat, 9417899947780681472238017679310350572348020040966823985554632491176662305405nat, 1, 21235626871236248566480030650140887585949886701121953128770303643095207570962nat, modulus());
    lemma_mpow_next(7, 15524137582878869091802602903658334151068532621228624008877397nat, 21235626871236248566480030650140887585949886701121953128770303643095207570962nat, 0, 25983475619303310702798744314769077833075934912307604743654002558138713806603nat, modulus());
    lemma_mpow_next(7, 31048275165757738183605205807316668302137065242457248017754794nat, 25983475619303310702798744314769077833075934912307604743654002558138713806603nat, 1, 48182403695672274569844843120126487978760823437477748635435432708950381237595nat, modulus());
    lemma_mpow_next(7, 62096550331515476367210411614633336604274130484914496035509589nat, 48182403695672274569844843120126487978760823437477748635435432708950381237595nat, 0, 31344564491507285569109333365209871494908512418233598937633311193672975937810nat, modulus());
    lemma_mpow_next(7, 124193100663030952734420823229266673208548260969828992071019178nat, 31344564491507285569109333365209871494908512418233598937633311193672975937810nat, 1, 5183280896230049088118608198420989078336736333163572593698593699303670722305nat, modulus());
    lemma_mpow_next(7, 248386201326061905468841646458533346417096521939657984142038357nat, 5183280896230049088118608198420989078336736333163572593698593699303670722305nat, 0, 37318415651848407780009528652000348600037318031287624141069315483887606212537nat, modulus());
}

/// Squarings 209 to 224 of the power below.
#[verifier::spinoff_prover]
#[verifier::rlimit(50)]
proof fn lemma_pow_order_by_3_part13()
    requires
        mpow(7, 496772402652123810937683292917066692834193043879315968284076714nat, modulus()) == 37318415651848407780009528652000348600037318031287624141069315483887606212537nat,
    ensures
        mpow(7, 32556476180209586073612012284612882781581675323674851297465251572392nat, modulus()) == 51614014806207711333993364919603041334584055250677852201364429884429346542469nat,
{
    lemma_mpow_next(7, 496772402652123810937683292917066692834193043879315968284076714nat, 37318415651848407780009528652000348600037318031287624141069315483887606212537nat, 1, 35704089500939569841600310329331990520907602124586864455059317213580516801142nat, modulus());
    lemma_mpow_next(7, 993544805304247621875366585834133385668386087758631936568153429nat, 35704089500939569841600310329331990520907602124586864455059317213580516801142nat, 0, 33298697247258816170550521280898608796918583119221692104581017192062481467137nat, modulus());
    lemma_mpow_next(7, 1987089610608495243750733171668266771336772175517263873136306858nat, 33298697247258816170550521280898608796918583119221692104581017192062481467137nat, 1, 44009083865354462327042465676525150129659611057107270542580761373515113789251nat, modulus());
    lemma_mpow_next(7, 3974179221216990487501466343336533542673544351034527746272613717nat, 44009083865354462327042465676525150129659611057107270542580761373515113789251nat, 0, 19420657806323502399148546763333719563610060303645002654114973895542225927551nat, modulus());
    lemma_mpow_next(7, 7948358442433980975002932686673067085347088702069055492545227434nat, 19420657806323502399148546763333719563610060303645002654114973895542225927551nat, 1, 33479357228457084449756482709358417640681166476848476219145924658821647566544nat, modulus());
    lemma_mpow_next(7, 15896716884867961950005865373346134170694177404138110985090454869nat, 33479357228457084449756482709358417640681166476848476219145924658821647566544nat, 0, 23766146031766896756218199178804646067402090221712754911875125266367186385765nat, modulus());
    lemma_mpow_next(7, 31793433769735923900011730746692268341388354808276221970180909738nat, 23766146031766896756218199178804646067402090221712754911875125266367186385765nat, 1, 25512605679989341404902847078583388460125148553102273125869516068665341965592nat, modulus());
    lemma_mpow_next(7, 63586867539471847800023461493384536682776709616552443940361819477nat, 25512605679989341404902847078583388460125148553102273125869516068665341965592nat, 0, 24036032063353565976462304960689289592515013206947667872817992417419392860867nat, modulus());
    lemma_mpow_next(7, 127173735078943695600046922986769073365553419233104887880723638954nat, 24036032063353565976462304960689289592515013206947667872817992417419392860867nat, 1, 43582202020811081912375807500911211956015798000298845702069583547677078424817nat, modulus());
    lemma_mpow_next(7, 254347470157887391200093845973538146731106838466209775761447277909nat, 43582202020811081912375807500911211956015798000298845702069583547677078424817nat, 0, 23537434704231198661593524761774049917706312961085917712841323426900686485289nat, modulus());
    lemma_mpow_next(7, 508694940315774782400187691947076293462213676932419551522894555818nat, 23537434704231198661593524761774049917706312961085917712841323426900686485289nat, 1, 3001860187060530840743936743011404350188480316453071554239337030417312279594nat, modulus());
    lemma_mpow_next(7, 1017389880631549564800375383894152586924427353864839103045789111637nat, 3001860187060530840743936743011404350188480316453071554239337030417312279594nat, 0, 48448635934472714651172428582674612539503929457633676902284256676805288212716nat, modulus());
    lemma_mpow_next(7, 2034779761263099129600750767788305173848854707729678206091578223274nat, 48448635934472714651172428582674612539503929457633676902284256676805288212716nat, 1, 27190014779860110908007675333221278800259766657973320723066279455788162251031nat, modulus());
    lemma_mpow_next(7, 4069559522526198259201501535576610347697709415459356412183156446549nat, 27190014779860110908007675333221278800259766657973320723066279455788162251031nat, 0, 9057992601140368892227614339262839299920469907975720174224447936153023264916nat, modulus());
    lemma_mpow_next(7, 8139119045052396518403003071153220695395418830918712824366312893098nat, 9057992601140368892227614339262839299920469907975720174224447936153023264916nat, 0, 36879404258237287486765430458080208476516144071299001041775438819029341934556nat, modulus());
    lemma_mpow_next(7, 16278238090104793036806006142306441390790837661837425648732625786196nat, 36879404258237287486765430458080208476516144071299001041775438819029341934556nat, 0, 51614014806207711333993364919603041334584055250677852201364429884429346542469nat, modulus());
}

/// Squarings 225 to 240 of the power below.
#[verifier::spinoff_prover]
#[verifier::rlimit(50)]
proof fn lemma_pow_order_by_3_part14()
    requires
        mpow(7, 32556476180209586073612012284612882781581675323674851297465251572392nat, modulus()) == 51614014806207711333993364919603041334584055250677852201364429884429346542469nat,
    ensures
        mpow(7, 2133621222946215432920236837084389885973736674012355054630682727048282112nat, modulus()) == 30871040783405754247429360144532851244091896118089421968082746685638939531666nat,
{
    lemma_mpow_next(7, 32556476180209586073612012284612882781581675323674851297465251572392nat, 51614014806207711333993364919603041334584055250677852201364429884429346542469nat, 0, 30962706800634680419995245098811533955305624012197567842114499663726298377837nat, modulus());
    lemma_mpow_next(7, 65112952360419172147224024569225765563163350647349702594930503144784nat, 30962706800634680419995245098811533955305624012197567842114499663726298377837nat, 0, 38484569132130653084760755615144405586486091971648584124284757594474346844719nat, modulus());
    lemma_mpow_next(7, 130225904720838344294448049138451531126326701294699405189861006289568nat, 38484569132130653084760755615144405586486091971648584124284757594474346844719nat, 0, 1413293868899670293184609502718951815445855030357888361597505138111548312827nat, modulus());
    lemma_mpow_next(7, 260451809441676688588896098276903062252653402589398810379722012579136nat, 1413293868899670293184609502718951815445855030357888361597505138111548312827nat, 0, 28440353028386078676701632768938705383238957686259987336167896416267784262186nat, modulus());
    lemma_mpow_next(7, 520903618883353377177792196553806124505306805178797620759444025158272nat, 28440353028386078676701632768938705383238957686259987336167896416267784262186nat, 0, 41332757081913554755898840065145560246523622456106045131260100229538967391399nat, modulus());
    lemma_mpow_next(7, 1041807237766706754355584393107612249010613610357595241518888050316544nat, 41332757081913554755898840065145560246523622456106045131260100229538967391399nat, 0, 41103220087762031413691803136055629414101453561986957545318552810379238142958nat, modulus());
    lemma_mpow_next(7, 2083614475533413508711168786215224498021227220715190483037776100633088nat, 41103220087762031413691803136055629414101453561986957545318552810379238142958nat, 0, 37742434929191925656183256566903154708632572178069227501302548086721206106207nat, modulus());
    lemma_mpow_next(7, 4167228951066827017422337572430448996042454441430380966075552201266176nat, 37742434929191925656183256566903154708632572178069227501302548086721206106207nat, 0, 4607755701008944791118358783898486934964538401713869795557379479076905869684nat, modulus());
    lemma_mpow_next(7, 8334457902133654034844675144860897992084908882860761932151104402532352nat, 4607755701008944791118358783898486934964538401713869795557379479076905869684nat, 0, 2213008001640394256201289373229893725186696823660297249086328338043425356751nat, modulus());
    lemma_mpow_next(7, 16668915804267308069689350289721795984169817765721523864302208805064704nat, 2213008001640394256201289373229893725186696823660297249086328338043425356751nat, 0, 20861377783861809278203843401611250399982927694204517039314720247669726273733nat, modulus());
    lemma_mpow_next(7, 33337831608534616139378700579443591968339635531443047728604417610129408nat, 20861377783861809278203843401611250399982927694204517039314720247669726273733nat, 0, 10869817145219478167028084470371807671575383973928626084084642749768173298884nat, modulus());
    lemma_mpow_next(7, 66675663217069232278757401158887183936679271062886095457208835220258816nat, 10869817145219478167028084470371807671575383973928626084084642749768173298884nat, 0, 1977723906183917909287693762341786945304240358850033904108044483840312262829nat, modulus());
    lemma_mpow_next(7, 133351326434138464557514802317774367873358542125772190914417670440517632nat, 1977723906183917909287693762341786945304240358850033904108044483840312262829nat, 0, 23804455816182006662649600204582885380028382944937158248084614516786877293612nat, modulus());
    lemma_mpow_next(7, 266702652868276929115029604635548735746717084251544381828835340881035264nat, 23804455816182006662649600204582885380028382944937158248084614516786877293612nat, 0, 2930348814390902990825946569645926810460906666190701984230617973971282449545nat, modulus());
    lemma_mpow_next(7, 533405305736553858230059209271097471493434168503088763657670681762070528nat, 2930348814390902990825946569645926810460906666190701984230617973971282449545nat, 0, 41474649912938177012418414818262991683346208077669367704063320596782302186639nat, modulus());
    lemma_mpow_next(7, 1066810611473107716460118418542194942986868337006177527315341363524141056nat, 41474649912938177012418414818262991683346208077669367704063320596782302186639nat, 0, 30871040783405754247429360144532851244091896118089421968082746685638939531666nat, modulus());
}

/// Squarings 241 to 253 of the power below.
#[verifier::spinoff_prover]
#[verifier::rlimit(50)]
proof fn lemma_pow_order_by_3_part15()
    requires
        mpow(7, 2133621222946215432920236837084389885973736674012355054630682727048282112nat, modulus()) == 30871040783405754247429360144532851244091896118089421968082746685638939531666nat,
    ensures
        mpow(7, 17478625058375396826482580169395321945896850833509212607534552899979527061504nat, modulus()) == 228988810152649578064853576960394133503nat,
{
    lemma_mpow_next(7, 2133621222946215432920236837084389885973736674012355054630682727048282112nat, 30871040783405754247429360144532851244091896118089421968082746685638939531666nat, 0, 51021120494207804681422904706569631336405724721171241066536531475787535102184nat, modulus());
    lemma_mpow_next(7, 4267242445892430865840473674168779771947473348024710109261365454096564224nat, 51021120494207804681422904706569631336405724721171241066536531475787535102184nat, 0, 52109714387249898063376609304120777220282830834359188794692815304142943256059nat, modulus());
    lemma_mpow_next(7, 8534484891784861731680947348337559543894946696049420218522730908193128448nat, 52109714387249898063376609304120777220282830834359188794692815304142943256059nat, 0, 9219652905715014358869811191907146887972286909387817161446305971881591672347nat, modulus());
    lemma_mpow_next(7, 17068969783569723463361894696675119087789893392098840437045461816386256896nat, 9219652905715014358869811191907146887972286909387817161446305971881591672347nat, 0, 33882587555524821767723304094469190968713571681116464687188745216082371818072nat, modulus());
    lemma_mpow_next(7, 34137939567139446926723789393350238175579786784197680874090923632772513792nat, 33882587555524821767723304094469190968713571681116464687188745216082371818072nat, 0, 2497059578604103781635468637455186384551418145638870202423657743425936917548nat, modulus());
    lemma_mpow_next(7, 68275879134278893853447578786700476351159573568395361748181847265545027584nat, 2497059578604103781635468637455186384551418145638870202423657743425936917548nat, 0, 14523644498271706177724810462547033590351717152525063073011389924940790429199nat, modulus());
    lemma_mpow_next(7, 136551758268557787706895157573400952702319147136790723496363694531090055168nat, 14523644498271706177724810462547033590351717152525063073011389924940790429199nat, 0, 48292846719925436915802691320345855131106585559525359650154842210348411656417nat, modulus());
    lemma_mpow_next(7, 273103516537115575413790315146801905404638294273581446992727389062180110336nat, 48292846719925436915802691320345855131106585559525359650154842210348411656417nat, 0, 1938287613059936236580854046970806956463274712383860798423605708695236658071nat, modulus());
    lemma_mpow_next(7, 546207033074231150827580630293603810809276588547162893985454778124360220672nat, 1938287613059936236580854046970806956463274712383860798423605708695236658071nat, 0, 4186266198148504419708824453540328291717788015598043069687888163754096591647nat, modulus());
    lemma_mpow_next(7, 1092414066148462301655161260587207621618553177094325787970909556248720441344nat, 4186266198148504419708824453540328291717788015598043069687888163754096591647nat, 0, 3798686167592715434045102520301072560217020418308266554004973999088170955365nat, modulus());
    lemma_mpow_next(7, 2184828132296924603310322521174415243237106354188651575941819112497440882688nat, 3798686167592715434045102520301072560217020418308266554004973999088170955365nat, 0, 15132376222941642752nat, modulus());
    lemma_mpow_next(7, 4369656264593849206620645042348830486474212708377303151883638224994881765376nat, 15132376222941642752nat, 0, 228988810152649578064853576960394133504nat, modulus());
    lemma_mpow_next(7, 8739312529187698413241290084697660972948425416754606303767276449989763530752nat, 228988810152649578064853576960394133504nat, 0, 228988810152649578064853576960394133503nat, modulus());
}

/// The generator to the power `(n - 1) / 3` modulo the field order `n`.
proof fn lemma_pow_order_by_3()
    ensures
        mpow(7, 17478625058375396826482580169395321945896850833509212607534552899979527061504nat, modulus()) == 228988810152649578064853576960394133503nat,
{
    lemma_mpow_first(7, modulus());
    lemma_pow_order_by_3_part0();
    lemma_pow_order_by_3_part1();
    lemma_pow_order_by_3_part2();
    lemma_pow_order_by_3_part3();
    lemma_pow_order_by_3_part4();
    lemma_pow_order_by_3_part5();
    lemma_pow_order_by_3_part6();
    lemma_pow_order_by_3_part7();
    lemma_pow_order_by_3_part8();
    lemma_pow_order_by_3_part9();
    lemma_pow_order_by_3_part10();
    lemma_pow_order_by_3_part11();
    lemma_pow_order_by_3_part12();
    lemma_pow_order_by_3_part13();
    lemma_pow_order_by_3_part14();
    lemma_pow_order_by_3_part15();
}

/// Squarings 1 to 16 of the power below.
#[verifier::spinoff_prover]
#[verifier::rlimit(50)]
proof fn lemma_pow_order_by_11_part0()
    requires
        mpow(7, 1, modulus()) == 7,
    ensures
        mpow(7, 86334, modulus()) == 11821236112950700311826611433006289211216067046010189749878420508169496519978nat,
{
    lemma_mpow_next(7, 1, 7, 0, 49, modulus());
    lemma_mpow_next(7, 2, 49, 1, 16807, modulus());
    lemma_mpow_next(7, 5, 16807, 0, 282475249, modulus());
    lemma_mpow_next(7, 10, 282475249, 1, 558545864083284007, modulus());
    lemma_mpow_next(7, 21, 558545864083284007, 0, 311973482284542371301330321821976049nat, modulus());
    lemma_mpow_next(7, 42, 311973482284542371301330321821976049nat, 0, 97327453648743672783790144527749033795901408624680013074608083129650401nat, modulus());
    lemma_mpow_next(7, 84, 97327453648743672783790144527749033795901408624680013074608083129650401nat, 0, 5025946391180921861207841965493227990902816468651023429740564727580884899158nat, modulus());
    lemma_mpow_next(7, 168, 5025946391180921861207841965493227990902816468651023429740564727580884899158nat, 1, 9040678732248899087229932235320670882186529930646292147984556329609699038966nat, modulus());
    lemma_mpow_next(7, 337, 9040678732248899087229932235320670882186529930646292147984556329609699038966nat, 0, 45877277284623360470836033500596396999819702292813700984900760065063377295819nat, modulus());
    lemma_mpow_next(7, 674, 45877277284623360470836033500596396999819702292813700984900760065063377295819nat, 0, 27102040807761193918042815737192874450524143906251561892650281882014150423260nat, modulus());
    lemma_mpow_next(7, 1348, 27102040807761193918042815737192874450524143906251561892650281882014150423260nat, 1, 11113474428866797598522364764042913068194627755469902779374383679900199678768nat, modulus());
    lemma_mpow_next(7, 2697, 11113474428866797598522364764042913068194627755469902779374383679900199678768nat, 1, 24735756784681097260719247883373899585792970466445071534265223161296783023019nat, modulus());
    lemma_mpow_next(7, 5395, 24735756784681097260719247883373899585792970466445071534265223161296783023019nat, 1, 4694538271489595775948749068342015405660191690106815723630440403221796910249nat, modulus());
    lemma_mpow_next(7, 10791, 4694538271489595775948749068342015405660191690106815723630440403221796910249nat, 1, 1396625189593171657778198960609424060025903591836883904041894654452724404914nat, modulus());
    lemma_mpow_next(7, 21583, 1396625189593171657778198960609424060025903591836883904041894654452724404914nat, 1, 38794061037294825267795971002197554265657703869139715506492445091226777841645nat, modulus());
    lemma_mpow_next(7, 43167, 38794061037294825267795971002197554265657703869139715506492445091226777841645nat, 0, 11821236112950700311826611433006289211216067046010189749878420508169496519978nat, modulus());
}

/// Squarings 17 to 32 of the power below.
#[verifier::spinoff_prover]
#[verifier::rlimit(50)]
proof fn lemma_pow_order_by_11_part1()
    requires
        mpow(7, 86334, modulus()) == 11821236112950700311826611433006289211216067046010189749878420508169496519978nat,
    ensures
        mpow(7, 5658050057, modulus()) == 4596165153599000518289939695292464591113280836331501871247300542198968970833nat,
{
    lemma_mpow_next(7, 86334, 11821236112950700311826611433006289211216067046010189749878420508169496519978nat, 1, 18564004132658365297364271273118015123425075167826376895129151788286022466599nat, modulus());
    lemma_mpow_next(7, 172669, 18564004132658365297364271273118015123425075167826376895129151788286022466599nat, 1, 598271439385907192590740841947764138465203421843524850334328291217240476303nat, modulus());
    lemma_mpow_next(7, 345339, 598271439385907192590740841947764138465203421843524850334328291217240476303nat, 1, 21378509395448508554810030654029940874824381083245216424690824818856282359187nat, modulus());
    lemma_mpow_next(7, 690679, 21378509395448508554810030654029940874824381083245216424690824818856282359187nat, 1, 52037462504145396359289969826833822840365307462020317404817959963230404260556nat, modulus());
    lemma_mpow_next(7, 1381359, 52037462504145396359289969826833822840365307462020317404817959963230404260556nat, 1, 38330741554061284584188308155789452260965360671343760020212290123274420175171nat, modulus());
    lemma_mpow_next(7, 2762719, 38330741554061284584188308155789452260965360671343760020212290123274420175171nat, 1, 44013995352005560413174204833620773734774298018242362275265024546464176369363nat, modulus());
    lemma_mpow_next(7, 5525439, 44013995352005560413174204833620773734774298018242362275265024546464176369363nat, 1, 32074854605150374028334443129742190233998214989692049817099115397943180277891nat, modulus());
    lemma_mpow_next(7, 11050879, 32074854605150374028334443129742190233998214989692049817099115397943180277891nat, 0, 33064548865973795213667623124347998864902703677923894544632447461026027675976nat, modulus());
    lemma_mpow_next(7, 22101758, 33064548865973795213667623124347998864902703677923894544632447461026027675976nat, 0, 34150176332587854998846023347899833854060743839010887258334580553302105270205nat, modulus());
    lemma_mpow_next(7, 44203516, 34150176332587854998846023347899833854060743839010887258334580553302105270205nat, 0, 47865328117738303050660170152452686117028266522570009016750444309048710192251nat, modulus());
    lemma_mpow_next(7, 88407032, 47865328117738303050660170152452686117028266522570009016750444309048710192251nat, 0, 6634043839959152819911937102941910532222805582100652282135137297588016887685nat, modulus());
    lemma_mpow_next(7, 176814064, 6634043839959152819911937102941910532222805582100652282135137297588016887685nat, 0, 8655621699824622302268519664510126990612808914019553992934747019669511896451nat, modulus());
    lemma_mpow_next(7, 353628128, 8655621699824622302268519664510126990612808914019553992934747019669511896451nat, 1, 52100034190273796565422976799108960607815915481865631513318212360291907872911nat, modulus());
    lemma_mpow_next(7, 707256257, 52100034190273796565422976799108960607815915481865631513318212360291907872911nat, 0, 15516456408198741255424357691040126565434762777760460536000315248731461562297nat, modulus());
    lemma_mpow_next(7, 1414512514, 15516456408198741255424357691040126565434762777760460536000315248731461562297nat, 0, 1958008070172001195135177129320829954709975667229441211123294301990129060759nat, modulus());
    lemma_mpow_next(7, 2829025028, 1958008070172001195135177129320829954709975667229441211123294301990129060759nat, 1, 4596165153599000518289939695292464591113280836331501871247300542198968970833nat, modulus());
}

/// Squarings 33 to 48 of the power below.
#[verifier::spinoff_prover]
#[verifier::rlimit(50)]
proof fn lemma_pow_order_by_11_part2()
    requires
        mpow(7, 5658050057, modulus()) == 4596165153599000518289939695292464591113280836331501871247300542198968970833nat,
    ensures
        mpow(7, 370805968548670, modulus()) == 19431308080756040427291979744487936142417764569313515253214371940975151076926nat,
{
    lemma_mpow_next(7, 5658050057, 4596165153599000518289939695292464591113280836331501871247300542198968970833nat, 0, 50639318735157732554030956968727427855918621576778202368953365823065918966673nat, modulus());
    lemma_mpow_next(7, 11316100114, 50639318735157732554030956968727427855918621576778202368953365823065918966673nat, 0, 31144984128503795326219845609253577625443989839073509215595059131167591325571nat, modulus());
    lemma_mpow_next(7, 22632200228, 31144984128503795326219845609253577625443989839073509215595059131167591325571nat, 1, 5366383145386001876229073644862862138676549322581043045699619628361999795153nat, modulus());
    lemma_mpow_next(7, 45264400457, 5366383145386001876229073644862862138676549322581043045699619628361999795153nat, 1, 38159068933909096101006816669067443250600369218533259249665072185778106317919nat, modulus());
    lemma_mpow_next(7, 90528800915, 38159068933909096101006816669067443250600369218533259249665072185778106317919nat, 0, 28367092275539016010212367486663327352617049503518207851175621327747404531111nat, modulus());
    lemma_mpow_next(7, 181057601830, 28367092275539016010212367486663327352617049503518207851175621327747404531111nat, 0, 5338264690783752346221288340252009139096793352189602474959343726161568153858nat, modulus());
    lemma_mpow_next(7, 362115203660, 5338264690783752346221288340252009139096793352189602474959343726161568153858nat, 1, 9702433059225438931758594016632730605112459702782916631297323128261984743322nat, modulus());
    lemma_mpow_next(7, 724230407321, 9702433059225438931758594016632730605112459702782916631297323128261984743322nat, 1, 44350529767043430197911473750580213171707771314024507366407757287298077576252nat, modulus());
    lemma_mpow_next(7, 1448460814643, 44350529767043430197911473750580213171707771314024507366407757287298077576252nat, 0, 40568837989296183571104693466982527799376105861642737642102186609006202869636nat, modulus());
    lemma_mpow_next(7, 2896921629286, 40568837989296183571104693466982527799376105861642737642102186609006202869636nat, 0, 4272971691391750660377045400754075201751747307432033542280052386657064139418nat, modulus());
    lemma_mpow_next(7, 5793843258572, 4272971691391750660377045400754075201751747307432033542280052386657064139418nat, 1, 31072716618237587430452201390600443236766987202643514150273963224832000252484nat, modulus());
    lemma_mpow_next(7, 11587686517145, 31072716618237587430452201390600443236766987202643514150273963224832000252484nat, 1, 7120751290385653216443249781444065748832971069564125202267487436318456473738nat, modulus());
    lemma_mpow_next(7, 23175373034291, 7120751290385653216443249781444065748832971069564125202267487436318456473738nat, 1, 9471177670175323310638379881316483997793355715222194579715090575405317050688nat, modulus());
    lemma_mpow_next(7, 46350746068583, 9471177670175323310638379881316483997793355715222194579715090575405317050688nat, 1, 45024998511537149273678688740411192495093117248455484711415979257580731307501nat, modulus());
    lemma_mpow_next(7, 92701492137167, 45024998511537149273678688740411192495093117248455484711415979257580731307501nat, 1, 39924062713949014857526644035778023322218082431120648537848193177117406590522nat, modulus());
    lemma_mpow_next(7, 185402984274335, 39924062713949014857526644035778023322218082431120648537848193177117406590522nat, 0, 19431308080756040427291979744487936142417764569313515253214371940975151076926nat, modulus());
}

/// Squarings 49 to 64 of the power below.
#[verifier::spinoff_prover]
#[verifier::rlimit(50)]
proof fn lemma_pow_order_by_11_part3()
    requires
        mpow(7, 370805968548670, modulus()) == 19431308080756040427291979744487936142417764569313515253214371940975151076926nat,
    ensures
        mpow(7, 24301139954805670842nat, modulus()) == 43828021271016266021853929904384655307416697300721984558740952775342476401298nat,
{
    lemma_mpow_next(7, 370805968548670, 19431308080756040427291979744487936142417764569313515253214371940975151076926nat, 1, 4001410046636820516286364013668725103902380448819764402336165496325625675423nat, modulus());
    lemma_mpow_next(7, 741611937097341, 4001410046636820516286364013668725103902380448819764402336165496325625675423nat, 0, 8454443956547910636598227377845929348953863302103710981429111975573569374877nat, modulus());
    lemma_mpow_next(7, 1483223874194682, 8454443956547910636598227377845929348953863302103710981429111975573569374877nat, 0, 9200185443231177079989362537283043962733202484598644842575916676999394845451nat, modulus());
    lemma_mpow_next(7, 2966447748389364, 9200185443231177079989362537283043962733202484598644842575916676999394845451nat, 0, 2299635449916605061187756983240652754248857656615219182994093776984207328006nat, modulus());
    lemma_mpow_next(7, 5932895496778728, 2299635449916605061187756983240652754248857656615219182994093776984207328006nat, 0, 41567787363556163505149411282312685036519794607746787246106289012637272304890nat, modulus());
    lemma_mpow_next(7, 11865790993557456, 41567787363556163505149411282312685036519794607746787246106289012637272304890nat, 0, 13684427926961306472794889272665287516450858928092761162808199127813110613688nat, modulus());
    lemma_mpow_next(7, 23731581987114912, 13684427926961306472794889272665287516450858928092761162808199127813110613688nat, 1, 46771455863602072668830068777640050269292321720012058528185149490080124692999nat, modulus());
    lemma_mpow_next(7, 47463163974229825, 46771455863602072668830068777640050269292321720012058528185149490080124692999nat, 1, 10924658083551974294567321011061143779276178096377040051510067301615748409287nat, modulus());
    lemma_mpow_next(7, 94926327948459651, 10924658083551974294567321011061143779276178096377040051510067301615748409287nat, 1, 1757544371916253696998850865028599052059620699212329635435223885898497616337nat, modulus());
    lemma_mpow_next(7, 189852655896919303, 1757544371916253696998850865028599052059620699212329635435223885898497616337nat, 0, 39987202586409643520955779147999093288568894730836108500702168662315331419131nat, modulus());
    lemma_mpow_next(7, 379705311793838606, 39987202586409643520955779147999093288568894730836108500702168662315331419131nat, 1, 24805245522900421021547698303239238856232749344638148743664221502412672791030nat, modulus());
    lemma_mpow_next(7, 759410623587677213, 24805245522900421021547698303239238856232749344638148743664221502412672791030nat, 1, 5243627705839062541485763322081699739559712103478127040803651110515130123448nat, modulus());
    lemma_mpow_next(7, 1518821247175354427nat, 5243627705839062541485763322081699739559712103478127040803651110515130123448nat, 1, 1300234941914729156331182462300496568706868003642687636526682001710801129967nat, modulus());
    lemma_mpow_next(7, 3037642494350708855nat, 1300234941914729156331182462300496568706868003642687636526682001710801129967nat, 0, 11739635903686240363526193619650278591108186880606999272234787155236342659944nat, modulus());
    lemma_mpow_next(7, 6075284988701417710nat, 11739635903686240363526193619650278591108186880606999272234787155236342659944nat, 1, 43320378802522284782419619607908128445257864485039917364500805301038734389786nat, modulus());
    lemma_mpow_next(7, 12150569977402835421nat, 43320378802522284782419619607908128445257864485039917364500805301038734389786nat, 0, 43828021271016266021853929904384655307416697300721984558740952775342476401298nat, modulus());
}

/// Squarings 65 to 80 of the power below.
#[verifier::spinoff_prover]
#[verifier::rlimit(50)]
proof fn lemma_pow_order_by_11_part4()
    requires
        mpow(7, 24301139954805670842nat, modulus()) == 43828021271016266021853929904384655307416697300721984558740952775342476401298nat,
    ensures
        mpow(7, 1592599508078144444351377nat, modulus()) == 31956160758137898331956634645989475835817840079387677755874291378504266052345nat,
{
    lemma_mpow_next(7, 24301139954805670842nat, 43828021271016266021853929904384655307416697300721984558740952775342476401298nat, 1, 6566218632707297529643452860425595726771347569461181474697648354342317691429nat, modulus());
    lemma_mpow_next(7, 48602279909611341685nat, 6566218632707297529643452860425595726771347569461181474697648354342317691429nat, 1, 11756285866026318094634304662382165551091833150441219710912391356124916302928nat, modulus());
    lemma_mpow_next(7, 97204559819222683371nat, 11756285866026318094634304662382165551091833150441219710912391356124916302928nat, 0, 31547461000766409975376842656793832968321465868578684519354942261812226388509nat, modulus());
    lemma_mpow_next(7, 194409119638445366742nat, 31547461000766409975376842656793832968321465868578684519354942261812226388509nat, 0, 30303472183144806106659696264182227838083248929448162509766936552495885320923nat, modulus());
    lemma_mpow_next(7, 388818239276890733484nat, 30303472183144806106659696264182227838083248929448162509766936552495885320923nat, 0, 3012458875105296402606382705763414178486719277316154526553045268716976732211nat, modulus());
    lemma_mpow_next(7, 777636478553781466968nat, 3012458875105296402606382705763414178486719277316154526553045268716976732211nat, 0, 36779167705646492979752887148609393777828197118826452569042539655260321585190nat, modulus());
    lemma_mpow_next(7, 1555272957107562933936nat, 36779167705646492979752887148609393777828197118826452569042539655260321585190nat, 1, 50987763551661309701126023593867402347471804275327137245460262687113741358263nat, modulus());
    lemma_mpow_next(7, 3110545914215125867873nat, 50987763551661309701126023593867402347471804275327137245460262687113741358263nat, 1, 31443048296622256229255377417581623131272079859580266622266664311784844225188nat, modulus());
    lemma_mpow_next(7, 6221091828430251735747nat, 31443048296622256229255377417581623131272079859580266622266664311784844225188nat, 1, 32210127050676896215454787256147157417308305399477288856280485500552819517339nat, modulus());
    lemma_mpow_next(7, 12442183656860503471495nat, 32210127050676896215454787256147157417308305399477288856280485500552819517339nat, 0, 37839287856987606037660189210401875730700534453763012852134379635078938110054nat, modulus());
    lemma_mpow_next(7, 24884367313721006942990nat, 37839287856987606037660189210401875730700534453763012852134379635078938110054nat, 0, 30986022313930354045208103552328511476850123905587180631213252813827759174311nat, modulus());
    lemma_mpow_next(7, 49768734627442013885980nat, 30986022313930354045208103552328511476850123905587180631213252813827759174311nat, 1, 28032295204576345713486978504758062742606388677157312096461865062794924742539nat, modulus());
    lemma_mpow_next(7, 99537469254884027771961nat, 28032295204576345713486978504758062742606388677157312096461865062794924742539nat, 0, 5900389431834094996444841952067056651164559033392480739930141650635117140052nat, modulus());
    lemma_mpow_next(7, 199074938509768055543922nat, 5900389431834094996444841952067056651164559033392480739930141650635117140052nat, 0, 17361320958233384947418471903898734719343076029754213979239924331967703665748nat, modulus());
    lemma_mpow_next(7, 398149877019536111087844nat, 17361320958233384947418471903898734719343076029754213979239924331967703665748nat, 0, 19719348001000736567253609233710381312286977413490905600833933275027226608197nat, modulus());
    lemma_mpow_next(7, 796299754039072222175688nat, 19719348001000736567253609233710381312286977413490905600833933275027226608197nat, 1, 31956160758137898331956634645989475835817840079387677755874291378504266052345nat, modulus());
}

/// Squarings 81 to 96 of the power below.
#[verifier::spinoff_prover]
#[verifier::rlimit(50)]
proof fn lemma_pow_order_by_11_part5()
    requires
        mpow(7, 1592599508078144444351377nat, modulus()) == 31956160758137898331956634645989475835817840079387677755874291378504266052345nat,
    ensures
        mpow(7, 104372601361409274305011843095nat, modulus()) == 52135345317961352927106147639325682013969905418289038395456445790495601811450nat,
{
    lemma_mpow_next(7, 1592599508078144444351377nat, 31956160758137898331956634645989475835817840079387677755874291378504266052345nat, 0, 35659249229570360402552474312070193930347424542873662456939204768064206976817nat, modulus());
    lemma_mpow_next(7, 3185199016156288888702754nat, 35659249229570360402552474312070193930347424542873662456939204768064206976817nat, 0, 11992269604457196341214813566762822562536515223781850192346064802698147144243nat, modulus());
    lemma_mpow_next(7, 6370398032312577777405508nat, 11992269604457196341214813566762822562536515223781850192346064802698147144243nat, 0, 44009552288033504798543158959649333139577507515712914977536864393591899927904nat, modulus());
    lemma_mpow_next(7, 12740796064625155554811016nat, 44009552288033504798543158959649333139577507515712914977536864393591899927904nat, 0, 13124554061102242366458653768651335878772950731607623115463852724700888569101nat, modulus());
    lemma_mpow_next(7, 25481592129250311109622032nat, 13124554061102242366458653768651335878772950731607623115463852724700888569101nat, 0, 49808754416527923465320463855226131230003946577321481858085012652275554057153nat, modulus());
    lemma_mpow_next(7, 50963184258500622219244064nat, 49808754416527923465320463855226131230003946577321481858085012652275554057153nat, 0, 27724197066128063153620769457986097095725902369584419630176302906154489595303nat, modulus());
    lemma_mpow_next(7, 101926368517001244438488128nat, 27724197066128063153620769457986097095725902369584419630176302906154489595303nat, 0, 31156507867551860354507016631111578248002046175903661305016316815935318113535nat, modulus());
    lemma_mpow_next(7, 203852737034002488876976256nat, 31156507867551860354507016631111578248002046175903661305016316815935318113535nat, 0, 15363642486620663341063508015143749581560653072510439907243534446721072356868nat, modulus());
    lemma_mpow_next(7, 407705474068004977753952512nat, 15363642486620663341063508015143749581560653072510439907243534446721072356868nat, 0, 27455629182014543130494423277749740235205272263110035649770950986013905856134nat, modulus());
    lemma_mpow_next(7, 815410948136009955507905024nat, 27455629182014543130494423277749740235205272263110035649770950986013905856134nat, 0, 36585236066031263643530842950363709155560208673785618862767029349122089643350nat, modulus());
    lemma_mpow_next(7, 1630821896272019911015810048nat, 36585236066031263643530842950363709155560208673785618862767029349122089643350nat, 0, 22176836236699132925910440687765505012958752308846883555889713167698983134369nat, modulus());
    lemma_mpow_next(7, 3261643792544039822031620096nat, 22176836236699132925910440687765505012958752308846883555889713167698983134369nat, 1, 1552506908777062948908204279607733205844442844342831913343036466036587621410nat, modulus());
    lemma_mpow_next(7, 6523287585088079644063240193nat, 1552506908777062948908204279607733205844442844342831913343036466036587621410nat, 0, 39548388511566801851240363740423456509432523699917415074153851519497848412290nat, modulus());
    lemma_mpow_next(7, 13046575170176159288126480386nat, 39548388511566801851240363740423456509432523699917415074153851519497848412290nat, 1, 10507314884033311803376340133877988053407780327412190034029642047726592118104nat, modulus());
    lemma_mpow_next(7, 26093150340352318576252960773nat, 10507314884033311803376340133877988053407780327412190034029642047726592118104nat, 1, 1103214050878871005293693316700736255902735253585094533377485891763615713040nat, modulus());
    lemma_mpow_next(7, 52186300680704637152505921547nat, 1103214050878871005293693316700736255902735253585094533377485891763615713040nat, 1, 52135345317961352927106147639325682013969905418289038395456445790495601811450nat, modulus());
}

/// Squarings 97 to 112 of the power below.
#[verifier::spinoff_prover]
#[verifier::rlimit(50)]
proof fn lemma_pow_order_by_11_part6()
    requires
        mpow(7, 104372601361409274305011843095nat, modulus()) == 52135345317961352927106147639325682013969905418289038395456445790495601811450nat,
    ensures
        mpow(7, 6840162802821318200853256149098966nat, modulus()) == 17432697544698441645756890828581031171638712229749984436861152389048127683421nat,
{
    lemma_mpow_next(7, 104372601361409274305011843095nat, 52135345317961352927106147639325682013969905418289038395456445790495601811450nat, 0, 45112700862873478851970099980672750475871766481136682754184602575321009581456nat, modulus());
    lemma_mpow_next(7, 208745202722818548610023686190nat, 45112700862873478851970099980672750475871766481136682754184602575321009581456nat, 1, 25203952948781887792582763517480243430318029400150910410729402457322630939252nat, modulus());
    lemma_mpow_next(7, 417490405445637097220047372381nat, 25203952948781887792582763517480243430318029400150910410729402457322630939252nat, 1, 40438619429834707749837559550355444213724622043218879556543518635976078851527nat, modulus());
    lemma_mpow_next(7, 834980810891274194440094744763nat, 40438619429834707749837559550355444213724622043218879556543518635976078851527nat, 0, 48985370558324711711785530992359522439433905002683531261827415252780141279550nat, modulus());
    lemma_mpow_next(7, 1669961621782548388880189489526nat, 48985370558324711711785530992359522439433905002683531261827415252780141279550nat, 0, 24365165157920296600565241096118920368482700292781310178751742574334002056024nat, modulus());
    lemma_mpow_next(7, 3339923243565096777760378979052nat, 24365165157920296600565241096118920368482700292781310178751742574334002056024nat, 0, 24197413089011729959914692064196020611522642617358965537537788135613507887872nat, modulus());
    lemma_mpow_next(7, 6679846487130193555520757958104nat, 24197413089011729959914692064196020611522642617358965537537788135613507887872nat, 0, 48448286588006381173822177516155876760923208960663606791218344083293350820551nat, modulus());
    lemma_mpow_next(7, 13359692974260387111041515916208nat, 48448286588006381173822177516155876760923208960663606791218344083293350820551nat, 1, 27200899436764162876668077583390198396410062994525231290362235294378972550205nat, modulus());
    lemma_mpow_next(7, 26719385948520774222083031832417nat, 27200899436764162876668077583390198396410062994525231290362235294378972550205nat, 1, 23889905941544413212257532583163394164623260639888278679619355915170915890033nat, modulus());
    lemma_mpow_next(7, 53438771897041548444166063664835nat, 23889905941544413212257532583163394164623260639888278679619355915170915890033nat, 1, 9632070547533519274518298614209287377439424020701486005864164390255695946370nat, modulus());
    lemma_mpow_next(7, 106877543794083096888332127329671nat, 9632070547533519274518298614209287377439424020701486005864164390255695946370nat, 0, 29855274116986634927955403157722513362701560267176346623634155379044713140498nat, modulus());
    lemma_mpow_next(7, 213755087588166193776664254659342nat, 29855274116986634927955403157722513362701560267176346623634155379044713140498nat, 1, 16133321557835693046846275221554383643596239834130722768016902039247785480528nat, modulus());
    lemma_mpow_next(7, 427510175176332387553328509318685nat, 16133321557835693046846275221554383643596239834130722768016902039247785480528nat, 0, 17061480755093272217486727530223023476991124319732868864500552238288723069363nat, modulus());
    lemma_mpow_next(7, 855020350352664775106657018637370nat, 17061480755093272217486727530223023476991124319732868864500552238288723069363nat, 1, 22081317065115713483466240422798147679578340857561371056362616685567188127970nat, modulus());
    lemma_mpow_next(7, 1710040700705329550213314037274741nat, 22081317065115713483466240422798147679578340857561371056362616685567188127970nat, 1, 43200054833555063495042943555558839635695654552282484484602866568611441289788nat, modulus());
    lemma_mpow_next(7, 3420081401410659100426628074549483nat, 43200054833555063495042943555558839635695654552282484484602866568611441289788nat, 0, 17432697544698441645756890828581031171638712229749984436861152389048127683421nat, modulus());
}

/// Squarings 113 to 128 of the power below.
#[verifier::spinoff_prover]
#[verifier::rlimit(50)]
proof fn lemma_pow_order_by_11_part7()
    requires
        mpow(7, 6840162802821318200853256149098966nat, modulus()) == 17432697544698441645756890828581031171638712229749984436861152389048127683421nat,
    ensures
        mpow(7, 448276909445697909611118994987349889411nat, modulus()) == 6404464530434325603130882740622784523476434017880877881402392703745887594110nat,
{
    lemma_mpow_next(7, 6840162802821318200853256149098966nat, 17432697544698441645756890828581031171638712229749984436861152389048127683421nat, 1, 31781734871352270179534637561062396010584578427202804012372645819025072206768nat, modulus());
    lemma_mpow_next(7, 13680325605642636401706512298197933nat, 31781734871352270179534637561062396010584578427202804012372645819025072206768nat, 1, 32011318145741336384709795154558646351058974456493831812928545055585044700755nat, modulus());
    lemma_mpow_next(7, 27360651211285272803413024596395867nat, 32011318145741336384709795154558646351058974456493831812928545055585044700755nat, 0, 20805851155030125503006324964772254260854164480717292503813289451253470815081nat, modulus());
    lemma_mpow_next(7, 54721302422570545606826049192791734nat, 20805851155030125503006324964772254260854164480717292503813289451253470815081nat, 1, 47897265638054733268300955891037222712423574941970615467547658422095566338347nat, modulus());
    lemma_mpow_next(7, 109442604845141091213652098385583469nat, 47897265638054733268300955891037222712423574941970615467547658422095566338347nat, 0, 20979496673285228652571405047964595977401482776185694903719905478911475676858nat, modulus());
    lemma_mpow_next(7, 218885209690282182427304196771166938nat, 20979496673285228652571405047964595977401482776185694903719905478911475676858nat, 0, 15299790133572403923010463048333754316781313063361203388131026508049349795466nat, modulus());
    lemma_mpow_next(7, 437770419380564364854608393542333876nat, 15299790133572403923010463048333754316781313063361203388131026508049349795466nat, 0, 12500417185432089714802240251144305346850561467447270427750445107667727304883nat, modulus());
    lemma_mpow_next(7, 875540838761128729709216787084667752nat, 12500417185432089714802240251144305346850561467447270427750445107667727304883nat, 1, 12962258124079037184404391929587255652784820862768794542169215981333729082288nat, modulus());
    lemma_mpow_next(7, 1751081677522257459418433574169335505nat, 12962258124079037184404391929587255652784820862768794542169215981333729082288nat, 1, 8451063004096552390633270683492888223901505048281429979467756126213222720571nat, modulus());
    lemma_mpow_next(7, 3502163355044514918836867148338671011nat, 8451063004096552390633270683492888223901505048281429979467756126213222720571nat, 0, 19380820690358616116718905829058997173084993074340403105403024840684389005303nat, modulus());
    lemma_mpow_next(7, 7004326710089029837673734296677342022nat, 19380820690358616116718905829058997173084993074340403105403024840684389005303nat, 0, 25457662390673369406359460490448427442843854758001392206151538129313715689985nat, modulus());
    lemma_mpow_next(7, 14008653420178059675347468593354684044nat, 25457662390673369406359460490448427442843854758001392206151538129313715689985nat, 0, 20612028382336597209163430380356810787723760423425129992369816545488648125465nat, modulus());
    lemma_mpow_next(7, 28017306840356119350694937186709368088nat, 20612028382336597209163430380356810787723760423425129992369816545488648125465nat, 0, 5121331977236141198303193035425709229839759419498626471009262365080118534996nat, modulus());
    lemma_mpow_next(7, 56034613680712238701389874373418736176nat, 5121331977236141198303193035425709229839759419498626471009262365080118534996nat, 0, 14271892697256006752617846572904301349855665463347349889041427337326216929547nat, modulus());
    lemma_mpow_next(7, 112069227361424477402779748746837472352nat, 14271892697256006752617846572904301349855665463347349889041427337326216929547nat, 1, 15463886602409913097417229102483019343513502074814598738403067212467494191531nat, modulus());
    lemma_mpow_next(7, 224138454722848954805559497493674944705nat, 15463886602409913097417229102483019343513502074814598738403067212467494191531nat, 1, 6404464530434325603130882740622784523476434017880877881402392703745887594110nat, modulus());
}

/// Squarings 129 to 144 of the power below.
#[verifier::spinoff_prover]
#[verifier::rlimit(50)]
proof fn lemma_pow_order_by_11_part8()
    requires
        mpow(7, 448276909445697909611118994987349889411nat, modulus()) == 6404464530434325603130882740622784523476434017880877881402392703745887594110nat,
    ensures
        mpow(7, 29378275537433258204274294455490962352495702nat, modulus()) == 678914159569192190853115386760131633402117878324500411971262992897804309361nat,
{
    lemma_mpow_next(7, 448276909445697909611118994987349889411nat, 6404464530434325603130882740622784523476434017880877881402392703745887594110nat, 1, 13252476673518143274547334972837569436242530557019864316515111823342547493885nat, modulus());
    lemma_mpow_next(7, 896553818891395819222237989974699778823nat, 13252476673518143274547334972837569436242530557019864316515111823342547493885nat, 1, 31746104997116966802586478735255942755646322909696992943236163057869172600200nat, modulus());
    lemma_mpow_next(7, 1793107637782791638444475979949399557647nat, 31746104997116966802586478735255942755646322909696992943236163057869172600200nat, 0, 19149436816320997868637496952552259926994176471685014491620357787902619586950nat, modulus());
    lemma_mpow_next(7, 3586215275565583276888951959898799115294nat, 19149436816320997868637496952552259926994176471685014491620357787902619586950nat, 1, 44085483881622697951300982066895040519307466173387840288862230416087767024431nat, modulus());
    lemma_mpow_next(7, 7172430551131166553777903919797598230589nat, 44085483881622697951300982066895040519307466173387840288862230416087767024431nat, 1, 18828005658573893638180448640366948206297993010602665421035712737146613874678nat, modulus());
    lemma_mpow_next(7, 14344861102262333107555807839595196461179nat, 18828005658573893638180448640366948206297993010602665421035712737146613874678nat, 1, 16943751190429420566397518026758786756874667270696522682191130884272277092579nat, modulus());
    lemma_mpow_next(7, 28689722204524666215111615679190392922359nat, 16943751190429420566397518026758786756874667270696522682191130884272277092579nat, 0, 9855031414500290706075096699976064298874982788339521302731479542452117866689nat, modulus());
    lemma_mpow_next(7, 57379444409049332430223231358380785844718nat, 9855031414500290706075096699976064298874982788339521302731479542452117866689nat, 0, 11997980710902346945388742638272746692088418693613773973021180859420305558071nat, modulus());
    lemma_mpow_next(7, 114758888818098664860446462716761571689436nat, 11997980710902346945388742638272746692088418693613773973021180859420305558071nat, 0, 1826089967063334920845291032723837112772023749543593382181848850446595081294nat, modulus());
    lemma_mpow_next(7, 229517777636197329720892925433523143378872nat, 1826089967063334920845291032723837112772023749543593382181848850446595081294nat, 1, 27528161994181935314444241959450112655156351509866849700761176811515302506839nat, modulus());
    lemma_mpow_next(7, 459035555272394659441785850867046286757745nat, 27528161994181935314444241959450112655156351509866849700761176811515302506839nat, 0, 40092112282661809501165797495852510208575352333173076677374385370257561445909nat, modulus());
    lemma_mpow_next(7, 918071110544789318883571701734092573515490nat, 40092112282661809501165797495852510208575352333173076677374385370257561445909nat, 1, 38766062907294397902480826360934156260700665156064550967015308796500343441630nat, modulus());
    lemma_mpow_next(7, 1836142221089578637767143403468185147030981nat, 38766062907294397902480826360934156260700665156064550967015308796500343441630nat, 0, 6578948648695231427087968255469430431268735284873539696763813393816267980263nat, modulus());
    lemma_mpow_next(7, 3672284442179157275534286806936370294061962nat, 6578948648695231427087968255469430431268735284873539696763813393816267980263nat, 1, 20234350185300899044217694125452817551703805132426222104306774945984779726704nat, modulus());
    lemma_mpow_next(7, 7344568884358314551068573613872740588123925nat, 20234350185300899044217694125452817551703805132426222104306774945984779726704nat, 1, 36804904908671274344025776961968793161946787003726084055614693053375447474046nat, modulus());
    lemma_mpow_next(7, 14689137768716629102137147227745481176247851nat, 36804904908671274344025776961968793161946787003726084055614693053375447474046nat, 0, 678914159569192190853115386760131633402117878324500411971262992897804309361nat, modulus());
}

/// Squarings 145 to 160 of the power below.
#[verifier::spinoff_prover]
#[verifier::rlimit(50)]
proof fn lemma_pow_order_by_11_part9()
    requires
        mpow(7, 29378275537433258204274294455490962352495702nat, modulus()) == 678914159569192190853115386760131633402117878324500411971262992897804309361nat,
    ensures
        mpow(7, 1925334665621226009675320161435055708733158341175nat, modulus()) == 18349815284373178616051289505404774083105552951868390074924468132714178820488nat,
{
    lemma_mpow_next(7, 29378275537433258204274294455490962352495702nat, 678914159569192190853115386760131633402117878324500411971262992897804309361nat, 0, 18393446432453752911134241151297053322786193690125116755973051027298756026965nat, modulus());
    lemma_mpow_next(7, 58756551074866516408548588910981924704991404nat, 18393446432453752911134241151297053322786193690125116755973051027298756026965nat, 0, 805154545531877350615249502151574191616801397036634251509684415575854986065nat, modulus());
    lemma_mpow_next(7, 117513102149733032817097177821963849409982808nat, 805154545531877350615249502151574191616801397036634251509684415575854986065nat, 1, 37760301215401371758507663240942370056544797074640595353745891115883267466462nat, modulus());
    lemma_mpow_next(7, 235026204299466065634194355643927698819965617nat, 37760301215401371758507663240942370056544797074640595353745891115883267466462nat, 1, 12203961913544116136160681138439717144256250552138135663150183771098276684150nat, modulus());
    lemma_mpow_next(7, 470052408598932131268388711287855397639931235nat, 12203961913544116136160681138439717144256250552138135663150183771098276684150nat, 1, 47993506696951261247309190421613552622257093899412619039728796050844575241632nat, modulus());
    lemma_mpow_next(7, 940104817197864262536777422575710795279862471nat, 47993506696951261247309190421613552622257093899412619039728796050844575241632nat, 0, 31300237895047640587777633322986695397824484633160600134110959089272848784690nat, modulus());
    lemma_mpow_next(7, 1880209634395728525073554845151421590559724942nat, 31300237895047640587777633322986695397824484633160600134110959089272848784690nat, 1, 20765469384784763829781334762130265544153792328559993410865169486449404180236nat, modulus());
    lemma_mpow_next(7, 3760419268791457050147109690302843181119449885nat, 20765469384784763829781334762130265544153792328559993410865169486449404180236nat, 0, 32976680855659828514628985722977059803622329433456201332642734299727498870021nat, modulus());
    lemma_mpow_next(7, 7520838537582914100294219380605686362238899770nat, 32976680855659828514628985722977059803622329433456201332642734299727498870021nat, 0, 2680700831977662430645157003274536745690852617947082109112747126425722228798nat, modulus());
    lemma_mpow_next(7, 15041677075165828200588438761211372724477799540nat, 2680700831977662430645157003274536745690852617947082109112747126425722228798nat, 0, 22966180731197761405352430313496954686599625680117256226751549466445313523334nat, modulus());
    lemma_mpow_next(7, 30083354150331656401176877522422745448955599080nat, 22966180731197761405352430313496954686599625680117256226751549466445313523334nat, 1, 51162792641935069372194672291169309356718082164132964381717434585355779408920nat, modulus());
    lemma_mpow_next(7, 60166708300663312802353755044845490897911198161nat, 51162792641935069372194672291169309356718082164132964381717434585355779408920nat, 1, 9933757527864064482589388071270281063885026965650334535559499519961662815075nat, modulus());
    lemma_mpow_next(7, 120333416601326625604707510089690981795822396323nat, 9933757527864064482589388071270281063885026965650334535559499519961662815075nat, 0, 30481297498041403633566577709990609922390126785370782356507357723569800043501nat, modulus());
    lemma_mpow_next(7, 240666833202653251209415020179381963591644792646nat, 30481297498041403633566577709990609922390126785370782356507357723569800043501nat, 1, 37200809111863470693085792381264885352893674040154661745926102493936565083896nat, modulus());
    lemma_mpow_next(7, 481333666405306502418830040358763927183289585293nat, 37200809111863470693085792381264885352893674040154661745926102493936565083896nat, 1, 2305442046814536718548547829593819742867451653556167960970317755387414389432nat, modulus());
    lemma_mpow_next(7, 962667332810613004837660080717527854366579170587nat, 2305442046814536718548547829593819742867451653556167960970317755387414389432nat, 1, 18349815284373178616051289505404774083105552951868390074924468132714178820488nat, modulus());
}

/// Squarings 161 to 176 of the power below.
#[verifier::spinoff_prover]
#[verifier::rlimit(50)]
proof fn lemma_pow_order_by_11_part10()
    requires
        mpow(7, 1925334665621226009675320161435055708733158341175nat, modulus()) == 18349815284373178616051289505404774083105552951868390074924468132714178820488nat,
    ensures
        mpow(7, 126178732646152667770081782099807810927536265047262668nat, modulus()) == 8317170638892358768903867211012637541688882663095146155754952695126432584495nat,
{
    lemma_mpow_next(7, 1925334665621226009675320161435055708733158341175nat, 18349815284373178616051289505404774083105552951868390074924468132714178820488nat, 0, 32188882409637080858065922495410476495860432999911163964844853239447075716888nat, modulus());
    lemma_mpow_next(7, 3850669331242452019350640322870111417466316682350nat, 32188882409637080858065922495410476495860432999911163964844853239447075716888nat, 1, 5328413855832748928979109802937488322378157394200590791494464091825552398006nat, modulus());
    lemma_mpow_next(7, 7701338662484904038701280645740222834932633364701nat, 5328413855832748928979109802937488322378157394200590791494464091825552398006nat, 0, 7830889809699884213029618806836351867132212761883633120716657234087081761938nat, modulus());
    lemma_mpow_next(7, 15402677324969808077402561291480445669865266729402nat, 7830889809699884213029618806836351867132212761883633120716657234087081761938nat, 0, 13060360360273525317823697470895694796109202145858628154685384745635905611405nat, modulus());
    lemma_mpow_next(7, 30805354649939616154805122582960891339730533458804nat, 13060360360273525317823697470895694796109202145858628154685384745635905611405nat, 0, 47448239062683029675966707860566879030506982464778151195178680192288853646076nat, modulus());
    lemma_mpow_next(7, 61610709299879232309610245165921782679461066917608nat, 47448239062683029675966707860566879030506982464778151195178680192288853646076nat, 1, 34440031385661034930021314778812650611698097661312637334083658284672645177352nat, modulus());
    lemma_mpow_next(7, 123221418599758464619220490331843565358922133835217nat, 34440031385661034930021314778812650611698097661312637334083658284672645177352nat, 0, 9602615433613206709776432860191145691265485797346389875857211075195734946846nat, modulus());
    lemma_mpow_next(7, 246442837199516929238440980663687130717844267670434nat, 9602615433613206709776432860191145691265485797346389875857211075195734946846nat, 1, 10835007704598905172631438361562556774309418996125127981503619767249938039012nat, modulus());
    lemma_mpow_next(7, 492885674399033858476881961327374261435688535340869nat, 10835007704598905172631438361562556774309418996125127981503619767249938039012nat, 1, 27225158315254613089569964858812284030082179194782586508320737840797188386628nat, modulus());
    lemma_mpow_next(7, 985771348798067716953763922654748522871377070681739nat, 27225158315254613089569964858812284030082179194782586508320737840797188386628nat, 1, 7978685029738223970294863878119345370960832683081723140430691176462579973044nat, modulus());
    lemma_mpow_next(7, 1971542697596135433907527845309497045742754141363479nat, 7978685029738223970294863878119345370960832683081723140430691176462579973044nat, 0, 44375642882136365283343733111292854334827812283215459865912759809870206468669nat, modulus());
    lemma_mpow_next(7, 3943085395192270867815055690618994091485508282726958nat, 44375642882136365283343733111292854334827812283215459865912759809870206468669nat, 0, 46672081495603567609826433208503285340710788863998509184962142002222004699058nat, modulus());
    lemma_mpow_next(7, 7886170790384541735630111381237988182971016565453916nat, 46672081495603567609826433208503285340710788863998509184962142002222004699058nat, 1, 10421914218519882013104371715211415307337898073755378314139029042737958420796nat, modulus());
    lemma_mpow_next(7, 15772341580769083471260222762475976365942033130907833nat, 10421914218519882013104371715211415307337898073755378314139029042737958420796nat, 1, 8358096474556677286896812865932745822679475123460496886766634194445063314115nat, modulus());
    lemma_mpow_next(7, 31544683161538166942520445524951952731884066261815667nat, 8358096474556677286896812865932745822679475123460496886766634194445063314115nat, 0, 51233933426207453047100924382276317695922658519073647406723453268807807084696nat, modulus());
    lemma_mpow_next(7, 63089366323076333885040891049903905463768132523631334nat, 51233933426207453047100924382276317695922658519073647406723453268807807084696nat, 0, 8317170638892358768903867211012637541688882663095146155754952695126432584495nat, modulus());
}

/// Squarings 177 to 192 of the power below.
#[verifier::spinoff_prover]
#[verifier::rlimit(50)]
proof fn lemma_pow_order_by_11_part11()
    requires
        mpow(7, 126178732646152667770081782099807810927536265047262668nat, modulus()) == 8317170638892358768903867211012637541688882663095146155754952695126432584495nat,
    ensures
        mpow(7, 8269249422698261234980079671693004696947016666137406254728nat, modulus()) == 12506601981821410887679044167323996088393315545976088211843561485147473773912nat,
{
    lemma_mpow_next(7, 126178732646152667770081782099807810927536265047262668nat, 8317170638892358768903867211012637541688882663095146155754952695126432584495nat, 1, 4732026301103735564601311221457676768848789936639159218898093991922245989373nat, modulus());
    lemma_mpow_next(7, 252357465292305335540163564199615621855072530094525337nat, 4732026301103735564601311221457676768848789936639159218898093991922245989373nat, 0, 43675305647124649112612753687236151678039493130501781747367305219563427589985nat, modulus());
    lemma_mpow_next(7, 504714930584610671080327128399231243710145060189050674nat, 43675305647124649112612753687236151678039493130501781747367305219563427589985nat, 1, 9714135781849956576509404242172577996450568577691272040494596268756375334140nat, modulus());
    lemma_mpow_next(7, 1009429861169221342160654256798462487420290120378101349nat, 9714135781849956576509404242172577996450568577691272040494596268756375334140nat, 0, 3419355184171905782401839489703319582149800621025435084874216725259412746364nat, modulus());
    lemma_mpow_next(7, 2018859722338442684321308513596924974840580240756202698nat, 3419355184171905782401839489703319582149800621025435084874216725259412746364nat, 1, 13548675369590780300580643053231983237576308709659222312355413628059034870815nat, modulus());
    lemma_mpow_next(7, 4037719444676885368642617027193849949681160481512405397nat, 13548675369590780300580643053231983237576308709659222312355413628059034870815nat, 1, 2448400671917446138960686103893184416436799173474648561017775504207999234174nat, modulus());
    lemma_mpow_next(7, 8075438889353770737285234054387699899362320963024810795nat, 2448400671917446138960686103893184416436799173474648561017775504207999234174nat, 1, 31547845686489539198668205119110843648687670853935959778711712110273392133373nat, modulus());
    lemma_mpow_next(7, 16150877778707541474570468108775399798724641926049621591nat, 31547845686489539198668205119110843648687670853935959778711712110273392133373nat, 0, 2047695825100879436205146671972467810674178099457625755636011040719411710458nat, modulus());
    lemma_mpow_next(7, 32301755557415082949140936217550799597449283852099243182nat, 2047695825100879436205146671972467810674178099457625755636011040719411710458nat, 1, 31949894168301476792517538355543793638578961912488157055162480749588676209917nat, modulus());
    lemma_mpow_next(7, 64603511114830165898281872435101599194898567704198486365nat, 31949894168301476792517538355543793638578961912488157055162480749588676209917nat, 0, 47802248001405405768821656788999576235353816785837683288299239553223437854826nat, modulus());
    lemma_mpow_next(7, 129207022229660331796563744870203198389797135408396972730nat, 47802248001405405768821656788999576235353816785837683288299239553223437854826nat, 0, 48411562153528950621351671133414826366839819109475585404071946296213282599808nat, modulus());
    lemma_mpow_next(7, 258414044459320663593127489740406396779594270816793945460nat, 48411562153528950621351671133414826366839819109475585404071946296213282599808nat, 0, 14495792757556982749292665888117343853105427213597814276330665623771685774388nat, modulus());
    lemma_mpow_next(7, 516828088918641327186254979480812793559188541633587890920nat, 14495792757556982749292665888117343853105427213597814276330665623771685774388nat, 1, 14131510753833759555423981537718251975043996207132816989069522343102235563913nat, modulus());
    lemma_mpow_next(7, 1033656177837282654372509958961625587118377083267175781841nat, 14131510753833759555423981537718251975043996207132816989069522343102235563913nat, 0, 28202406861146660170156160111011656237011285159811736544166927378958881999917nat, modulus());
    lemma_mpow_next(7, 2067312355674565308745019917923251174236754166534351563682nat, 28202406861146660170156160111011656237011285159811736544166927378958881999917nat, 0, 25358183686517492515869408053874195098388393872710485763994582464097235636060nat, modulus());
    lemma_mpow_next(7, 4134624711349130617490039835846502348473508333068703127364nat, 25358183686517492515869408053874195098388393872710485763994582464097235636060nat, 0, 12506601981821410887679044167323996088393315545976088211843561485147473773912nat, modulus());
}

/// Squarings 193 to 208 of the power below.
#[verifier::spinoff_prover]
#[verifier::rlimit(50)]
proof fn lemma_pow_order_by_11_part12()
    requires
        mpow(7, 8269249422698261234980079671693004696947016666137406254728nat, modulus()) == 12506601981821410887679044167323996088393315545976088211843561485147473773912nat,
    ensures
        mpow(7, 541933530165953248295654501364072755819119684231981056309901870nat, modulus()) == 45414729135801481534790909961576762298996640440929910388906254765242415843988nat,
{
    lemma_mpow_next(7, 8269249422698261234980079671693004696947016666137406254728nat, 12506601981821410887679044167323996088393315545976088211843561485147473773912nat, 1, 46778823865530438227237222069890278495690483715720454995196983388725056924264nat, modulus());
    lemma_mpow_next(7, 16538498845396522469960159343386009393894033332274812509457nat, 46778823865530438227237222069890278495690483715720454995196983388725056924264nat, 0, 22046037545345630836895865777537180792391576984526205210849170345912046809299nat, modulus());
    lemma_mpow_next(7, 33076997690793044939920318686772018787788066664549625018914nat, 22046037545345630836895865777537180792391576984526205210849170345912046809299nat, 1, 48937428790334068951379987159128486901959304809268734579093639440202070975496nat, modulus());
    lemma_mpow_next(7, 66153995381586089879840637373544037575576133329099250037829nat, 48937428790334068951379987159128486901959304809268734579093639440202070975496nat, 1, 16930989307110027471518135866131039511878717018987108669230427000669378995403nat, modulus());
    lemma_mpow_next(7, 132307990763172179759681274747088075151152266658198500075659nat, 16930989307110027471518135866131039511878717018987108669230427000669378995403nat, 1, 5311062775660622703002176476822492412566019431648354796955389954567592968612nat, modulus());
    lemma_mpow_next(7, 264615981526344359519362549494176150302304533316397000151319nat, 5311062775660622703002176476822492412566019431648354796955389954567592968612nat, 0, 9925356562720586979515747610446742156188609356155474103122229209996512468738nat, modulus());
    lemma_mpow_next(7, 529231963052688719038725098988352300604609066632794000302638nat, 9925356562720586979515747610446742156188609356155474103122229209996512468738nat, 1, 35844530299447102763838441522425634463254027252092844835302043522299799116595nat, modulus());
    lemma_mpow_next(7, 1058463926105377438077450197976704601209218133265588000605277nat, 35844530299447102763838441522425634463254027252092844835302043522299799116595nat, 0, 32057193453967580145082003392627495391462082367680465962160810034235995387070nat, modulus());
    lemma_mpow_next(7, 2116927852210754876154900395953409202418436266531176001210554nat, 32057193453967580145082003392627495391462082367680465962160810034235995387070nat, 0, 47688706686774841793066286252998589842951446777365788715843288047090410720242nat, modulus());
    lemma_mpow_next(7, 4233855704421509752309800791906818404836872533062352002421108nat, 47688706686774841793066286252998589842951446777365788715843288047090410720242nat, 0, 616436281285014917568763484706356638913046671071058981522339911570540682693nat, modulus());
    lemma_mpow_next(7, 8467711408843019504619601583813636809673745066124704004842216nat, 616436281285014917568763484706356638913046671071058981522339911570540682693nat, 1, 22733293766013376685277754287584783624513757343868724119719280636884327939819nat, modulus());
    lemma_mpow_next(7, 16935422817686039009239203167627273619347490132249408009684433nat, 22733293766013376685277754287584783624513757343868724119719280636884327939819nat, 0, 13191212984244705873157947891804080113210342866172594092286045594884542717139nat, modulus());
    lemma_mpow_next(7, 33870845635372078018478406335254547238694980264498816019368866nat, 13191212984244705873157947891804080113210342866172594092286045594884542717139nat, 1, 4633071847405469609009844940657327292220310415907340382448866070108611017197nat, modulus());
    lemma_mpow_next(7, 67741691270744156036956812670509094477389960528997632038737733nat, 4633071847405469609009844940657327292220310415907340382448866070108611017197nat, 1, 32339852769747545936063209710038790734767801045611784488354570301888865984038nat, modulus());
    lemma_mpow_next(7, 135483382541488312073913625341018188954779921057995264077475467nat, 32339852769747545936063209710038790734767801045611784488354570301888865984038nat, 1, 48165542138772039271455097396443059966816717290813256558424239105622192301635nat, modulus());
    lemma_mpow_next(7, 270966765082976624147827250682036377909559842115990528154950935nat, 48165542138772039271455097396443059966816717290813256558424239105622192301635nat, 0, 45414729135801481534790909961576762298996640440929910388906254765242415843988nat, modulus());
}

/// Squarings 209 to 224 of the power below.
#[verifier::spinoff_prover]
#[verifier::rlimit(50)]
proof fn lemma_pow_order_by_11_part13()
    requires
        mpow(7, 541933530165953248295654501364072755819119684231981056309901870nat, modulus()) == 45414729135801481534790909961576762298996640440929910388906254765242415843988nat,
    ensures
        mpow(7, 35516155832955912080304013401395872125361827625827110506325728988064nat, modulus()) == 50608566117761250316953367879947458428420500432267571921535893016386302966371nat,
{
    lemma_mpow_next(7, 541933530165953248295654501364072755819119684231981056309901870nat, 45414729135801481534790909961576762298996640440929910388906254765242415843988nat, 1, 2877604449214433794844508558154511060647352045014278896345385697079217348955nat, modulus());
    lemma_mpow_next(7, 1083867060331906496591309002728145511638239368463962112619803741nat, 2877604449214433794844508558154511060647352045014278896345385697079217348955nat, 0, 32541701740604600354615997321672297707585489856138530736532033956304103780362nat, modulus());
    lemma_mpow_next(7, 2167734120663812993182618005456291023276478736927924225239607482nat, 32541701740604600354615997321672297707585489856138530736532033956304103780362nat, 0, 41410081435110578305150535385257030939241879911484173177277043567900771907613nat, modulus());
    lemma_mpow_next(7, 4335468241327625986365236010912582046552957473855848450479214964nat, 41410081435110578305150535385257030939241879911484173177277043567900771907613nat, 0, 24694143431927396770467123404510649257084011144539080940124238005654545557738nat, modulus());
    lemma_mpow_next(7, 8670936482655251972730472021825164093105914947711696900958429928nat, 24694143431927396770467123404510649257084011144539080940124238005654545557738nat, 1, 22548277146709667478119344033863017668447616045419340671470786105896121676485nat, modulus());
    lemma_mpow_next(7, 17341872965310503945460944043650328186211829895423393801916859857nat, 22548277146709667478119344033863017668447616045419340671470786105896121676485nat, 0, 5793089397605625209468698023443658580515257301161523743817376774794041793013nat, modulus());
    lemma_mpow_next(7, 34683745930621007890921888087300656372423659790846787603833719714nat, 5793089397605625209468698023443658580515257301161523743817376774794041793013nat, 1, 47560319740689194529847954480030121573880282255692301784520180880779920381714nat, modulus());
    lemma_mpow_next(7, 69367491861242015781843776174601312744847319581693575207667439429nat, 47560319740689194529847954480030121573880282255692301784520180880779920381714nat, 1, 13000963847714906284485790806731006664656998812715193609562115532603697739869nat, modulus());
    lemma_mpow_next(7, 138734983722484031563687552349202625489694639163387150415334878859nat, 13000963847714906284485790806731006664656998812715193609562115532603697739869nat, 1, 40221957640507060322788916380170160604582648206348629172331989861937223276816nat, modulus());
    lemma_mpow_next(7, 277469967444968063127375104698405250979389278326774300830669757719nat, 40221957640507060322788916380170160604582648206348629172331989861937223276816nat, 0, 37259202634529093569699993115287300592271702630164540154762683946906173849231nat, modulus());
    lemma_mpow_next(7, 554939934889936126254750209396810501958778556653548601661339515438nat, 37259202634529093569699993115287300592271702630164540154762683946906173849231nat, 1, 37421299217827395619406214410416352196320678902945665853178848777646252659049nat, modulus());
    lemma_mpow_next(7, 1109879869779872252509500418793621003917557113307097203322679030877nat, 37421299217827395619406214410416352196320678902945665853178848777646252659049nat, 0, 46023889946911223947218111433144121214636231606065451900614410429986102605577nat, modulus());
    lemma_mpow_next(7, 2219759739559744505019000837587242007835114226614194406645358061754nat, 46023889946911223947218111433144121214636231606065451900614410429986102605577nat, 0, 14567262131823213792886500937270552721393835931232469501922099693024255520810nat, modulus());
    lemma_mpow_next(7, 4439519479119489010038001675174484015670228453228388813290716123508nat, 14567262131823213792886500937270552721393835931232469501922099693024255520810nat, 0, 39296069068239117014235141151335548549009124715184904464963385855107285252419nat, modulus());
    lemma_mpow_next(7, 8879038958238978020076003350348968031340456906456777626581432247016nat, 39296069068239117014235141151335548549009124715184904464963385855107285252419nat, 0, 44863535509981562108380723577009448605134133942370424548114601113676580221570nat, modulus());
    lemma_mpow_next(7, 17758077916477956040152006700697936062680913812913555253162864494032nat, 44863535509981562108380723577009448605134133942370424548114601113676580221570nat, 0, 50608566117761250316953367879947458428420500432267571921535893016386302966371nat, modulus());
}

/// Squarings 225 to 240 of the power below.
#[verifier::spinoff_prover]
#[verifier::rlimit(50)]
proof fn lemma_pow_order_by_11_part14()
    requires
        mpow(7, 35516155832955912080304013401395872125361827625827110506325728988064nat, modulus()) == 50608566117761250316953367879947458428420500432267571921535893016386302966371nat,
    ensures
        mpow(7, 2327586788668598654094803822273879875607712735286205514142562974961762304nat, modulus()) == 47355606276633119999623110914924894538311297223711555292833043204054946681796nat,
{
    lemma_mpow_next(7, 35516155832955912080304013401395872125361827625827110506325728988064nat, 50608566117761250316953367879947458428420500432267571921535893016386302966371nat, 0, 12356826530638065056312275207576036824985920649607608947458232223290689235774nat, modulus());
    lemma_mpow_next(7, 71032311665911824160608026802791744250723655251654221012651457976128nat, 12356826530638065056312275207576036824985920649607608947458232223290689235774nat, 0, 15947087989946433392488050854690385066392522055160545823231186565367686062800nat, modulus());
    lemma_mpow_next(7, 142064623331823648321216053605583488501447310503308442025302915952256nat, 15947087989946433392488050854690385066392522055160545823231186565367686062800nat, 0, 37640740847785211037539205430939180563080665508080592739849411670498115694156nat, modulus());
    lemma_mpow_next(7, 284129246663647296642432107211166977002894621006616884050605831904512nat, 37640740847785211037539205430939180563080665508080592739849411670498115694156nat, 0, 35621495948038454116000163900038244647515201821367287986935583654755300163015nat, modulus());
    lemma_mpow_next(7, 568258493327294593284864214422333954005789242013233768101211663809024nat, 35621495948038454116000163900038244647515201821367287986935583654755300163015nat, 0, 34938777592433837969891640363175872722931562890695703282033929976838351175138nat, modulus());
    lemma_mpow_next(7, 1136516986654589186569728428844667908011578484026467536202423327618048nat, 34938777592433837969891640363175872722931562890695703282033929976838351175138nat, 0, 50349398312206057616641558656152056902727135641447126956452976181452770911150nat, modulus());
    lemma_mpow_next(7, 2273033973309178373139456857689335816023156968052935072404846655236096nat, 50349398312206057616641558656152056902727135641447126956452976181452770911150nat, 0, 6257232828774371687121886645408912006195572016716774822871627571740936069945nat, modulus());
    lemma_mpow_next(7, 4546067946618356746278913715378671632046313936105870144809693310472192nat, 6257232828774371687121886645408912006195572016716774822871627571740936069945nat, 0, 21338353693450982856766871554400046537186365577710896147051525125665558238485nat, modulus());
    lemma_mpow_next(7, 9092135893236713492557827430757343264092627872211740289619386620944384nat, 21338353693450982856766871554400046537186365577710896147051525125665558238485nat, 0, 33704036837979091606441954737330534417538886754476267140273545478128201838685nat, modulus());
    lemma_mpow_next(7, 18184271786473426985115654861514686528185255744423480579238773241888768nat, 33704036837979091606441954737330534417538886754476267140273545478128201838685nat, 0, 30052103677169043976290466420677488006285912124957878670667443272554216399331nat, modulus());
    lemma_mpow_next(7, 36368543572946853970231309723029373056370511488846961158477546483777536nat, 30052103677169043976290466420677488006285912124957878670667443272554216399331nat, 0, 49039168405236218805559071800287156991188142641234652081991300799201455951875nat, modulus());
    lemma_mpow_next(7, 72737087145893707940462619446058746112741022977693922316955092967555072nat, 49039168405236218805559071800287156991188142641234652081991300799201455951875nat, 0, 26124948512992224109387917019617895419623818585901520747513310882398397325793nat, modulus());
    lemma_mpow_next(7, 145474174291787415880925238892117492225482045955387844633910185935110144nat, 26124948512992224109387917019617895419623818585901520747513310882398397325793nat, 0, 43807864729195232776523486879744362423157888628622995745386057832327504957651nat, modulus());
    lemma_mpow_next(7, 290948348583574831761850477784234984450964091910775689267820371870220288nat, 43807864729195232776523486879744362423157888628622995745386057832327504957651nat, 0, 6674577691990217903183280382315150478161809012383826544157168770927441052938nat, modulus());
    lemma_mpow_next(7, 581896697167149663523700955568469968901928183821551378535640743740440576nat, 6674577691990217903183280382315150478161809012383826544157168770927441052938nat, 0, 46166297550728955761339043208813421657885989415268644925006239992596196669178nat, modulus());
    lemma_mpow_next(7, 1163793394334299327047401911136939937803856367643102757071281487480881152nat, 46166297550728955761339043208813421657885989415268644925006239992596196669178nat, 0, 47355606276633119999623110914924894538311297223711555292833043204054946681796nat, modulus());
}

/// Squarings 241 to 251 of the power below.
#[verifier::spinoff_prover]
#[verifier::rlimit(50)]
proof fn lemma_pow_order_by_11_part15()
    requires
        mpow(7, 2327586788668598654094803822273879875607712735286205514142562974961762304nat, modulus()) == 47355606276633119999623110914924894538311297223711555292833043204054946681796nat,
    ensures
        mpow(7, 4766897743193290043586158228016905985244595681866148892963968972721689198592nat, modulus()) == 23018359928796249160281600265894119056554178830089746663447279710197994863834nat,
{
    lemma_mpow_next(7, 2327586788668598654094803822273879875607712735286205514142562974961762304nat, 47355606276633119999623110914924894538311297223711555292833043204054946681796nat, 0, 15495409736525664580522611881477740845862286936633275966606697212808242960465nat, modulus());
    lemma_mpow_next(7, 4655173577337197308189607644547759751215425470572411028285125949923524608nat, 15495409736525664580522611881477740845862286936633275966606697212808242960465nat, 0, 9935319159291296225296205061497298425647605022509937155158128779181811084732nat, modulus());
    lemma_mpow_next(7, 9310347154674394616379215289095519502430850941144822056570251899847049216nat, 9935319159291296225296205061497298425647605022509937155158128779181811084732nat, 0, 49080449055536148111737256649471115077866972762959660630074371989065008719181nat, modulus());
    lemma_mpow_next(7, 18620694309348789232758430578191039004861701882289644113140503799694098432nat, 49080449055536148111737256649471115077866972762959660630074371989065008719181nat, 0, 5139886641948388820387004882779882243289496835789101000799879800735597001369nat, modulus());
    lemma_mpow_next(7, 37241388618697578465516861156382078009723403764579288226281007599388196864nat, 5139886641948388820387004882779882243289496835789101000799879800735597001369nat, 0, 37788683374159907079437010243111009917152723319460768445216848321077936706832nat, modulus());
    lemma_mpow_next(7, 74482777237395156931033722312764156019446807529158576452562015198776393728nat, 37788683374159907079437010243111009917152723319460768445216848321077936706832nat, 0, 12199030715717863602625843733259496153458630852184441396597431917972212168865nat, modulus());
    lemma_mpow_next(7, 148965554474790313862067444625528312038893615058317152905124030397552787456nat, 12199030715717863602625843733259496153458630852184441396597431917972212168865nat, 0, 44627893851202243146733350719799978439461732974599081217939054332150883485579nat, modulus());
    lemma_mpow_next(7, 297931108949580627724134889251056624077787230116634305810248060795105574912nat, 44627893851202243146733350719799978439461732974599081217939054332150883485579nat, 0, 7230057121090117390369413396167152541159245226586636237985774780825655486979nat, modulus());
    lemma_mpow_next(7, 595862217899161255448269778502113248155574460233268611620496121590211149824nat, 7230057121090117390369413396167152541159245226586636237985774780825655486979nat, 0, 13031947706854310238195868688346941351050418278256494933515810537776406349568nat, modulus());
    lemma_mpow_next(7, 1191724435798322510896539557004226496311148920466537223240992243180422299648nat, 13031947706854310238195868688346941351050418278256494933515810537776406349568nat, 0, 5981205868590610036627966575109565283756674324955651741633817132605685398496nat, modulus());
    lemma_mpow_next(7, 2383448871596645021793079114008452992622297840933074446481984486360844599296nat, 5981205868590610036627966575109565283756674324955651741633817132605685398496nat, 0, 23018359928796249160281600265894119056554178830089746663447279710197994863834nat, modulus());
}

/// The generator to the power `(n - 1) / 11` modulo the field order `n`.
proof fn lemma_pow_order_by_11()
    ensures
        mpow(7, 4766897743193290043586158228016905985244595681866148892963968972721689198592nat, modulus()) == 23018359928796249160281600265894119056554178830089746663447279710197994863834nat,
{
    lemma_mpow_first(7, modulus());
    lemma_pow_order_by_11_part0();
    lemma_pow_order_by_11_part1();
    lemma_pow_order_by_11_part2();
    lemma_pow_order_by_11_part3();
    lemma_pow_order_by_11_part4();
    lemma_pow_order_by_11_part5();
    lemma_pow_order_by_11_part6();
    lemma_pow_order_by_11_part7();
    lemma_pow_order_by_11_part8();
    lemma_pow_order_by_11_part9();
    lemma_pow_order_by_11_part10();
    lemma_pow_order_by_11_part11();
    lemma_pow_order_by_11_part12();
    lemma_pow_order_by_11_part13();
    lemma_pow_order_by_11_part14();
    lemma_pow_order_by_11_part15();
}

/// Squarings 1 to 16 of the power below.
#[verifier::spinoff_prover]
#[verifier::rlimit(50)]
proof fn lemma_pow_order_by_19_part0()
    requires
        mpow(7, 1, modulus()) == 7,
    ensures
        mpow(7, 99966, modulus()) == 24942624738594965603917521790432166924437809329628269397182073113715856329113nat,
{
    lemma_mpow_next(7, 1, 7, 1, 343, modulus());
    lemma_mpow_next(7, 3, 343, 0, 117649, modulus());
    lemma_mpow_next(7, 6, 117649, 0, 13841287201, modulus());
    lemma_mpow_next(7, 12, 13841287201, 0, 191581231380566414401nat, modulus());
    lemma_mpow_next(7, 24, 191581231380566414401nat, 0, 36703368217294125441230211032033660188801nat, modulus());
    lemma_mpow_next(7, 48, 36703368217294125441230211032033660188801nat, 1, 50185590767117571602664282470697382530404145192540727024464174164208281458826nat, modulus());
    lemma_mpow_next(7, 97, 50185590767117571602664282470697382530404145192540727024464174164208281458826nat, 1, 51508113018057384846405467330127090245352042042860361302524015780836760247748nat, modulus());
    lemma_mpow_next(7, 195, 51508113018057384846405467330127090245352042042860361302524015780836760247748nat, 0, 8970465535170266181979632953538366781628225532316145376014016490165206341774nat, modulus());
    lemma_mpow_next(7, 390, 8970465535170266181979632953538366781628225532316145376014016490165206341774nat, 0, 33770790563577558599791816820265133539012201547227413191717219384535549177936nat, modulus());
    lemma_mpow_next(7, 780, 33770790563577558599791816820265133539012201547227413191717219384535549177936nat, 1, 8121036359143954801463510328644866057427373200830718759952682849358700618436nat, modulus());
    lemma_mpow_next(7, 1561, 8121036359143954801463510328644866057427373200830718759952682849358700618436nat, 1, 9487591885425622749228646845803878845779937216676018187593363731979008019034nat, modulus());
    lemma_mpow_next(7, 3123, 9487591885425622749228646845803878845779937216676018187593363731979008019034nat, 1, 35925953172448879028948155082077524528027755352047317251645091245288591238127nat, modulus());
    lemma_mpow_next(7, 6247, 35925953172448879028948155082077524528027755352047317251645091245288591238127nat, 1, 5742668323788182423777082174833404567986322508658779563096489755219821420267nat, modulus());
    lemma_mpow_next(7, 12495, 5742668323788182423777082174833404567986322508658779563096489755219821420267nat, 1, 9393576309447999920002484570649757628986248788660026226625354129136192764893nat, modulus());
    lemma_mpow_next(7, 24991, 9393576309447999920002484570649757628986248788660026226625354129136192764893nat, 1, 15031437382687984047825334940272607286861885959737855161155574252520653935030nat, modulus());
    lemma_mpow_next(7, 49983, 15031437382687984047825334940272607286861885959737855161155574252520653935030nat, 0, 24942624738594965603917521790432166924437809329628269397182073113715856329113nat, modulus());
}

/// Squarings 17 to 32 of the power below.
#[verifier::spinoff_prover]
#[verifier::rlimit(50)]
proof fn lemma_pow_order_by_19_part1()
    requires
        mpow(7, 99966, modulus()) == 24942624738594965603917521790432166924437809329628269397182073113715856329113nat,
    ensures
        mpow(7, 6551426382, modulus()) == 41134296827573518574079102219287900570618956262604923454794993745149976558537nat,
{
    lemma_mpow_next(7, 99966, 24942624738594965603917521790432166924437809329628269397182073113715856329113nat, 1, 11689352909223618597436814506304069243179554711089365695981206278787938192283nat, modulus());
    lemma_mpow_next(7, 199933, 11689352909223618597436814506304069243179554711089365695981206278787938192283nat, 1, 27176275788445151302869225645606872024767473646310817743105111826493264045997nat, modulus());
    lemma_mpow_next(7, 399867, 27176275788445151302869225645606872024767473646310817743105111826493264045997nat, 0, 4622488838671899417044938571271732149720460145336940748008776465144825863428nat, modulus());
    lemma_mpow_next(7, 799734, 4622488838671899417044938571271732149720460145336940748008776465144825863428nat, 1, 9630445066370832973098201597578692443472979132420678503335344083979577585233nat, modulus());
    lemma_mpow_next(7, 1599469, 9630445066370832973098201597578692443472979132420678503335344083979577585233nat, 0, 12275285834698126271134851424943798489742035320072879966416222096956043391488nat, modulus());
    lemma_mpow_next(7, 3198938, 12275285834698126271134851424943798489742035320072879966416222096956043391488nat, 1, 266861196727987011579291325930822048364832155557090806302665681878413937206nat, modulus());
    lemma_mpow_next(7, 6397877, 266861196727987011579291325930822048364832155557090806302665681878413937206nat, 0, 46916255956596950576229721209967327186029994013072244514028383213295824275452nat, modulus());
    lemma_mpow_next(7, 12795754, 46916255956596950576229721209967327186029994013072244514028383213295824275452nat, 1, 21006586409420841067644696174591415153833504409232749141349639479105336004483nat, modulus());
    lemma_mpow_next(7, 25591509, 21006586409420841067644696174591415153833504409232749141349639479105336004483nat, 0, 25602070918199930153741158180413513029555891703103350178691838214468975031302nat, modulus());
    lemma_mpow_next(7, 51183018, 25602070918199930153741158180413513029555891703103350178691838214468975031302nat, 1, 1071352923743133535295935473860227155648347164143985242610945800886492964347nat, modulus());
    lemma_mpow_next(7, 102366037, 1071352923743133535295935473860227155648347164143985242610945800886492964347nat, 0, 34491297330007999586815595731547341208768756212952669526161107416881227798155nat, modulus());
    lemma_mpow_next(7, 204732074, 34491297330007999586815595731547341208768756212952669526161107416881227798155nat, 0, 9956085577352974223099775214238490008335930983845310292736693148148232561161nat, modulus());
    lemma_mpow_next(7, 409464148, 9956085577352974223099775214238490008335930983845310292736693148148232561161nat, 1, 3997315307695072432935340255888943679702944098914133246460436970630638339162nat, modulus());
    lemma_mpow_next(7, 818928297, 3997315307695072432935340255888943679702944098914133246460436970630638339162nat, 1, 6653713079686428425799107879219830304345262617627110462258906186916642371683nat, modulus());
    lemma_mpow_next(7, 1637856595, 6653713079686428425799107879219830304345262617627110462258906186916642371683nat, 1, 10970758302638070843902453163135125334825177228762048360483295941989033288637nat, modulus());
    lemma_mpow_next(7, 3275713191, 10970758302638070843902453163135125334825177228762048360483295941989033288637nat, 0, 41134296827573518574079102219287900570618956262604923454794993745149976558537nat, modulus());
}

/// Squarings 33 to 48 of the power below.
#[verifier::spinoff_prover]
#[verifier::rlimit(50)]
proof fn lemma_pow_order_by_19_part2()
    requires
        mpow(7, 6551426382, modulus()) == 41134296827573518574079102219287900570618956262604923454794993745149976558537nat,
    ensures
        mpow(7, 429354279372144, modulus()) == 30094219452307329986309583551314133273285411143052731657629996923380144468119nat,
{
    lemma_mpow_next(7, 6551426382, 41134296827573518574079102219287900570618956262604923454794993745149976558537nat, 0, 717383278098700830108471141563035066776488754775505355933817052960247361119nat, modulus());
    lemma_mpow_next(7, 13102852764, 717383278098700830108471141563035066776488754775505355933817052960247361119nat, 0, 3292039613502332134320143667701855883560386889865499976386016887462107128327nat, modulus());
    lemma_mpow_next(7, 26205705528, 3292039613502332134320143667701855883560386889865499976386016887462107128327nat, 0, 3538957011204925495346714431896186565034391459827355856911239930663963653664nat, modulus());
    lemma_mpow_next(7, 52411411056, 3538957011204925495346714431896186565034391459827355856911239930663963653664nat, 0, 23948071154326811049469259874527833032835573682637826574365729702694387913743nat, modulus());
    lemma_mpow_next(7, 104822822112, 23948071154326811049469259874527833032835573682637826574365729702694387913743nat, 0, 4532393383157746064089093832089565723221814803831643182370396151083557672072nat, modulus());
    lemma_mpow_next(7, 209645644224, 4532393383157746064089093832089565723221814803831643182370396151083557672072nat, 1, 4009215658530969338391997998973920858377486864344568602708588722606484471260nat, modulus());
    lemma_mpow_next(7, 419291288449, 4009215658530969338391997998973920858377486864344568602708588722606484471260nat, 0, 38985067067202259038380016409834382529122112175022261182027665825812335226103nat, modulus());
    lemma_mpow_next(7, 838582576898, 38985067067202259038380016409834382529122112175022261182027665825812335226103nat, 1, 27404922832457955767197706462787199462828719350718628547539758801541396980431nat, modulus());
    lemma_mpow_next(7, 1677165153797, 27404922832457955767197706462787199462828719350718628547539758801541396980431nat, 0, 43454982603685346253891012404499115342366296126024943923493284847852658512489nat, modulus());
    lemma_mpow_next(7, 3354330307594, 43454982603685346253891012404499115342366296126024943923493284847852658512489nat, 1, 15803137190179161975620676771851620482892711209263933602943770908480163250031nat, modulus());
    lemma_mpow_next(7, 6708660615189, 15803137190179161975620676771851620482892711209263933602943770908480163250031nat, 1, 29894969514562792251808878914627712298758518082055741238464089054154805532735nat, modulus());
    lemma_mpow_next(7, 13417321230379, 29894969514562792251808878914627712298758518082055741238464089054154805532735nat, 1, 37405932045755338940863942597989235135608960331926030837144933481128623358547nat, modulus());
    lemma_mpow_next(7, 26834642460759, 37405932045755338940863942597989235135608960331926030837144933481128623358547nat, 0, 23695320189722704949518406786632198061317714650403340087290771519953602099223nat, modulus());
    lemma_mpow_next(7, 53669284921518, 23695320189722704949518406786632198061317714650403340087290771519953602099223nat, 0, 7631375066661085628122511967470633494506781106014755625310265571109078525765nat, modulus());
    lemma_mpow_next(7, 107338569843036, 7631375066661085628122511967470633494506781106014755625310265571109078525765nat, 0, 8335830496052873236437967400317656590703353967733924308049593838723769188nat, modulus());
    lemma_mpow_next(7, 214677139686072, 8335830496052873236437967400317656590703353967733924308049593838723769188nat, 0, 30094219452307329986309583551314133273285411143052731657629996923380144468119nat, modulus());
}

/// Squarings 49 to 64 of the power below.
#[verifier::spinoff_prover]
#[verifier::rlimit(50)]
proof fn lemma_pow_order_by_19_part3()
    requires
        mpow(7, 429354279372144, modulus()) == 30094219452307329986309583551314133273285411143052731657629996923380144468119nat,
    ensures
        mpow(7, 28138162052932882028nat, modulus()) == 49506266182141635016637000772846585270342892310879529851605936210838512997845nat,
{
    lemma_mpow_next(7, 429354279372144, 30094219452307329986309583551314133273285411143052731657629996923380144468119nat, 1, 16244664953842063806747676042054641883410021544354386059492098359855706909272nat, modulus());
    lemma_mpow_next(7, 858708558744289, 16244664953842063806747676042054641883410021544354386059492098359855706909272nat, 1, 38977123935130258362969275822319507397043114352302092547561086907142991680325nat, modulus());
    lemma_mpow_next(7, 1717417117488579, 38977123935130258362969275822319507397043114352302092547561086907142991680325nat, 0, 47200171089597347525208176450509713792260606861792932551044521977562522553421nat, modulus());
    lemma_mpow_next(7, 3434834234977158, 47200171089597347525208176450509713792260606861792932551044521977562522553421nat, 0, 36762844371840055538707101139189666715001891919569532884345433658141553245707nat, modulus());
    lemma_mpow_next(7, 6869668469954316, 36762844371840055538707101139189666715001891919569532884345433658141553245707nat, 1, 40303803506482806016444511895378936055810715637488803353349627088568372540158nat, modulus());
    lemma_mpow_next(7, 13739336939908633, 40303803506482806016444511895378936055810715637488803353349627088568372540158nat, 1, 52211348268729983630085323065663425776582428239948972289946774768701631975344nat, modulus());
    lemma_mpow_next(7, 27478673879817267, 52211348268729983630085323065663425776582428239948972289946774768701631975344nat, 1, 5245973676325810543721437673281053287436272658379563371284854320095433543796nat, modulus());
    lemma_mpow_next(7, 54957347759634535, 5245973676325810543721437673281053287436272658379563371284854320095433543796nat, 0, 44902455489930109312021032516283985050139861038191397744943364546375130898703nat, modulus());
    lemma_mpow_next(7, 109914695519269070, 44902455489930109312021032516283985050139861038191397744943364546375130898703nat, 0, 2883717165643246165946184278471386335185638911659150733791563231154161757657nat, modulus());
    lemma_mpow_next(7, 219829391038538140, 2883717165643246165946184278471386335185638911659150733791563231154161757657nat, 1, 1818160672917812488073166145775327578582694379363148921171980377420064609989nat, modulus());
    lemma_mpow_next(7, 439658782077076281, 1818160672917812488073166145775327578582694379363148921171980377420064609989nat, 1, 46508770142897961161302401924189813787958424136628658929344063141802449648523nat, modulus());
    lemma_mpow_next(7, 879317564154152563, 46508770142897961161302401924189813787958424136628658929344063141802449648523nat, 0, 50923096646425081935582982166711342807580499792823696485154198248866487957762nat, modulus());
    lemma_mpow_next(7, 1758635128308305126nat, 50923096646425081935582982166711342807580499792823696485154198248866487957762nat, 1, 22268365814069661938942988833901662456345952510457782194656260355951639776461nat, modulus());
    lemma_mpow_next(7, 3517270256616610253nat, 22268365814069661938942988833901662456345952510457782194656260355951639776461nat, 1, 34090684579932221161876607608563693168091090370943634062346304818280777484131nat, modulus());
    lemma_mpow_next(7, 7034540513233220507nat, 34090684579932221161876607608563693168091090370943634062346304818280777484131nat, 0, 30895300908889194166484761645550592703839351064044329549827674153511619867893nat, modulus());
    lemma_mpow_next(7, 14069081026466441014nat, 30895300908889194166484761645550592703839351064044329549827674153511619867893nat, 0, 49506266182141635016637000772846585270342892310879529851605936210838512997845nat, modulus());
}

/// Squarings 65 to 80 of the power below.
#[verifier::spinoff_prover]
#[verifier::rlimit(50)]
proof fn lemma_pow_order_by_19_part4()
    requires
        mpow(7, 28138162052932882028nat, modulus()) == 49506266182141635016637000772846585270342892310879529851605936210838512997845nat,
    ensures
        mpow(7, 1844062588301009356617383nat, modulus()) == 18908313221496885031988169589486078181268221686548134784985382332954509057357nat,
{
    lemma_mpow_next(7, 28138162052932882028nat, 49506266182141635016637000772846585270342892310879529851605936210838512997845nat, 0, 31420982145125650600764944360103914239034214219408873092581924363959528937399nat, modulus());
    lemma_mpow_next(7, 56276324105865764056nat, 31420982145125650600764944360103914239034214219408873092581924363959528937399nat, 1, 20965890007747710821705887998991645464700078122420613039070291440657458648027nat, modulus());
    lemma_mpow_next(7, 112552648211731528113nat, 20965890007747710821705887998991645464700078122420613039070291440657458648027nat, 1, 22514122827459976598919981520790006826102907493256218191421998102940209534530nat, modulus());
    lemma_mpow_next(7, 225105296423463056227nat, 22514122827459976598919981520790006826102907493256218191421998102940209534530nat, 1, 33869294603331889843819487386249789401006045069972538643585318137149648527842nat, modulus());
    lemma_mpow_next(7, 450210592846926112455nat, 33869294603331889843819487386249789401006045069972538643585318137149648527842nat, 0, 46364846259900948094586417011531772813035085130120484590622834416449652701832nat, modulus());
    lemma_mpow_next(7, 900421185693852224910nat, 46364846259900948094586417011531772813035085130120484590622834416449652701832nat, 1, 20557174034071974721545143784208523037849451345462576033842514144809404417547nat, modulus());
    lemma_mpow_next(7, 1800842371387704449821nat, 20557174034071974721545143784208523037849451345462576033842514144809404417547nat, 1, 51940427484877932539863086642992338887759332514317850885453736608955732640380nat, modulus());
    lemma_mpow_next(7, 3601684742775408899643nat, 51940427484877932539863086642992338887759332514317850885453736608955732640380nat, 0, 28981670212817937744336245532428029910630666928721971943689932857381788123681nat, modulus());
    lemma_mpow_next(7, 7203369485550817799286nat, 28981670212817937744336245532428029910630666928721971943689932857381788123681nat, 1, 21032752128577999497144174572377081182984936275144962267721631878961391455778nat, modulus());
    lemma_mpow_next(7, 14406738971101635598573nat, 21032752128577999497144174572377081182984936275144962267721631878961391455778nat, 0, 4755148498177521320845575780157826516102025602030481138077874701208120355374nat, modulus());
    lemma_mpow_next(7, 28813477942203271197146nat, 4755148498177521320845575780157826516102025602030481138077874701208120355374nat, 1, 27326840455817652474584086550259679721058451187138116703594729478301513833287nat, modulus());
    lemma_mpow_next(7, 57626955884406542394293nat, 27326840455817652474584086550259679721058451187138116703594729478301513833287nat, 0, 15999473110782208549409730461792174234704054352632779731754336982909132821020nat, modulus());
    lemma_mpow_next(7, 115253911768813084788586nat, 15999473110782208549409730461792174234704054352632779731754336982909132821020nat, 0, 11292313613358991823747608578884091063583727500584648517159770792965272337734nat, modulus());
    lemma_mpow_next(7, 230507823537626169577172nat, 11292313613358991823747608578884091063583727500584648517159770792965272337734nat, 1, 11299235862608110878952129746629235878146301167159842573873865860585818106848nat, modulus());
    lemma_mpow_next(7, 461015647075252339154345nat, 11299235862608110878952129746629235878146301167159842573873865860585818106848nat, 1, 11659135521723076430968374038466011861718527750675700437955364374524036542506nat, modulus());
    lemma_mpow_next(7, 922031294150504678308691nat, 11659135521723076430968374038466011861718527750675700437955364374524036542506nat, 1, 18908313221496885031988169589486078181268221686548134784985382332954509057357nat, modulus());
}

/// Squarings 81 to 96 of the power below.
#[verifier::spinoff_prover]
#[verifier::rlimit(50)]
proof fn lemma_pow_order_by_19_part5()
    requires
        mpow(7, 1844062588301009356617383nat, modulus()) == 18908313221496885031988169589486078181268221686548134784985382332954509057357nat,
    ensures
        mpow(7, 120852485786894949195276870952nat, modulus()) == 1351982923687558552768311732625354849795370935220311283830131557408832585104nat,
{
    lemma_mpow_next(7, 1844062588301009356617383nat, 18908313221496885031988169589486078181268221686548134784985382332954509057357nat, 1, 6929126029262820732067610639632241291361145473947602192067022246435211297433nat, modulus());
    lemma_mpow_next(7, 3688125176602018713234767nat, 6929126029262820732067610639632241291361145473947602192067022246435211297433nat, 1, 6617310548430379286058743319130414125769901502713949579761132227788298610434nat, modulus());
    lemma_mpow_next(7, 7376250353204037426469535nat, 6617310548430379286058743319130414125769901502713949579761132227788298610434nat, 1, 16444699116003482101904920897924862703830007161327664061140414026359733410218nat, modulus());
    lemma_mpow_next(7, 14752500706408074852939071nat, 16444699116003482101904920897924862703830007161327664061140414026359733410218nat, 0, 6319370909353241476243916743794055966273743464748941850786693017853034618566nat, modulus());
    lemma_mpow_next(7, 29505001412816149705878142nat, 6319370909353241476243916743794055966273743464748941850786693017853034618566nat, 0, 4299602101364727746226822371264080536954516925292362048482771304843492859590nat, modulus());
    lemma_mpow_next(7, 59010002825632299411756284nat, 4299602101364727746226822371264080536954516925292362048482771304843492859590nat, 1, 33904793552741863279725257071909316109750478868834679101796636220486924435466nat, modulus());
    lemma_mpow_next(7, 118020005651264598823512569nat, 33904793552741863279725257071909316109750478868834679101796636220486924435466nat, 0, 29756511722523151539492964573112029888710866304016654794360256613006780134270nat, modulus());
    lemma_mpow_next(7, 236040011302529197647025138nat, 29756511722523151539492964573112029888710866304016654794360256613006780134270nat, 1, 45675761162148017327535830504762296832199457073593876197081814324448909564470nat, modulus());
    lemma_mpow_next(7, 472080022605058395294050277nat, 45675761162148017327535830504762296832199457073593876197081814324448909564470nat, 0, 39893264089728721158941370703108893673261117165014242847598231000332982160885nat, modulus());
    lemma_mpow_next(7, 944160045210116790588100554nat, 39893264089728721158941370703108893673261117165014242847598231000332982160885nat, 0, 51800067329166390595135049289371173638043087769700378710116049966444001319377nat, modulus());
    lemma_mpow_next(7, 1888320090420233581176201108nat, 51800067329166390595135049289371173638043087769700378710116049966444001319377nat, 1, 10815909025518679451714930002133749945688031929631412074471273351108108884077nat, modulus());
    lemma_mpow_next(7, 3776640180840467162352402217nat, 10815909025518679451714930002133749945688031929631412074471273351108108884077nat, 0, 7726852440331651336259397424600338641883117341842104407833374497184016620539nat, modulus());
    lemma_mpow_next(7, 7553280361680934324704804434nat, 7726852440331651336259397424600338641883117341842104407833374497184016620539nat, 1, 5022012168996870174682803145414630710577941502401167448156120340430175153282nat, modulus());
    lemma_mpow_next(7, 15106560723361868649409608869nat, 5022012168996870174682803145414630710577941502401167448156120340430175153282nat, 0, 1932448980061624608986326656020369031521855836115637091223121493553478808838nat, modulus());
    lemma_mpow_next(7, 30213121446723737298819217738nat, 1932448980061624608986326656020369031521855836115637091223121493553478808838nat, 0, 30334362571011340496944234552339668753159989705557209601376022219023562182428nat, modulus());
    lemma_mpow_next(7, 60426242893447474597638435476nat, 30334362571011340496944234552339668753159989705557209601376022219023562182428nat, 0, 1351982923687558552768311732625354849795370935220311283830131557408832585104nat, modulus());
}

/// Squarings 97 to 112 of the power below.
#[verifier::spinoff_prover]
#[verifier::rlimit(50)]
proof fn lemma_pow_order_by_19_part6()
    requires
        mpow(7, 120852485786894949195276870952nat, modulus()) == 1351982923687558552768311732625354849795370935220311283830131557408832585104nat,
    ensures
        mpow(7, 7920188508529947390461665014746172nat, modulus()) == 23330588576831795639588332151043856824132290705459539554880745957796055910374nat,
{
    lemma_mpow_next(7, 120852485786894949195276870952nat, 1351982923687558552768311732625354849795370935220311283830131557408832585104nat, 1, 44852554346530208288375752225376023918463947140053618172774230483283375207455nat, modulus());
    lemma_mpow_next(7, 241704971573789898390553741905nat, 44852554346530208288375752225376023918463947140053618172774230483283375207455nat, 0, 46448719391314696335146118376479664826231142518801413729013826884325059689162nat, modulus());
    lemma_mpow_next(7, 483409943147579796781107483810nat, 46448719391314696335146118376479664826231142518801413729013826884325059689162nat, 0, 5880480942308800863960462995100579470323098783232524293845747455593813337222nat, modulus());
    lemma_mpow_next(7, 966819886295159593562214967620nat, 5880480942308800863960462995100579470323098783232524293845747455593813337222nat, 0, 14164282379808789266127232436432009929730848517927585838101347556229870402355nat, modulus());
    lemma_mpow_next(7, 1933639772590319187124429935240nat, 14164282379808789266127232436432009929730848517927585838101347556229870402355nat, 1, 23063026744837839321857691482963034846486002984951366065194840062383019628335nat, modulus());
    lemma_mpow_next(7, 3867279545180638374248859870481nat, 23063026744837839321857691482963034846486002984951366065194840062383019628335nat, 1, 5067833359183181189922857757744397620194248028633762589058504354297040950320nat, modulus());
    lemma_mpow_next(7, 7734559090361276748497719740963nat, 5067833359183181189922857757744397620194248028633762589058504354297040950320nat, 0, 27138947476595888053505857298788561808373153327025048905650984373074137809862nat, modulus());
    lemma_mpow_next(7, 15469118180722553496995439481926nat, 27138947476595888053505857298788561808373153327025048905650984373074137809862nat, 0, 47965288677428018879492500194701579407552051894005274381896301877599827918997nat, modulus());
    lemma_mpow_next(7, 30938236361445106993990878963852nat, 47965288677428018879492500194701579407552051894005274381896301877599827918997nat, 0, 49600233914814630002371382464708579841981283543411595217225286895049634032510nat, modulus());
    lemma_mpow_next(7, 61876472722890213987981757927704nat, 49600233914814630002371382464708579841981283543411595217225286895049634032510nat, 0, 31946753834969338081932304663623613014256765629087948725487802408196583046742nat, modulus());
    lemma_mpow_next(7, 123752945445780427975963515855408nat, 31946753834969338081932304663623613014256765629087948725487802408196583046742nat, 1, 20749339561962336228039421940285949110113493058748874767632823941775380876652nat, modulus());
    lemma_mpow_next(7, 247505890891560855951927031710817nat, 20749339561962336228039421940285949110113493058748874767632823941775380876652nat, 1, 6312547727089437908611352710459747206537966343417842583475681620714563946692nat, modulus());
    lemma_mpow_next(7, 495011781783121711903854063421635nat, 6312547727089437908611352710459747206537966343417842583475681620714563946692nat, 1, 36621392555598890676538352206796233325415171729328168371528825229698904752800nat, modulus());
    lemma_mpow_next(7, 990023563566243423807708126843271nat, 36621392555598890676538352206796233325415171729328168371528825229698904752800nat, 1, 25149680944595286509000212646514262238873569509111166968873395599254007246767nat, modulus());
    lemma_mpow_next(7, 1980047127132486847615416253686543nat, 25149680944595286509000212646514262238873569509111166968873395599254007246767nat, 0, 42850254621419560840369418240181172614036418807570781102166565448912467979743nat, modulus());
    lemma_mpow_next(7, 3960094254264973695230832507373086nat, 42850254621419560840369418240181172614036418807570781102166565448912467979743nat, 0, 23330588576831795639588332151043856824132290705459539554880745957796055910374nat, modulus());
}

/// Squarings 113 to 128 of the power below.
#[verifier::spinoff_prover]
#[verifier::rlimit(50)]
proof fn lemma_pow_order_by_19_part7()
    requires
        mpow(7, 7920188508529947390461665014746172nat, modulus()) == 23330588576831795639588332151043856824132290705459539554880745957796055910374nat,
    ensures
        mpow(7, 519057474095018632181295678406405135108nat, modulus()) == 49596376694831428176621197853231759629227543595663549563082068611993683208615nat,
{
    lemma_mpow_next(7, 7920188508529947390461665014746172nat, 23330588576831795639588332151043856824132290705459539554880745957796055910374nat, 0, 36624099532626736427862899939178660675138503602651326142684500895769338521339nat, modulus());
    lemma_mpow_next(7, 15840377017059894780923330029492344nat, 36624099532626736427862899939178660675138503602651326142684500895769338521339nat, 0, 46404758139750175587162246190625922470064576272208381415550668879365182935179nat, modulus());
    lemma_mpow_next(7, 31680754034119789561846660058984688nat, 46404758139750175587162246190625922470064576272208381415550668879365182935179nat, 0, 26065852074270697642126457949124509597428542005728915472350086606533654571656nat, modulus());
    lemma_mpow_next(7, 63361508068239579123693320117969376nat, 26065852074270697642126457949124509597428542005728915472350086606533654571656nat, 1, 13353307723305254744620896962119615007916682514336384989481965585781170296232nat, modulus());
    lemma_mpow_next(7, 126723016136479158247386640235938753nat, 13353307723305254744620896962119615007916682514336384989481965585781170296232nat, 1, 13952620032029771442188399754237224002596010152066476966442804225724443065288nat, modulus());
    lemma_mpow_next(7, 253446032272958316494773280471877507nat, 13952620032029771442188399754237224002596010152066476966442804225724443065288nat, 0, 6737857515260378928049681544377754374872710007348409008612241538602089703091nat, modulus());
    lemma_mpow_next(7, 506892064545916632989546560943755014nat, 6737857515260378928049681544377754374872710007348409008612241538602089703091nat, 1, 49267513759552956107888346140937448524449840830175369661882247492522219345029nat, modulus());
    lemma_mpow_next(7, 1013784129091833265979093121887510029nat, 49267513759552956107888346140937448524449840830175369661882247492522219345029nat, 1, 21030587380432350681660941081796254522654143937224804107300396774260261919336nat, modulus());
    lemma_mpow_next(7, 2027568258183666531958186243775020059nat, 21030587380432350681660941081796254522654143937224804107300396774260261919336nat, 0, 711372076058681394280179089022307448986869799634643052455321988262510404910nat, modulus());
    lemma_mpow_next(7, 4055136516367333063916372487550040118nat, 711372076058681394280179089022307448986869799634643052455321988262510404910nat, 0, 13259618666905811021454188890440761301382217702181382673624348776156009755253nat, modulus());
    lemma_mpow_next(7, 8110273032734666127832744975100080236nat, 13259618666905811021454188890440761301382217702181382673624348776156009755253nat, 0, 26072660912192441869053227861775741156847739465552618278884422745763984800660nat, modulus());
    lemma_mpow_next(7, 16220546065469332255665489950200160472nat, 26072660912192441869053227861775741156847739465552618278884422745763984800660nat, 0, 8013371579026906513467689414736136223928433164598354568655389052787521496621nat, modulus());
    lemma_mpow_next(7, 32441092130938664511330979900400320944nat, 8013371579026906513467689414736136223928433164598354568655389052787521496621nat, 0, 36473348676845252282681831992497162270854949351855365910523053597196522712478nat, modulus());
    lemma_mpow_next(7, 64882184261877329022661959800800641888nat, 36473348676845252282681831992497162270854949351855365910523053597196522712478nat, 1, 50942285386722629598962232016518181264650999657960170910412906563470058540552nat, modulus());
    lemma_mpow_next(7, 129764368523754658045323919601601283777nat, 50942285386722629598962232016518181264650999657960170910412906563470058540552nat, 0, 3430262239415779132002899076727243267021867043726148764431862765087451442300nat, modulus());
    lemma_mpow_next(7, 259528737047509316090647839203202567554nat, 3430262239415779132002899076727243267021867043726148764431862765087451442300nat, 0, 49596376694831428176621197853231759629227543595663549563082068611993683208615nat, modulus());
}

/// Squarings 129 to 144 of the power below.
#[verifier::spinoff_prover]
#[verifier::rlimit(50)]
proof fn lemma_pow_order_by_19_part8()
    requires
        mpow(7, 519057474095018632181295678406405135108nat, modulus()) == 49596376694831428176621197853231759629227543595663549563082068611993683208615nat,
    ensures
        mpow(7, 34016950622291141078633393580042166934468707nat, modulus()) == 18789597133151898436593656617005499219091598503532714428992206994293526889276nat,
{
    lemma_mpow_next(7, 519057474095018632181295678406405135108nat, 49596376694831428176621197853231759629227543595663549563082068611993683208615nat, 0, 48721902768743100746909806942480690742337636268502232448433390646601893386152nat, modulus());
    lemma_mpow_next(7, 1038114948190037264362591356812810270216nat, 48721902768743100746909806942480690742337636268502232448433390646601893386152nat, 1, 31690193104020010924788889664918810707284044099631554491286338841005137716666nat, modulus());
    lemma_mpow_next(7, 2076229896380074528725182713625620540433nat, 31690193104020010924788889664918810707284044099631554491286338841005137716666nat, 1, 21644581707665169849689003573974920525245517435627263261221832154902063906589nat, modulus());
    lemma_mpow_next(7, 4152459792760149057450365427251241080867nat, 21644581707665169849689003573974920525245517435627263261221832154902063906589nat, 1, 41814085785492490635571017875754811856929367220313799004992418975859385046458nat, modulus());
    lemma_mpow_next(7, 8304919585520298114900730854502482161735nat, 41814085785492490635571017875754811856929367220313799004992418975859385046458nat, 1, 21918136015241638817410720370325954480491371669320720151249718147680213319585nat, modulus());
    lemma_mpow_next(7, 16609839171040596229801461709004964323471nat, 21918136015241638817410720370325954480491371669320720151249718147680213319585nat, 0, 18687981293699404972559346225802501516873725549635476097749077920978798886654nat, modulus());
    lemma_mpow_next(7, 33219678342081192459602923418009928646942nat, 18687981293699404972559346225802501516873725549635476097749077920978798886654nat, 0, 30303410026868880599462157735478842092179262540541326966818932061810123411528nat, modulus());
    lemma_mpow_next(7, 66439356684162384919205846836019857293884nat, 30303410026868880599462157735478842092179262540541326966818932061810123411528nat, 0, 20526778500013052250773880071884462275467860098173429359883463547339433606828nat, modulus());
    lemma_mpow_next(7, 132878713368324769838411693672039714587768nat, 20526778500013052250773880071884462275467860098173429359883463547339433606828nat, 0, 21351366649247274109599269292238176426632078467942675699652538508130929157489nat, modulus());
    lemma_mpow_next(7, 265757426736649539676823387344079429175536nat, 21351366649247274109599269292238176426632078467942675699652538508130929157489nat, 1, 49137398288379419682911807487299841796858920384548207223307294635753971884182nat, modulus());
    lemma_mpow_next(7, 531514853473299079353646774688158858351073nat, 49137398288379419682911807487299841796858920384548207223307294635753971884182nat, 1, 32670078088896799430514079425436628060575299569575652785410487065398865780972nat, modulus());
    lemma_mpow_next(7, 1063029706946598158707293549376317716702147nat, 32670078088896799430514079425436628060575299569575652785410487065398865780972nat, 0, 1432196805827618287099565980888711159826419039709742810728757310561926058469nat, modulus());
    lemma_mpow_next(7, 2126059413893196317414587098752635433404294nat, 1432196805827618287099565980888711159826419039709742810728757310561926058469nat, 0, 31706473934531485703077660373267616715698669383970317022785587745585701565675nat, modulus());
    lemma_mpow_next(7, 4252118827786392634829174197505270866808588nat, 31706473934531485703077660373267616715698669383970317022785587745585701565675nat, 0, 32369185019573718860560380755107112467630348737430674950358086232952082699849nat, modulus());
    lemma_mpow_next(7, 8504237655572785269658348395010541733617176nat, 32369185019573718860560380755107112467630348737430674950358086232952082699849nat, 1, 24824577449370824335508132114739241558475950168086346068610153395734071165742nat, modulus());
    lemma_mpow_next(7, 17008475311145570539316696790021083467234353nat, 24824577449370824335508132114739241558475950168086346068610153395734071165742nat, 1, 18789597133151898436593656617005499219091598503532714428992206994293526889276nat, modulus());
}

/// Squarings 145 to 160 of the power below.
#[verifier::spinoff_prover]
#[verifier::rlimit(50)]
proof fn lemma_pow_order_by_19_part9()
    requires
        mpow(7, 34016950622291141078633393580042166934468707nat, modulus()) == 18789597133151898436593656617005499219091598503532714428992206994293526889276nat,
    ensures
        mpow(7, 2229334875982472221729318081661643452217341237150nat, modulus()) == 45118805723814971417701776593761865697484185126890410812793242693017663391577nat,
{
    lemma_mpow_next(7, 34016950622291141078633393580042166934468707nat, 18789597133151898436593656617005499219091598503532714428992206994293526889276nat, 1, 49302997241515780969759300401375471529752297563337569346057664364051401500983nat, modulus());
    lemma_mpow_next(7, 68033901244582282157266787160084333868937415nat, 49302997241515780969759300401375471529752297563337569346057664364051401500983nat, 1, 9029382197810539242420378693600557004380453627988842900662138872805368635116nat, modulus());
    lemma_mpow_next(7, 136067802489164564314533574320168667737874831nat, 9029382197810539242420378693600557004380453627988842900662138872805368635116nat, 0, 36655500970548601244239431603662127375628212155442257190415974238172970255360nat, modulus());
    lemma_mpow_next(7, 272135604978329128629067148640337335475749662nat, 36655500970548601244239431603662127375628212155442257190415974238172970255360nat, 1, 6081011463756946421752873321054786612867602018760705554056720832925597637930nat, modulus());
    lemma_mpow_next(7, 544271209956658257258134297280674670951499325nat, 6081011463756946421752873321054786612867602018760705554056720832925597637930nat, 0, 37335501708729512954855470655415237916948433504704978029027691599911721323648nat, modulus());
    lemma_mpow_next(7, 1088542419913316514516268594561349341902998650nat, 37335501708729512954855470655415237916948433504704978029027691599911721323648nat, 1, 23715786143784559850572863897207412254584618438871500536028621803648349860352nat, modulus());
    lemma_mpow_next(7, 2177084839826633029032537189122698683805997301nat, 23715786143784559850572863897207412254584618438871500536028621803648349860352nat, 1, 52211162545784065388770358888283307669550498313777089084900651705119309745973nat, modulus());
    lemma_mpow_next(7, 4354169679653266058065074378245397367611994603nat, 52211162545784065388770358888283307669550498313777089084900651705119309745973nat, 1, 18483184977205066032183326833814465703326926067310360691290492891704076844136nat, modulus());
    lemma_mpow_next(7, 8708339359306532116130148756490794735223989207nat, 18483184977205066032183326833814465703326926067310360691290492891704076844136nat, 1, 45927211342784460595934828653051639426738501676295838108175627245188664896035nat, modulus());
    lemma_mpow_next(7, 17416678718613064232260297512981589470447978415nat, 45927211342784460595934828653051639426738501676295838108175627245188664896035nat, 0, 12084716524663542079264132098992171128527191346873547595786668672274811326293nat, modulus());
    lemma_mpow_next(7, 34833357437226128464520595025963178940895956830nat, 12084716524663542079264132098992171128527191346873547595786668672274811326293nat, 0, 9555547039155391460334878400834446621373360608190087564286563821971085407519nat, modulus());
    lemma_mpow_next(7, 69666714874452256929041190051926357881791913660nat, 9555547039155391460334878400834446621373360608190087564286563821971085407519nat, 1, 19299611589971932504999612444538814178783190880389082122344566760807373403817nat, modulus());
    lemma_mpow_next(7, 139333429748904513858082380103852715763583827321nat, 19299611589971932504999612444538814178783190880389082122344566760807373403817nat, 1, 33829909430991781509224015674052853673177214609681395883868214476642144752003nat, modulus());
    lemma_mpow_next(7, 278666859497809027716164760207705431527167654643nat, 33829909430991781509224015674052853673177214609681395883868214476642144752003nat, 1, 51982397114486925935874078635170787285576879150894504545938930456301967780935nat, modulus());
    lemma_mpow_next(7, 557333718995618055432329520415410863054335309287nat, 51982397114486925935874078635170787285576879150894504545938930456301967780935nat, 1, 22427639322810944067542377528896066783605067414041455483450954260577740062808nat, modulus());
    lemma_mpow_next(7, 1114667437991236110864659040830821726108670618575nat, 22427639322810944067542377528896066783605067414041455483450954260577740062808nat, 0, 45118805723814971417701776593761865697484185126890410812793242693017663391577nat, modulus());
}

/// Squarings 161 to 176 of the power below.
#[verifier::spinoff_prover]
#[verifier::rlimit(50)]
proof fn lemma_pow_order_by_19_part10()
    requires
        mpow(7, 2229334875982472221729318081661643452217341237150nat, modulus()) == 45118805723814971417701776593761865697484185126890410812793242693017663391577nat,
    ensures
        mpow(7, 146101690432387299523252589799777465284515675317883090nat, modulus()) == 3526334759265641033477440321463232022119989383435073420998567441686802932230nat,
{
    lemma_mpow_next(7, 2229334875982472221729318081661643452217341237150nat, 45118805723814971417701776593761865697484185126890410812793242693017663391577nat, 0, 49964819389282754585692252757040214704419569031440199822161068317510993556421nat, modulus());
    lemma_mpow_next(7, 4458669751964944443458636163323286904434682474300nat, 49964819389282754585692252757040214704419569031440199822161068317510993556421nat, 1, 46401917018184688107171423605916777424028066918676027739445102259952963585696nat, modulus());
    lemma_mpow_next(7, 8917339503929888886917272326646573808869364948601nat, 46401917018184688107171423605916777424028066918676027739445102259952963585696nat, 0, 27126335143728986159383917992054729458507858603856667199381691904689235729422nat, modulus());
    lemma_mpow_next(7, 17834679007859777773834544653293147617738729897202nat, 27126335143728986159383917992054729458507858603856667199381691904689235729422nat, 1, 49088865459655906638430164938894637721529357277175531868368116856074407341834nat, modulus());
    lemma_mpow_next(7, 35669358015719555547669089306586295235477459794405nat, 49088865459655906638430164938894637721529357277175531868368116856074407341834nat, 0, 15319052746242148667699622249340546768329428709888349158507956453377004933207nat, modulus());
    lemma_mpow_next(7, 71338716031439111095338178613172590470954919588810nat, 15319052746242148667699622249340546768329428709888349158507956453377004933207nat, 0, 2559291867218825432253323146630597005857310213007384041999556984812850719013nat, modulus());
    lemma_mpow_next(7, 142677432062878222190676357226345180941909839177620nat, 2559291867218825432253323146630597005857310213007384041999556984812850719013nat, 0, 46468154198517768169190344961364477600557720927984171931899554049490303285799nat, modulus());
    lemma_mpow_next(7, 285354864125756444381352714452690361883819678355240nat, 46468154198517768169190344961364477600557720927984171931899554049490303285799nat, 0, 51512279657254563143930757579195958385795769569692255962666096812673944679512nat, modulus());
    lemma_mpow_next(7, 570709728251512888762705428905380723767639356710480nat, 51512279657254563143930757579195958385795769569692255962666096812673944679512nat, 1, 1487782487519195469194867781355676053318253704163020186954343828049650233954nat, modulus());
    lemma_mpow_next(7, 1141419456503025777525410857810761447535278713420961nat, 1487782487519195469194867781355676053318253704163020186954343828049650233954nat, 1, 27155149363366599989119307431215086926690550364010537972050771322885101823649nat, modulus());
    lemma_mpow_next(7, 2282838913006051555050821715621522895070557426841923nat, 27155149363366599989119307431215086926690550364010537972050771322885101823649nat, 0, 50753335501997792784829391829518661260618580394909443772548956397869800078889nat, modulus());
    lemma_mpow_next(7, 4565677826012103110101643431243045790141114853683846nat, 50753335501997792784829391829518661260618580394909443772548956397869800078889nat, 1, 20077640728089883026370058088442118174429136066501901392253548769001434396952nat, modulus());
    lemma_mpow_next(7, 9131355652024206220203286862486091580282229707367693nat, 20077640728089883026370058088442118174429136066501901392253548769001434396952nat, 0, 1094973101085865932599295622647025179631699067291219992603904812525990112157nat, modulus());
    lemma_mpow_next(7, 18262711304048412440406573724972183160564459414735386nat, 1094973101085865932599295622647025179631699067291219992603904812525990112157nat, 0, 1733625716536199054959056320870958053593372420374171187204674879932349653026nat, modulus());
    lemma_mpow_next(7, 36525422608096824880813147449944366321128918829470772nat, 1733625716536199054959056320870958053593372420374171187204674879932349653026nat, 1, 44134170651079758322128586363985293580022181713278133161043871570248531764312nat, modulus());
    lemma_mpow_next(7, 73050845216193649761626294899888732642257837658941545nat, 44134170651079758322128586363985293580022181713278133161043871570248531764312nat, 0, 3526334759265641033477440321463232022119989383435073420998567441686802932230nat, modulus());
}

/// Squarings 177 to 192 of the power below.
#[verifier::spinoff_prover]
#[verifier::rlimit(50)]
proof fn lemma_pow_order_by_19_part11()
    requires
        mpow(7, 146101690432387299523252589799777465284515675317883090nat, modulus()) == 3526334759265641033477440321463232022119989383435073420998567441686802932230nat,
    ensures
        mpow(7, 9574920384176934061555881725118215964886019297632786189685nat, modulus()) == 33530490057412825339023260440445077480500841297864290619844365960660684214077nat,
{
    lemma_mpow_next(7, 146101690432387299523252589799777465284515675317883090nat, 3526334759265641033477440321463232022119989383435073420998567441686802932230nat, 0, 6246222462086345844746154839829242342050611942972327565020079185794967108578nat, modulus());
    lemma_mpow_next(7, 292203380864774599046505179599554930569031350635766180nat, 6246222462086345844746154839829242342050611942972327565020079185794967108578nat, 0, 50056950374798092645002557332030142939537851833060376576138278794767386343672nat, modulus());
    lemma_mpow_next(7, 584406761729549198093010359199109861138062701271532360nat, 50056950374798092645002557332030142939537851833060376576138278794767386343672nat, 0, 936167757234061910410807252891719918853001097327123950272004316134752604989nat, modulus());
    lemma_mpow_next(7, 1168813523459098396186020718398219722276125402543064720nat, 936167757234061910410807252891719918853001097327123950272004316134752604989nat, 0, 41068251994249187545888486059527931243063611378294862578362512730206434045864nat, modulus());
    lemma_mpow_next(7, 2337627046918196792372041436796439444552250805086129440nat, 41068251994249187545888486059527931243063611378294862578362512730206434045864nat, 1, 45194039116138094512193417685281692943158146962501593089598138340100174890145nat, modulus());
    lemma_mpow_next(7, 4675254093836393584744082873592878889104501610172258881nat, 45194039116138094512193417685281692943158146962501593089598138340100174890145nat, 1, 37692487902267503090585569962351136817979512991986372429133980056759710184477nat, modulus());
    lemma_mpow_next(7, 9350508187672787169488165747185757778209003220344517763nat, 37692487902267503090585569962351136817979512991986372429133980056759710184477nat, 0, 28251754225993648940514608726941836136556053189549657068141471324414808451342nat, modulus());
    lemma_mpow_next(7, 18701016375345574338976331494371515556418006440689035526nat, 28251754225993648940514608726941836136556053189549657068141471324414808451342nat, 1, 24870305395832949332912234521163135592644547197460664673833831187836969148755nat, modulus());
    lemma_mpow_next(7, 37402032750691148677952662988743031112836012881378071053nat, 24870305395832949332912234521163135592644547197460664673833831187836969148755nat, 0, 51747696371171057847554686273394724733192109573175173528051056638785863001363nat, modulus());
    lemma_mpow_next(7, 74804065501382297355905325977486062225672025762756142106nat, 51747696371171057847554686273394724733192109573175173528051056638785863001363nat, 1, 44546532508036978155481772561744341520771919785880054679693607883182897637614nat, modulus());
    lemma_mpow_next(7, 149608131002764594711810651954972124451344051525512284213nat, 44546532508036978155481772561744341520771919785880054679693607883182897637614nat, 1, 42914116346615795971470084027368482002216876499786794604014410791319693650510nat, modulus());
    lemma_mpow_next(7, 299216262005529189423621303909944248902688103051024568427nat, 42914116346615795971470084027368482002216876499786794604014410791319693650510nat, 1, 37664479789289178761109429603360923166230827601769383578014641691377978552073nat, modulus());
    lemma_mpow_next(7, 598432524011058378847242607819888497805376206102049136855nat, 37664479789289178761109429603360923166230827601769383578014641691377978552073nat, 0, 28991043092575935161429877372999857176803343753758950257909501382623583508525nat, modulus());
    lemma_mpow_next(7, 1196865048022116757694485215639776995610752412204098273710nat, 28991043092575935161429877372999857176803343753758950257909501382623583508525nat, 1, 17964950697933333748177530451351512679498108041415745285291294396323572337901nat, modulus());
    lemma_mpow_next(7, 2393730096044233515388970431279553991221504824408196547421nat, 17964950697933333748177530451351512679498108041415745285291294396323572337901nat, 0, 34838945849735549558554779895450904294111445149290577968141594663311139050512nat, modulus());
    lemma_mpow_next(7, 4787460192088467030777940862559107982443009648816393094842nat, 34838945849735549558554779895450904294111445149290577968141594663311139050512nat, 1, 33530490057412825339023260440445077480500841297864290619844365960660684214077nat, modulus());
}

/// Squarings 193 to 208 of the power below.
#[verifier::spinoff_prover]
#[verifier::rlimit(50)]
proof fn lemma_pow_order_by_19_part12()
    requires
        mpow(7, 9574920384176934061555881725118215964886019297632786189685nat, modulus()) == 33530490057412825339023260440445077480500841297864290619844365960660684214077nat,
    ensures
        mpow(7, 627501982297419550658126264737347401474770160689662275727254797nat, modulus()) == 34697778571416082278320724112098884496247462134839150895086116066161678104401nat,
{
    lemma_mpow_next(7, 9574920384176934061555881725118215964886019297632786189685nat, 33530490057412825339023260440445077480500841297864290619844365960660684214077nat, 1, 1717118834147747203731065773828682228801340409518617686743451797069681464357nat, modulus());
    lemma_mpow_next(7, 19149840768353868123111763450236431929772038595265572379371nat, 1717118834147747203731065773828682228801340409518617686743451797069681464357nat, 1, 19074628952864372419932480043790921740510145066859252882630404109048917726061nat, modulus());
    lemma_mpow_next(7, 38299681536707736246223526900472863859544077190531144758743nat, 19074628952864372419932480043790921740510145066859252882630404109048917726061nat, 1, 24737992972094537369568439144886544881247444765698065505335805641969630161118nat, modulus());
    lemma_mpow_next(7, 76599363073415472492447053800945727719088154381062289517487nat, 24737992972094537369568439144886544881247444765698065505335805641969630161118nat, 0, 43857240384047776194760011506146162755389883089692451769775827835554399654133nat, modulus());
    lemma_mpow_next(7, 153198726146830944984894107601891455438176308762124579034974nat, 43857240384047776194760011506146162755389883089692451769775827835554399654133nat, 0, 17617182299184194127596052448383687585596004448555764108996727072204579155085nat, modulus());
    lemma_mpow_next(7, 306397452293661889969788215203782910876352617524249158069948nat, 17617182299184194127596052448383687585596004448555764108996727072204579155085nat, 1, 21262520467500188826983836876998238779563858755407365957613824443231170014114nat, modulus());
    lemma_mpow_next(7, 612794904587323779939576430407565821752705235048498316139897nat, 21262520467500188826983836876998238779563858755407365957613824443231170014114nat, 0, 14168101366934521753962828981347980560660881809840616276116476114571617240184nat, modulus());
    lemma_mpow_next(7, 1225589809174647559879152860815131643505410470096996632279794nat, 14168101366934521753962828981347980560660881809840616276116476114571617240184nat, 1, 38850293013348886240940474847116886815012223664033212369686515368980453177079nat, modulus());
    lemma_mpow_next(7, 2451179618349295119758305721630263287010820940193993264559589nat, 38850293013348886240940474847116886815012223664033212369686515368980453177079nat, 0, 1621824159646707732443837716490445651218022853702300237902419284525881773066nat, modulus());
    lemma_mpow_next(7, 4902359236698590239516611443260526574021641880387986529119178nat, 1621824159646707732443837716490445651218022853702300237902419284525881773066nat, 0, 39510075661801624412297991408335681417620189566066320416724187137249814488402nat, modulus());
    lemma_mpow_next(7, 9804718473397180479033222886521053148043283760775973058238356nat, 39510075661801624412297991408335681417620189566066320416724187137249814488402nat, 0, 30977741144366881937117109577343378269349636962522204616223592909285474495321nat, modulus());
    lemma_mpow_next(7, 19609436946794360958066445773042106296086567521551946116476712nat, 30977741144366881937117109577343378269349636962522204616223592909285474495321nat, 0, 50201557306325817854623874656355318932586622420140187193158287725148683556782nat, modulus());
    lemma_mpow_next(7, 39218873893588721916132891546084212592173135043103892232953424nat, 50201557306325817854623874656355318932586622420140187193158287725148683556782nat, 1, 31649438303736147952790875779939904256762358470245744889817415959252149560672nat, modulus());
    lemma_mpow_next(7, 78437747787177443832265783092168425184346270086207784465906849nat, 31649438303736147952790875779939904256762358470245744889817415959252149560672nat, 1, 13349042533454765420402746633439454182710294536551761516132648255748802070051nat, modulus());
    lemma_mpow_next(7, 156875495574354887664531566184336850368692540172415568931813699nat, 13349042533454765420402746633439454182710294536551761516132648255748802070051nat, 0, 43955687634153576750465902589814947301283351907523035270151700019957261873447nat, modulus());
    lemma_mpow_next(7, 313750991148709775329063132368673700737385080344831137863627398nat, 43955687634153576750465902589814947301283351907523035270151700019957261873447nat, 1, 34697778571416082278320724112098884496247462134839150895086116066161678104401nat, modulus());
}

/// Squarings 209 to 224 of the power below.
#[verifier::spinoff_prover]
#[verifier::rlimit(50)]
proof fn lemma_pow_order_by_19_part13()
    requires
        mpow(7, 627501982297419550658126264737347401474770160689662275727254797nat, modulus()) == 34697778571416082278320724112098884496247462134839150895086116066161678104401nat,
    ensures
        mpow(7, 41123969911843687671930962885826799303050537250957706902061370407232nat, modulus()) == 20770035376051407673506097580048150450734371734155153658561087867942005703453nat,
{
    lemma_mpow_next(7, 627501982297419550658126264737347401474770160689662275727254797nat, 34697778571416082278320724112098884496247462134839150895086116066161678104401nat, 0, 12257468901958642705756558400895023859985904876377395782666455827159280168951nat, modulus());
    lemma_mpow_next(7, 1255003964594839101316252529474694802949540321379324551454509594nat, 12257468901958642705756558400895023859985904876377395782666455827159280168951nat, 1, 12726796698642488669709780254921788121497121943260891577350862405783223348305nat, modulus());
    lemma_mpow_next(7, 2510007929189678202632505058949389605899080642758649102909019189nat, 12726796698642488669709780254921788121497121943260891577350862405783223348305nat, 1, 9138687635490677663520268700194242624451099226271779960294659088275937214165nat, modulus());
    lemma_mpow_next(7, 5020015858379356405265010117898779211798161285517298205818038379nat, 9138687635490677663520268700194242624451099226271779960294659088275937214165nat, 1, 42430936508311325143870194428028797315511024150407309268129171601261376291483nat, modulus());
    lemma_mpow_next(7, 10040031716758712810530020235797558423596322571034596411636076759nat, 42430936508311325143870194428028797315511024150407309268129171601261376291483nat, 1, 25049756590557690498608490756960346479891350581813129703466828779433234411596nat, modulus());
    lemma_mpow_next(7, 20080063433517425621060040471595116847192645142069192823272153519nat, 25049756590557690498608490756960346479891350581813129703466828779433234411596nat, 0, 7229612948080530879112080274470734653683296507029917863180070959375647610273nat, modulus());
    lemma_mpow_next(7, 40160126867034851242120080943190233694385290284138385646544307038nat, 7229612948080530879112080274470734653683296507029917863180070959375647610273nat, 0, 27724794575879773656109703781742589719536746138864789739946486886711553033019nat, modulus());
    lemma_mpow_next(7, 80320253734069702484240161886380467388770580568276771293088614076nat, 27724794575879773656109703781742589719536746138864789739946486886711553033019nat, 1, 3997083948596041569060555053824774998276361909410685766519693591548758675362nat, modulus());
    lemma_mpow_next(7, 160640507468139404968480323772760934777541161136553542586177228153nat, 3997083948596041569060555053824774998276361909410685766519693591548758675362nat, 0, 9885507315596215661110421400067487942453507631555909570586964132590420092812nat, modulus());
    lemma_mpow_next(7, 321281014936278809936960647545521869555082322273107085172354456306nat, 9885507315596215661110421400067487942453507631555909570586964132590420092812nat, 1, 11894166365631005770212714831144419058661121439017233463774960448688886510933nat, modulus());
    lemma_mpow_next(7, 642562029872557619873921295091043739110164644546214170344708912613nat, 11894166365631005770212714831144419058661121439017233463774960448688886510933nat, 0, 14513470002673444605166536140606599409900468891414980974406113585697754889599nat, modulus());
    lemma_mpow_next(7, 1285124059745115239747842590182087478220329289092428340689417825226nat, 14513470002673444605166536140606599409900468891414980974406113585697754889599nat, 0, 33461805866682696076645663189806821939662037202762033167713540900793613210316nat, modulus());
    lemma_mpow_next(7, 2570248119490230479495685180364174956440658578184856681378835650452nat, 33461805866682696076645663189806821939662037202762033167713540900793613210316nat, 0, 18434951831206172461200049001103839750782225310100117501597397986407621435247nat, modulus());
    lemma_mpow_next(7, 5140496238980460958991370360728349912881317156369713362757671300904nat, 18434951831206172461200049001103839750782225310100117501597397986407621435247nat, 0, 6384089300771234650869124262872465029809880820932698457559965791112270926906nat, modulus());
    lemma_mpow_next(7, 10280992477960921917982740721456699825762634312739426725515342601808nat, 6384089300771234650869124262872465029809880820932698457559965791112270926906nat, 0, 5580091407334870321263234625180693218971191246424721108770230613738882843167nat, modulus());
    lemma_mpow_next(7, 20561984955921843835965481442913399651525268625478853451030685203616nat, 5580091407334870321263234625180693218971191246424721108770230613738882843167nat, 0, 20770035376051407673506097580048150450734371734155153658561087867942005703453nat, modulus());
}

/// Squarings 225 to 240 of the power below.
#[verifier::spinoff_prover]
#[verifier::rlimit(50)]
proof fn lemma_pow_order_by_19_part14()
    requires
        mpow(7, 41123969911843687671930962885826799303050537250957706902061370407232nat, modulus()) == 20770035376051407673506097580048150450734371734155153658561087867942005703453nat,
    ensures
        mpow(7, 2695100492142587915267667583685545119124720009278764279533493971008356352nat, modulus()) == 15894375040559312620832810295338262312038655286381969319673127869205092941336nat,
{
    lemma_mpow_next(7, 41123969911843687671930962885826799303050537250957706902061370407232nat, 20770035376051407673506097580048150450734371734155153658561087867942005703453nat, 0, 29198646032589298079824304285358116068150593920815534670241312249831144251262nat, modulus());
    lemma_mpow_next(7, 82247939823687375343861925771653598606101074501915413804122740814464nat, 29198646032589298079824304285358116068150593920815534670241312249831144251262nat, 0, 12005034215746964105665445845327238738114966269913816351712934580473490459473nat, modulus());
    lemma_mpow_next(7, 164495879647374750687723851543307197212202149003830827608245481628928nat, 12005034215746964105665445845327238738114966269913816351712934580473490459473nat, 0, 21363092904321447778744325618201697700047666318914253211906565659302145959167nat, modulus());
    lemma_mpow_next(7, 328991759294749501375447703086614394424404298007661655216490963257856nat, 21363092904321447778744325618201697700047666318914253211906565659302145959167nat, 0, 28367911456090546489213574469640544136288520754159290682366562625676304272831nat, modulus());
    lemma_mpow_next(7, 657983518589499002750895406173228788848808596015323310432981926515712nat, 28367911456090546489213574469640544136288520754159290682366562625676304272831nat, 0, 10495824916325311077992673414725025367882656871586337922164735698128257673224nat, modulus());
    lemma_mpow_next(7, 1315967037178998005501790812346457577697617192030646620865963853031424nat, 10495824916325311077992673414725025367882656871586337922164735698128257673224nat, 0, 36588305008609582851403914751831769617146305842458784072186599279793198184875nat, modulus());
    lemma_mpow_next(7, 2631934074357996011003581624692915155395234384061293241731927706062848nat, 36588305008609582851403914751831769617146305842458784072186599279793198184875nat, 0, 14870102007779019928496644884958178131437327838726431991092088592259531843173nat, modulus());
    lemma_mpow_next(7, 5263868148715992022007163249385830310790468768122586483463855412125696nat, 14870102007779019928496644884958178131437327838726431991092088592259531843173nat, 0, 48044374784672068207074341412523093124311138692953167268387275839988986013563nat, modulus());
    lemma_mpow_next(7, 10527736297431984044014326498771660621580937536245172966927710824251392nat, 48044374784672068207074341412523093124311138692953167268387275839988986013563nat, 0, 8220110194663851744769155021128857136393743689013036827903377517509892760907nat, modulus());
    lemma_mpow_next(7, 21055472594863968088028652997543321243161875072490345933855421648502784nat, 8220110194663851744769155021128857136393743689013036827903377517509892760907nat, 0, 48493770763993261771425817176265414739319268528728845497053806108287918502336nat, modulus());
    lemma_mpow_next(7, 42110945189727936176057305995086642486323750144980691867710843297005568nat, 48493770763993261771425817176265414739319268528728845497053806108287918502336nat, 0, 48072748115987762075435545352463022987182737749695538334810149442745454470173nat, modulus());
    lemma_mpow_next(7, 84221890379455872352114611990173284972647500289961383735421686594011136nat, 48072748115987762075435545352463022987182737749695538334810149442745454470173nat, 0, 36850102724538088071899381388781178120308499901503417945980890300620831804196nat, modulus());
    lemma_mpow_next(7, 168443780758911744704229223980346569945295000579922767470843373188022272nat, 36850102724538088071899381388781178120308499901503417945980890300620831804196nat, 0, 33990981790565009121680992086410938749730402208207534345729439774633266155017nat, modulus());
    lemma_mpow_next(7, 336887561517823489408458447960693139890590001159845534941686746376044544nat, 33990981790565009121680992086410938749730402208207534345729439774633266155017nat, 0, 26632125769041126498928726402794370013917148254177010598066901980510255533171nat, modulus());
    lemma_mpow_next(7, 673775123035646978816916895921386279781180002319691069883373492752089088nat, 26632125769041126498928726402794370013917148254177010598066901980510255533171nat, 0, 19638873812218620864816840832641072300213387255619605012245166951478130635686nat, modulus());
    lemma_mpow_next(7, 1347550246071293957633833791842772559562360004639382139766746985504178176nat, 19638873812218620864816840832641072300213387255619605012245166951478130635686nat, 0, 15894375040559312620832810295338262312038655286381969319673127869205092941336nat, modulus());
}

/// Squarings 241 to 250 of the power below.
#[verifier::spinoff_prover]
#[verifier::rlimit(50)]
proof fn lemma_pow_order_by_19_part15()
    requires
        mpow(7, 2695100492142587915267667583685545119124720009278764279533493971008356352nat, modulus()) == 15894375040559312620832810295338262312038655286381969319673127869205092941336nat,
    ensures
        mpow(7, 2759782903954010025234091605693998201983713289501454622242297826312556904448nat, modulus()) == 33954097614611596975476204725091907054106918505758578373023360834096706151438nat,
{
    lemma_mpow_next(7, 2695100492142587915267667583685545119124720009278764279533493971008356352nat, 15894375040559312620832810295338262312038655286381969319673127869205092941336nat, 0, 41961165532887200716990447554840932582130759573038539008253901670517811659732nat, modulus());
    lemma_mpow_next(7, 5390200984285175830535335167371090238249440018557528559066987942016712704nat, 41961165532887200716990447554840932582130759573038539008253901670517811659732nat, 0, 11619249760557102374065851087160383310033168531862396892732852324370725730985nat, modulus());
    lemma_mpow_next(7, 10780401968570351661070670334742180476498880037115057118133975884033425408nat, 11619249760557102374065851087160383310033168531862396892732852324370725730985nat, 0, 35258937794695233968073856387624781387798832940179881388375423426525912158432nat, modulus());
    lemma_mpow_next(7, 21560803937140703322141340669484360952997760074230114236267951768066850816nat, 35258937794695233968073856387624781387798832940179881388375423426525912158432nat, 0, 19549558892661143694233860900726587467239102089235635926237058237589421144314nat, modulus());
    lemma_mpow_next(7, 43121607874281406644282681338968721905995520148460228472535903536133701632nat, 19549558892661143694233860900726587467239102089235635926237058237589421144314nat, 0, 8226062630416573255584191448443041273402636781609828850198757168394787562660nat, modulus());
    lemma_mpow_next(7, 86243215748562813288565362677937443811991040296920456945071807072267403264nat, 8226062630416573255584191448443041273402636781609828850198757168394787562660nat, 0, 27627977208065243354610748491386085528355469542846511872242381003412356430139nat, modulus());
    lemma_mpow_next(7, 172486431497125626577130725355874887623982080593840913890143614144534806528nat, 27627977208065243354610748491386085528355469542846511872242381003412356430139nat, 0, 39312046154427171115869896807489634766777018680485800814935002421353738437385nat, modulus());
    lemma_mpow_next(7, 344972862994251253154261450711749775247964161187681827780287228289069613056nat, 39312046154427171115869896807489634766777018680485800814935002421353738437385nat, 0, 36659397594087471896073202964958763902039004224291668440353428779562688077798nat, modulus());
    lemma_mpow_next(7, 689945725988502506308522901423499550495928322375363655560574456578139226112nat, 36659397594087471896073202964958763902039004224291668440353428779562688077798nat, 0, 24326639571649506998464223905864006639904230207045872206082847450392487521528nat, modulus());
    lemma_mpow_next(7, 1379891451977005012617045802846999100991856644750727311121148913156278452224nat, 24326639571649506998464223905864006639904230207045872206082847450392487521528nat, 0, 33954097614611596975476204725091907054106918505758578373023360834096706151438nat, modulus());
}

/// The generator to the power `(n - 1) / 19` modulo the field order `n`.
proof fn lemma_pow_order_by_19()
    ensures
        mpow(7, 2759782903954010025234091605693998201983713289501454622242297826312556904448nat, modulus()) == 33954097614611596975476204725091907054106918505758578373023360834096706151438nat,
{
    lemma_mpow_first(7, modulus());
    lemma_pow_order_by_19_part0();
    lemma_pow_order_by_19_part1();
    lemma_pow_order_by_19_part2();
    lemma_pow_order_by_19_part3();
    lemma_pow_order_by_19_part4();
    lemma_pow_order_by_19_part5();
    lemma_pow_order_by_19_part6();
    lemma_pow_order_by_19_part7();
    lemma_pow_order_by_19_part8();
    lemma_pow_order_by_19_part9();
    lemma_pow_order_by_19_part10();
    lemma_pow_order_by_19_part11();
    lemma_pow_order_by_19_part12();
    lemma_pow_order_by_19_part13();
    lemma_pow_order_by_19_part14();
    lemma_pow_order_by_19_part15();
}

/// Squarings 1 to 16 of the power below.
#[verifier::spinoff_prover]
#[verifier::rlimit(50)]
proof fn lemma_pow_order_by_10177_part0()
    requires
        mpow(7, 1, modulus()) == 7,
    ensures
        mpow(7, 95556, modulus()) == 22584865823848962128487413213188584415401056964184472798509513110859059187673nat,
{
    lemma_mpow_next(7, 1, 7, 0, 49, modulus());
    lemma_mpow_next(7, 2, 49, 1, 16807, modulus());
    lemma_mpow_next(7, 5, 16807, 1, 1977326743, modulus());
    lemma_mpow_next(7, 11, 1977326743, 1, 27368747340080916343nat, modulus());
    lemma_mpow_next(7, 23, 27368747340080916343nat, 0, 749048330965186233494494102694564493649nat, modulus());
    lemma_mpow_next(7, 46, 749048330965186233494494102694564493649nat, 1, 47259051892780119774530665140223632440422769347702549494925521841787321692445nat, modulus());
    lemma_mpow_next(7, 93, 47259051892780119774530665140223632440422769347702549494925521841787321692445nat, 0, 31531909956563063814209270941541252520827088151306297758813558940198242293234nat, modulus());
    lemma_mpow_next(7, 186, 31531909956563063814209270941541252520827088151306297758813558940198242293234nat, 1, 11299006837487388261755072340437768121334903873391101177331727335183016589613nat, modulus());
    lemma_mpow_next(7, 373, 11299006837487388261755072340437768121334903873391101177331727335183016589613nat, 0, 52350126211298202544761186838990608239350326899034153174525704269183734636661nat, modulus());
    lemma_mpow_next(7, 746, 52350126211298202544761186838990608239350326899034153174525704269183734636661nat, 1, 44167706337374434785541676217766203051442366596202578953118237946226931946608nat, modulus());
    lemma_mpow_next(7, 1493, 44167706337374434785541676217766203051442366596202578953118237946226931946608nat, 0, 11264346428878307030482792481118715820865279266609016824818017313104430616190nat, modulus());
    lemma_mpow_next(7, 2986, 11264346428878307030482792481118715820865279266609016824818017313104430616190nat, 0, 36584647174085897328326859561847328338986162310011062840737192577071886582430nat, modulus());
    lemma_mpow_next(7, 5972, 36584647174085897328326859561847328338986162310011062840737192577071886582430nat, 0, 2051119812275690599517821565037892086642974889974600848326914701288668854438nat, modulus());
    lemma_mpow_next(7, 11944, 2051119812275690599517821565037892086642974889974600848326914701288668854438nat, 1, 41829201513980023475818963880234825229569855812172848599868432148489244410622nat, modulus());
    lemma_mpow_next(7, 23889, 41829201513980023475818963880234825229569855812172848599868432148489244410622nat, 0, 29948760437589990609977302022641988702232046389515178340234220231454170561023nat, modulus());
    lemma_mpow_next(7, 47778, 29948760437589990609977302022641988702232046389515178340234220231454170561023nat, 0, 22584865823848962128487413213188584415401056964184472798509513110859059187673nat, modulus());
}

/// Squarings 17 to 32 of the power below.
#[verifier::spinoff_prover]
#[verifier::rlimit(50)]
proof fn lemma_pow_order_by_10177_part1()
    requires
        mpow(7, 95556, modulus()) == 22584865823848962128487413213188584415401056964184472798509513110859059187673nat,
    ensures
        mpow(7, 6262383398, modulus()) == 42653400139871042211541938003315162545249833811816126756823913465534711718084nat,
{
    lemma_mpow_next(7, 95556, 22584865823848962128487413213188584415401056964184472798509513110859059187673nat, 0, 18173234988211345064777017556119089832032860067044201756090184386051816406029nat, modulus());
    lemma_mpow_next(7, 191112, 18173234988211345064777017556119089832032860067044201756090184386051816406029nat, 1, 12245999926834493550997112723999262354581813193183647828501167773729603129826nat, modulus());
    lemma_mpow_next(7, 382225, 12245999926834493550997112723999262354581813193183647828501167773729603129826nat, 1, 40016042833588721692755040519766434012260937909796686480153138979578369992081nat, modulus());
    lemma_mpow_next(7, 764451, 40016042833588721692755040519766434012260937909796686480153138979578369992081nat, 0, 26628723902082090403649691966416289366825519913905800422434868339887249858370nat, modulus());
    lemma_mpow_next(7, 1528902, 26628723902082090403649691966416289366825519913905800422434868339887249858370nat, 0, 10722001847337796594217010573851436187489244811208405903590443343590835402791nat, modulus());
    lemma_mpow_next(7, 3057804, 10722001847337796594217010573851436187489244811208405903590443343590835402791nat, 0, 26646176230670664816527542247073113547512590491719464688153467255215982939139nat, modulus());
    lemma_mpow_next(7, 6115608, 26646176230670664816527542247073113547512590491719464688153467255215982939139nat, 1, 38289516911127727841062807596311611917017143276521270072422639228221217376736nat, modulus());
    lemma_mpow_next(7, 12231217, 38289516911127727841062807596311611917017143276521270072422639228221217376736nat, 1, 52133962954122414867886621505707160456923022462563319800001361871899209888507nat, modulus());
    lemma_mpow_next(7, 24462435, 52133962954122414867886621505707160456923022462563319800001361871899209888507nat, 0, 9255635783535708183894062536894352030541308341501023261417985009791856016872nat, modulus());
    lemma_mpow_next(7, 48924870, 9255635783535708183894062536894352030541308341501023261417985009791856016872nat, 0, 31365746773432524644900085281773201359616550365630499973648296382746668814380nat, modulus());
    lemma_mpow_next(7, 97849740, 31365746773432524644900085281773201359616550365630499973648296382746668814380nat, 1, 9829844849306108892904102324844963526397946463479240079500890811576172354791nat, modulus());
    lemma_mpow_next(7, 195699481, 9829844849306108892904102324844963526397946463479240079500890811576172354791nat, 0, 40953489719657080786892163190230544208858496368717973543642280990274508945513nat, modulus());
    lemma_mpow_next(7, 391398962, 40953489719657080786892163190230544208858496368717973543642280990274508945513nat, 0, 13812571888916208081730656400799604165123876758383202781504186166731461970257nat, modulus());
    lemma_mpow_next(7, 782797924, 13812571888916208081730656400799604165123876758383202781504186166731461970257nat, 1, 48758590505361866836184918684714282275697345089999226726858206478686713316774nat, modulus());
    lemma_mpow_next(7, 1565595849, 48758590505361866836184918684714282275697345089999226726858206478686713316774nat, 1, 24943329303477414295241483656404618781497004729760693743180617239413021485152nat, modulus());
    lemma_mpow_next(7, 3131191699, 24943329303477414295241483656404618781497004729760693743180617239413021485152nat, 0, 42653400139871042211541938003315162545249833811816126756823913465534711718084nat, modulus());
}

/// Squarings 33 to 48 of the power below.
#[verifier::spinoff_prover]
#[verifier::rlimit(50)]
proof fn lemma_pow_order_by_10177_part2()
    requires
        mpow(7, 6262383398, modulus()) == 42653400139871042211541938003315162545249833811816126756823913465534711718084nat,
    ensures
        mpow(7, 410411558389724, modulus()) == 39497582510606985037377701028046613891870326098523935669576032557795676518703nat,
{
    lemma_mpow_next(7, 6262383398, 42653400139871042211541938003315162545249833811816126756823913465534711718084nat, 0, 52140894190858417337219837289366226640902259481449209030665090353475741310623nat, modulus());
    lemma_mpow_next(7, 12524766796, 52140894190858417337219837289366226640902259481449209030665090353475741310623nat, 1, 29775126821628940865148301850196893090068734273814838956527497308786951101831nat, modulus());
    lemma_mpow_next(7, 25049533593, 29775126821628940865148301850196893090068734273814838956527497308786951101831nat, 0, 40831531030756373742269550829689746960117117204539817598402122389407558316315nat, modulus());
    lemma_mpow_next(7, 50099067186, 40831531030756373742269550829689746960117117204539817598402122389407558316315nat, 0, 37477749020707048009166596665109332532696283528292837528022877840948535507968nat, modulus());
    lemma_mpow_next(7, 100198134372, 37477749020707048009166596665109332532696283528292837528022877840948535507968nat, 0, 15640875045931165827845200678072744620611472345469555416013114722381837605715nat, modulus());
    lemma_mpow_next(7, 200396268744, 15640875045931165827845200678072744620611472345469555416013114722381837605715nat, 1, 3260148468397440930614558287791475173461590758190349651091000860165532604349nat, modulus());
    lemma_mpow_next(7, 400792537489, 3260148468397440930614558287791475173461590758190349651091000860165532604349nat, 1, 29992375619999021172968498322220038908088353117393092507132384318192267682936nat, modulus());
    lemma_mpow_next(7, 801585074979, 29992375619999021172968498322220038908088353117393092507132384318192267682936nat, 1, 2024288648219080471192791531642732937399033753660969279134901687167756114834nat, modulus());
    lemma_mpow_next(7, 1603170149959, 2024288648219080471192791531642732937399033753660969279134901687167756114834nat, 1, 37886375413197450695948889814108084845328561443420962805195007152907170042464nat, modulus());
    lemma_mpow_next(7, 3206340299919, 37886375413197450695948889814108084845328561443420962805195007152907170042464nat, 1, 785842066981824085776045856799435174243892447644788848364603707845279565150nat, modulus());
    lemma_mpow_next(7, 6412680599839, 785842066981824085776045856799435174243892447644788848364603707845279565150nat, 0, 10741439424920038952240519914524590723788856099676224613743256241487890417375nat, modulus());
    lemma_mpow_next(7, 12825361199678, 10741439424920038952240519914524590723788856099676224613743256241487890417375nat, 1, 38207279443196290257364146300555160394427104830367985197520156140936092320915nat, modulus());
    lemma_mpow_next(7, 25650722399357, 38207279443196290257364146300555160394427104830367985197520156140936092320915nat, 1, 10861987227003658079535990423848524126326155726066539145003683341896158206542nat, modulus());
    lemma_mpow_next(7, 51301444798715, 10861987227003658079535990423848524126326155726066539145003683341896158206542nat, 1, 39661656248001342441881976572638680011877091119097990352618622785565677065983nat, modulus());
    lemma_mpow_next(7, 102602889597431, 39661656248001342441881976572638680011877091119097990352618622785565677065983nat, 0, 28149890326996717740099783521817252335770953990390070062861601000818508691334nat, modulus());
    lemma_mpow_next(7, 205205779194862, 28149890326996717740099783521817252335770953990390070062861601000818508691334nat, 0, 39497582510606985037377701028046613891870326098523935669576032557795676518703nat, modulus());
}

/// Squarings 49 to 64 of the power below.
#[verifier::spinoff_prover]
#[verifier::rlimit(50)]
proof fn lemma_pow_order_by_10177_part3()
    requires
        mpow(7, 410411558389724, modulus()) == 39497582510606985037377701028046613891870326098523935669576032557795676518703nat,
    ensures
        mpow(7, 26896731890628974783nat, modulus()) == 30394119025579890126065322911618962765623601557907649020642412637820151920048nat,
{
    lemma_mpow_next(7, 410411558389724, 39497582510606985037377701028046613891870326098523935669576032557795676518703nat, 0, 35410934614763701076585026477316232876840172183566923641116821799664607112299nat, modulus());
    lemma_mpow_next(7, 820823116779448, 35410934614763701076585026477316232876840172183566923641116821799664607112299nat, 1, 28671577318675006888099931730363737011120689513098472398719744453257512062887nat, modulus());
    lemma_mpow_next(7, 1641646233558897, 28671577318675006888099931730363737011120689513098472398719744453257512062887nat, 0, 25656233003119036088616571108615727469994777154962096557444228467171886576057nat, modulus());
    lemma_mpow_next(7, 3283292467117794, 25656233003119036088616571108615727469994777154962096557444228467171886576057nat, 1, 28966645100854421340577744145500428322719913597214814071492104378639426230651nat, modulus());
    lemma_mpow_next(7, 6566584934235589, 28966645100854421340577744145500428322719913597214814071492104378639426230651nat, 1, 9138534769690173798218781600026243519314992273820719424026123487438535240599nat, modulus());
    lemma_mpow_next(7, 13133169868471179, 9138534769690173798218781600026243519314992273820719424026123487438535240599nat, 0, 35929816662438039763850653866903291043677261962404279801674777583549921805703nat, modulus());
    lemma_mpow_next(7, 26266339736942358, 35929816662438039763850653866903291043677261962404279801674777583549921805703nat, 0, 16252715421484154446215864344794139324098986404340030090576337994923046531018nat, modulus());
    lemma_mpow_next(7, 52532679473884716, 16252715421484154446215864344794139324098986404340030090576337994923046531018nat, 0, 19744621107924234516395235952844801745980886901833249729285116975363862121813nat, modulus());
    lemma_mpow_next(7, 105065358947769432, 19744621107924234516395235952844801745980886901833249729285116975363862121813nat, 1, 6190058499989153536229749837079904576485281941457416129751687764855208165606nat, modulus());
    lemma_mpow_next(7, 210130717895538865, 6190058499989153536229749837079904576485281941457416129751687764855208165606nat, 0, 28922763051660434126952091476504162865513132053068876886202552155096648928307nat, modulus());
    lemma_mpow_next(7, 420261435791077730, 28922763051660434126952091476504162865513132053068876886202552155096648928307nat, 1, 24789961397424314684962086315403125362971959638852407498646042088100683884742nat, modulus());
    lemma_mpow_next(7, 840522871582155461, 24789961397424314684962086315403125362971959638852407498646042088100683884742nat, 1, 12797127981360054304073362148341261451588082492820839826088870817600570127163nat, modulus());
    lemma_mpow_next(7, 1681045743164310923nat, 12797127981360054304073362148341261451588082492820839826088870817600570127163nat, 1, 25681582171997652067283483421317191205759728555903392899616953874769035821219nat, modulus());
    lemma_mpow_next(7, 3362091486328621847nat, 25681582171997652067283483421317191205759728555903392899616953874769035821219nat, 1, 47239983871104871761069424931722390653768345818403553881721658727243555679922nat, modulus());
    lemma_mpow_next(7, 6724182972657243695nat, 47239983871104871761069424931722390653768345818403553881721658727243555679922nat, 1, 37892125327100694150182000279118296273974687642149541746557844590404555508579nat, modulus());
    lemma_mpow_next(7, 13448365945314487391nat, 37892125327100694150182000279118296273974687642149541746557844590404555508579nat, 1, 30394119025579890126065322911618962765623601557907649020642412637820151920048nat, modulus());
}

/// Squarings 65 to 80 of the power below.
#[verifier::spinoff_prover]
#[verifier::rlimit(50)]
proof fn lemma_pow_order_by_10177_part4()
    requires
        mpow(7, 26896731890628974783nat, modulus()) == 30394119025579890126065322911618962765623601557907649020642412637820151920048nat,
    ensures
        mpow(7, 1762704221184260491419269nat, modulus()) == 35800192168222267484291642937615094223419497468970880609594431561467091516392nat,
{
    lemma_mpow_next(7, 26896731890628974783nat, 30394119025579890126065322911618962765623601557907649020642412637820151920048nat, 1, 26473711910873393651367954479370546869767085865178423703944470684519445123779nat, modulus());
    lemma_mpow_next(7, 53793463781257949567nat, 26473711910873393651367954479370546869767085865178423703944470684519445123779nat, 0, 9074039462520975995679810913289810729587182120441976270232098140105803095240nat, modulus());
    lemma_mpow_next(7, 107586927562515899134nat, 9074039462520975995679810913289810729587182120441976270232098140105803095240nat, 0, 45165023430725853612610431789025864976157745133641617675204061729757016168480nat, modulus());
    lemma_mpow_next(7, 215173855125031798268nat, 45165023430725853612610431789025864976157745133641617675204061729757016168480nat, 1, 13797926260023621369554193692642765103045292255763599584433863790281066707011nat, modulus());
    lemma_mpow_next(7, 430347710250063596537nat, 13797926260023621369554193692642765103045292255763599584433863790281066707011nat, 1, 20017629365289829166616900933106878975458599337684893101638026778088220518534nat, modulus());
    lemma_mpow_next(7, 860695420500127193075nat, 20017629365289829166616900933106878975458599337684893101638026778088220518534nat, 1, 33411925493549359885661446348782023482412176452949108673848598008262718524995nat, modulus());
    lemma_mpow_next(7, 1721390841000254386151nat, 33411925493549359885661446348782023482412176452949108673848598008262718524995nat, 1, 6467457424874423330518747833074167301015393081272910569200848296201044269669nat, modulus());
    lemma_mpow_next(7, 3442781682000508772303nat, 6467457424874423330518747833074167301015393081272910569200848296201044269669nat, 0, 26699480637454833299396914356575021036195817953597934445152833082520607510581nat, modulus());
    lemma_mpow_next(7, 6885563364001017544606nat, 26699480637454833299396914356575021036195817953597934445152833082520607510581nat, 1, 46498833834317905022127146814845860587229894759740804057421985731079696048972nat, modulus());
    lemma_mpow_next(7, 13771126728002035089213nat, 46498833834317905022127146814845860587229894759740804057421985731079696048972nat, 0, 12201450958990915573314895007348420392802825037582646327869584247088799653324nat, modulus());
    lemma_mpow_next(7, 27542253456004070178426nat, 12201450958990915573314895007348420392802825037582646327869584247088799653324nat, 0, 26263213743493403205580174837698759391366554763690498416034317674708787575349nat, modulus());
    lemma_mpow_next(7, 55084506912008140356852nat, 26263213743493403205580174837698759391366554763690498416034317674708787575349nat, 0, 39230298950276473184698131590588396930782119164085356453714683725545590173710nat, modulus());
    lemma_mpow_next(7, 110169013824016280713704nat, 39230298950276473184698131590588396930782119164085356453714683725545590173710nat, 0, 16864095154148021433517187431773708605160454442750794388838875005468416773432nat, modulus());
    lemma_mpow_next(7, 220338027648032561427408nat, 16864095154148021433517187431773708605160454442750794388838875005468416773432nat, 1, 38820249627566874504365676046969819881298940494271877754583208969569280684839nat, modulus());
    lemma_mpow_next(7, 440676055296065122854817nat, 38820249627566874504365676046969819881298940494271877754583208969569280684839nat, 0, 16381918128246266347875851481885317885652697773661373276964338536374351829908nat, modulus());
    lemma_mpow_next(7, 881352110592130245709634nat, 16381918128246266347875851481885317885652697773661373276964338536374351829908nat, 1, 35800192168222267484291642937615094223419497468970880609594431561467091516392nat, modulus());
}

/// Squarings 81 to 96 of the power below.
#[verifier::spinoff_prover]
#[verifier::rlimit(50)]
proof fn lemma_pow_order_by_10177_part5()
    requires
        mpow(7, 1762704221184260491419269nat, modulus()) == 35800192168222267484291642937615094223419497468970880609594431561467091516392nat,
    ensures
        mpow(7, 115520583839531695565653277058nat, modulus()) == 19811874970669826605102875697454007501248129564389320247564242628054902958847nat,
{
    lemma_mpow_next(7, 1762704221184260491419269nat, 35800192168222267484291642937615094223419497468970880609594431561467091516392nat, 1, 3085310854376745686420187181201479140366735703657327560661171809502298520782nat, modulus());
    lemma_mpow_next(7, 3525408442368520982838539nat, 3085310854376745686420187181201479140366735703657327560661171809502298520782nat, 1, 7506129224316395809051793668719903735530655298137370628413146997923589095334nat, modulus());
    lemma_mpow_next(7, 7050816884737041965677079nat, 7506129224316395809051793668719903735530655298137370628413146997923589095334nat, 1, 48550658923844113690694898162401979218738409704725173889007800093591306525430nat, modulus());
    lemma_mpow_next(7, 14101633769474083931354159nat, 48550658923844113690694898162401979218738409704725173889007800093591306525430nat, 1, 16450562736383728572643845109196095762176984345175199600012582373987530306868nat, modulus());
    lemma_mpow_next(7, 28203267538948167862708319nat, 16450562736383728572643845109196095762176984345175199600012582373987530306868nat, 1, 27137076160027003168119443747580143452960553081563750824648736219288932225569nat, modulus());
    lemma_mpow_next(7, 56406535077896335725416639nat, 27137076160027003168119443747580143452960553081563750824648736219288932225569nat, 0, 17960203654472817682671038439132216298254432843588791419327621432331322346538nat, modulus());
    lemma_mpow_next(7, 112813070155792671450833278nat, 17960203654472817682671038439132216298254432843588791419327621432331322346538nat, 0, 25158062374412534560503469656025552027939305585063904282198087382115638845854nat, modulus());
    lemma_mpow_next(7, 225626140311585342901666556nat, 25158062374412534560503469656025552027939305585063904282198087382115638845854nat, 1, 49547826836792487953805547861965139775253075046253483358281004643995255986860nat, modulus());
    lemma_mpow_next(7, 451252280623170685803333113nat, 49547826836792487953805547861965139775253075046253483358281004643995255986860nat, 1, 15573585484111138437097073316991934158361727121591007889622806994765095165644nat, modulus());
    lemma_mpow_next(7, 902504561246341371606666227nat, 15573585484111138437097073316991934158361727121591007889622806994765095165644nat, 0, 12074470823001393922111294982109671339943856160055401152913701886278724463654nat, modulus());
    lemma_mpow_next(7, 1805009122492682743213332454nat, 12074470823001393922111294982109671339943856160055401152913701886278724463654nat, 0, 48537598492153536253524527256878076778603624928335699123851638483256238859806nat, modulus());
    lemma_mpow_next(7, 3610018244985365486426664908nat, 48537598492153536253524527256878076778603624928335699123851638483256238859806nat, 0, 21260389549004230978132104114414160076194752182104376146984828646505152845207nat, modulus());
    lemma_mpow_next(7, 7220036489970730972853329816nat, 21260389549004230978132104114414160076194752182104376146984828646505152845207nat, 0, 9837952080265864470105437310769313380477944830792943264858783645249015131249nat, modulus());
    lemma_mpow_next(7, 14440072979941461945706659632nat, 9837952080265864470105437310769313380477944830792943264858783645249015131249nat, 0, 14059510451070988592589096778649692388471931866582863439430968280058479921159nat, modulus());
    lemma_mpow_next(7, 28880145959882923891413319264nat, 14059510451070988592589096778649692388471931866582863439430968280058479921159nat, 1, 25394813617061303081386794299109619840740962896289096629522904332604924204954nat, modulus());
    lemma_mpow_next(7, 57760291919765847782826638529nat, 25394813617061303081386794299109619840740962896289096629522904332604924204954nat, 0, 19811874970669826605102875697454007501248129564389320247564242628054902958847nat, modulus());
}

/// Squarings 97 to 112 of the power below.
#[verifier::spinoff_prover]
#[verifier::rlimit(50)]
proof fn lemma_pow_order_by_10177_part6()
    requires
        mpow(7, 115520583839531695565653277058nat, modulus()) == 19811874970669826605102875697454007501248129564389320247564242628054902958847nat,
    ensures
        mpow(7, 7570756982507549200590653165318931nat, modulus()) == 36845787721882966833098520587684139369310001630274714093124714603701298831652nat,
{
    lemma_mpow_next(7, 115520583839531695565653277058nat, 19811874970669826605102875697454007501248129564389320247564242628054902958847nat, 1, 49976752580380438662027216020889564207024843136427191750626639601588276821275nat, modulus());
    lemma_mpow_next(7, 231041167679063391131306554117nat, 49976752580380438662027216020889564207024843136427191750626639601588276821275nat, 0, 4013803030557607100318414171355754220856599240706198537991785520745816301133nat, modulus());
    lemma_mpow_next(7, 462082335358126782262613108234nat, 4013803030557607100318414171355754220856599240706198537991785520745816301133nat, 1, 39478750470613224251260276829729222921793159429176099425401389020314858285070nat, modulus());
    lemma_mpow_next(7, 924164670716253564525226216469nat, 39478750470613224251260276829729222921793159429176099425401389020314858285070nat, 1, 43385331997819393830922945478254089969942196451223148991604073683098158137068nat, modulus());
    lemma_mpow_next(7, 1848329341432507129050452432939nat, 43385331997819393830922945478254089969942196451223148991604073683098158137068nat, 0, 17688102169296133968912749974542941218059978280347955104540763624210319657948nat, modulus());
    lemma_mpow_next(7, 3696658682865014258100904865878nat, 17688102169296133968912749974542941218059978280347955104540763624210319657948nat, 0, 20313373266366483286164055920194003858501489232097374815122377872685351230046nat, modulus());
    lemma_mpow_next(7, 7393317365730028516201809731756nat, 20313373266366483286164055920194003858501489232097374815122377872685351230046nat, 1, 19143159647496296523665611474911886220219341612040610889396646060109905942507nat, modulus());
    lemma_mpow_next(7, 14786634731460057032403619463513nat, 19143159647496296523665611474911886220219341612040610889396646060109905942507nat, 1, 50493556304287476196145642710357836672630781162390995880191750838778749944483nat, modulus());
    lemma_mpow_next(7, 29573269462920114064807238927027nat, 50493556304287476196145642710357836672630781162390995880191750838778749944483nat, 0, 2053945847272584741839699777838714176487711098084217149895142260449842462102nat, modulus());
    lemma_mpow_next(7, 59146538925840228129614477854054nat, 2053945847272584741839699777838714176487711098084217149895142260449842462102nat, 0, 22503904149765481277022461234564937990505375382912588857754677691598946532278nat, modulus());
    lemma_mpow_next(7, 118293077851680456259228955708108nat, 22503904149765481277022461234564937990505375382912588857754677691598946532278nat, 0, 1801491082071617675239760639220175006010185898620394634006320777531256511114nat, modulus());
    lemma_mpow_next(7, 236586155703360912518457911416216nat, 1801491082071617675239760639220175006010185898620394634006320777531256511114nat, 1, 33364789705729005916295343132947049398392820251024238936908724887161418709396nat, modulus());
    lemma_mpow_next(7, 473172311406721825036915822832433nat, 33364789705729005916295343132947049398392820251024238936908724887161418709396nat, 0, 12893195326143903475341150883202127833262192112364900197886339839008668436185nat, modulus());
    lemma_mpow_next(7, 946344622813443650073831645664866nat, 12893195326143903475341150883202127833262192112364900197886339839008668436185nat, 0, 7369632478425612920035586554378106714629544608666443636759939922822310013454nat, modulus());
    lemma_mpow_next(7, 1892689245626887300147663291329732nat, 7369632478425612920035586554378106714629544608666443636759939922822310013454nat, 1, 42500638228432881857312438204217310877624294719883786519255464985656875413582nat, modulus());
    lemma_mpow_next(7, 3785378491253774600295326582659465nat, 42500638228432881857312438204217310877624294719883786519255464985656875413582nat, 1, 36845787721882966833098520587684139369310001630274714093124714603701298831652nat, modulus());
}

/// Squarings 113 to 128 of the power below.
#[verifier::spinoff_prover]
#[verifier::rlimit(50)]
proof fn lemma_pow_order_by_10177_part7()
    requires
        mpow(7, 7570756982507549200590653165318931nat, modulus()) == 36845787721882966833098520587684139369310001630274714093124714603701298831652nat,
    ensures
        mpow(7, 496157129605614744409909045842341471389nat, modulus()) == 15455851351090068390991981706909173735180125338376539261593061006948318400960nat,
{
    lemma_mpow_next(7, 7570756982507549200590653165318931nat, 36845787721882966833098520587684139369310001630274714093124714603701298831652nat, 0, 21480886782798059219376608582991660980887332863873657780781464306105149125374nat, modulus());
    lemma_mpow_next(7, 15141513965015098401181306330637862nat, 21480886782798059219376608582991660980887332863873657780781464306105149125374nat, 0, 4317896735485387158069231068748968523700903487181442507748417270565778369293nat, modulus());
    lemma_mpow_next(7, 30283027930030196802362612661275724nat, 4317896735485387158069231068748968523700903487181442507748417270565778369293nat, 1, 15817105622406116709276874030538454541512710357337938425924102268771901520398nat, modulus());
    lemma_mpow_next(7, 60566055860060393604725225322551449nat, 15817105622406116709276874030538454541512710357337938425924102268771901520398nat, 0, 30388302565439866781886385641377318585520446117929753799028967630904667168624nat, modulus());
    lemma_mpow_next(7, 121132111720120787209450450645102898nat, 30388302565439866781886385641377318585520446117929753799028967630904667168624nat, 0, 51912190477518345675311859227609963237775506266531823547817249988004651743976nat, modulus());
    lemma_mpow_next(7, 242264223440241574418900901290205796nat, 51912190477518345675311859227609963237775506266531823547817249988004651743976nat, 1, 14675003292663014992550067608044911906306038314112021126471702415429050521892nat, modulus());
    lemma_mpow_next(7, 484528446880483148837801802580411593nat, 14675003292663014992550067608044911906306038314112021126471702415429050521892nat, 0, 41277632148922745458550762645695530336420033547008421181795776734028901773090nat, modulus());
    lemma_mpow_next(7, 969056893760966297675603605160823186nat, 41277632148922745458550762645695530336420033547008421181795776734028901773090nat, 0, 47684060518303817590204008399186038849843126892626114943395660151998538480680nat, modulus());
    lemma_mpow_next(7, 1938113787521932595351207210321646372nat, 47684060518303817590204008399186038849843126892626114943395660151998538480680nat, 1, 32619009447100607448974215329824229103021424510142107488441647683823185281722nat, modulus());
    lemma_mpow_next(7, 3876227575043865190702414420643292745nat, 32619009447100607448974215329824229103021424510142107488441647683823185281722nat, 0, 33443985530883254928423970749143657035635121601403135727459384491571179105387nat, modulus());
    lemma_mpow_next(7, 7752455150087730381404828841286585490nat, 33443985530883254928423970749143657035635121601403135727459384491571179105387nat, 0, 43331945650123066096890099829859156421271494744519486561632298553234946682275nat, modulus());
    lemma_mpow_next(7, 15504910300175460762809657682573170980nat, 43331945650123066096890099829859156421271494744519486561632298553234946682275nat, 1, 50827938353963159705792047596485315029751789514881421689844864671214888553128nat, modulus());
    lemma_mpow_next(7, 31009820600350921525619315365146341961nat, 50827938353963159705792047596485315029751789514881421689844864671214888553128nat, 1, 29247310910075358252715449553223765421952251946363555948197098577026723683338nat, modulus());
    lemma_mpow_next(7, 62019641200701843051238630730292683923nat, 29247310910075358252715449553223765421952251946363555948197098577026723683338nat, 1, 39031517882476945533577150403654713079766099319409327891889189748952220012188nat, modulus());
    lemma_mpow_next(7, 124039282401403686102477261460585367847nat, 39031517882476945533577150403654713079766099319409327891889189748952220012188nat, 0, 40254901064548515726618582835136202526007809986530790078055310624371711291243nat, modulus());
    lemma_mpow_next(7, 248078564802807372204954522921170735694nat, 40254901064548515726618582835136202526007809986530790078055310624371711291243nat, 1, 15455851351090068390991981706909173735180125338376539261593061006948318400960nat, modulus());
}

/// Squarings 129 to 144 of the power below.
#[verifier::spinoff_prover]
#[verifier::rlimit(50)]
proof fn lemma_pow_order_by_10177_part8()
    requires
        mpow(7, 496157129605614744409909045842341471389nat, modulus()) == 15455851351090068390991981706909173735180125338376539261593061006948318400960nat,
    ensures
        mpow(7, 32516153645833567889647799228323690669009687nat, modulus()) == 48358510541003174875867850850034543745976407306706270177146612266108547572533nat,
{
    lemma_mpow_next(7, 496157129605614744409909045842341471389nat, 15455851351090068390991981706909173735180125338376539261593061006948318400960nat, 1, 27015264570138875588502983690234221589093197315143965026648211075130889028015nat, modulus());
    lemma_mpow_next(7, 992314259211229488819818091684682942779nat, 27015264570138875588502983690234221589093197315143965026648211075130889028015nat, 1, 22054874156462034812775892264122699479830855391628065199256950278839030822290nat, modulus());
    lemma_mpow_next(7, 1984628518422458977639636183369365885559nat, 22054874156462034812775892264122699479830855391628065199256950278839030822290nat, 1, 43575710662794829605614821020904951635669440528570239918219778526098277238411nat, modulus());
    lemma_mpow_next(7, 3969257036844917955279272366738731771119nat, 43575710662794829605614821020904951635669440528570239918219778526098277238411nat, 0, 18470218090119018305692699815322431054594096795391440183598470246569034827576nat, modulus());
    lemma_mpow_next(7, 7938514073689835910558544733477463542238nat, 18470218090119018305692699815322431054594096795391440183598470246569034827576nat, 1, 52381897611903894329123341259643611261434422755293573853783004482790306596615nat, modulus());
    lemma_mpow_next(7, 15877028147379671821117089466954927084477nat, 52381897611903894329123341259643611261434422755293573853783004482790306596615nat, 0, 49004659509891032202751500229676310798925596453065666467032029349125585334562nat, modulus());
    lemma_mpow_next(7, 31754056294759343642234178933909854168954nat, 49004659509891032202751500229676310798925596453065666467032029349125585334562nat, 1, 16997830541745252926162282752014604811450420949724145088615621656438553485440nat, modulus());
    lemma_mpow_next(7, 63508112589518687284468357867819708337909nat, 16997830541745252926162282752014604811450420949724145088615621656438553485440nat, 1, 41137388792521740105607774080621610792865376565275343808228664991183260990908nat, modulus());
    lemma_mpow_next(7, 127016225179037374568936715735639416675819nat, 41137388792521740105607774080621610792865376565275343808228664991183260990908nat, 0, 49095664870713909259435823868283215235967318161101321158190789718883651441579nat, modulus());
    lemma_mpow_next(7, 254032450358074749137873431471278833351638nat, 49095664870713909259435823868283215235967318161101321158190789718883651441579nat, 0, 10547970544930057932127893400772586191849734124452245338486723360202791683638nat, modulus());
    lemma_mpow_next(7, 508064900716149498275746862942557666703276nat, 10547970544930057932127893400772586191849734124452245338486723360202791683638nat, 0, 17883772325507903219786200946380891058087175228466601569291032081692867457609nat, modulus());
    lemma_mpow_next(7, 1016129801432298996551493725885115333406552nat, 17883772325507903219786200946380891058087175228466601569291032081692867457609nat, 1, 2166106761760040476790755621050022779853437718295924292733647294505853000663nat, modulus());
    lemma_mpow_next(7, 2032259602864597993102987451770230666813105nat, 2166106761760040476790755621050022779853437718295924292733647294505853000663nat, 0, 10470433200238023179106533246316555385257179111548133692158610737995218141067nat, modulus());
    lemma_mpow_next(7, 4064519205729195986205974903540461333626210nat, 10470433200238023179106533246316555385257179111548133692158610737995218141067nat, 1, 32402161601836038442082362165332002249749403638159464292394422214907969748175nat, modulus());
    lemma_mpow_next(7, 8129038411458391972411949807080922667252421nat, 32402161601836038442082362165332002249749403638159464292394422214907969748175nat, 1, 4164446990400084423311178090473156048981168387149636944531337143504025578912nat, modulus());
    lemma_mpow_next(7, 16258076822916783944823899614161845334504843nat, 4164446990400084423311178090473156048981168387149636944531337143504025578912nat, 1, 48358510541003174875867850850034543745976407306706270177146612266108547572533nat, modulus());
}

/// Squarings 145 to 160 of the power below.
#[verifier::spinoff_prover]
#[verifier::rlimit(50)]
proof fn lemma_pow_order_by_10177_part9()
    requires
        mpow(7, 32516153645833567889647799228323690669009687nat, modulus()) == 48358510541003174875867850850034543745976407306706270177146612266108547572533nat,
    ensures
        mpow(7, 2130978645333348705215958170227421391684218881300nat, modulus()) == 35290052380308534665008749798151987616604095427445585956411424705594936678963nat,
{
    lemma_mpow_next(7, 32516153645833567889647799228323690669009687nat, 48358510541003174875867850850034543745976407306706270177146612266108547572533nat, 1, 12437330010012047872092480647825678920377302201652400531558013904760802533228nat, modulus());
    lemma_mpow_next(7, 65032307291667135779295598456647381338019375nat, 12437330010012047872092480647825678920377302201652400531558013904760802533228nat, 0, 29749574687583860725165454262150131900832045514804715372840321798176509838466nat, modulus());
    lemma_mpow_next(7, 130064614583334271558591196913294762676038750nat, 29749574687583860725165454262150131900832045514804715372840321798176509838466nat, 0, 39011269526769262266427291796133795110707760712245020213630204010787215462663nat, modulus());
    lemma_mpow_next(7, 260129229166668543117182393826589525352077500nat, 39011269526769262266427291796133795110707760712245020213630204010787215462663nat, 0, 216104103213145772495413294614078869112841964585379759887533373198924244375nat, modulus());
    lemma_mpow_next(7, 520258458333337086234364787653179050704155000nat, 216104103213145772495413294614078869112841964585379759887533373198924244375nat, 0, 12075256673287694498209929620852973491630761212062998027963316524294005928436nat, modulus());
    lemma_mpow_next(7, 1040516916666674172468729575306358101408310000nat, 12075256673287694498209929620852973491630761212062998027963316524294005928436nat, 1, 33123619635980038871438558220791014832363006050226217319227799696377199952296nat, modulus());
    lemma_mpow_next(7, 2081033833333348344937459150612716202816620001nat, 33123619635980038871438558220791014832363006050226217319227799696377199952296nat, 0, 48346685026372947420522881629470057591201537198632358163685934974794176339380nat, modulus());
    lemma_mpow_next(7, 4162067666666696689874918301225432405633240002nat, 48346685026372947420522881629470057591201537198632358163685934974794176339380nat, 1, 47010086313063096686464055258346417905652926833003688745571088805139183285130nat, modulus());
    lemma_mpow_next(7, 8324135333333393379749836602450864811266480005nat, 47010086313063096686464055258346417905652926833003688745571088805139183285130nat, 0, 18450610242931397115982471644802194814846703770383805937171943044781908022973nat, modulus());
    lemma_mpow_next(7, 16648270666666786759499673204901729622532960010nat, 18450610242931397115982471644802194814846703770383805937171943044781908022973nat, 0, 52026118416990778834160521700432073937918311998947601529739564455029888654931nat, modulus());
    lemma_mpow_next(7, 33296541333333573518999346409803459245065920020nat, 52026118416990778834160521700432073937918311998947601529739564455029888654931nat, 0, 22892769956798998685619984656980010417159023320124886975747329560311371839409nat, modulus());
    lemma_mpow_next(7, 66593082666667147037998692819606918490131840040nat, 22892769956798998685619984656980010417159023320124886975747329560311371839409nat, 1, 18116914888668606286465140529730580825291240060142089847589720661903168750640nat, modulus());
    lemma_mpow_next(7, 133186165333334294075997385639213836980263680081nat, 18116914888668606286465140529730580825291240060142089847589720661903168750640nat, 0, 42218367110427771545480116271356896876575722402604418380965292268330860678014nat, modulus());
    lemma_mpow_next(7, 266372330666668588151994771278427673960527360162nat, 42218367110427771545480116271356896876575722402604418380965292268330860678014nat, 1, 23106603877244169750580695178425231560374649590484461945637719159502348815220nat, modulus());
    lemma_mpow_next(7, 532744661333337176303989542556855347921054720325nat, 23106603877244169750580695178425231560374649590484461945637719159502348815220nat, 0, 46092001070154527353253370920310321910481761758137577243657043205300393827673nat, modulus());
    lemma_mpow_next(7, 1065489322666674352607979085113710695842109440650nat, 46092001070154527353253370920310321910481761758137577243657043205300393827673nat, 0, 35290052380308534665008749798151987616604095427445585956411424705594936678963nat, modulus());
}

/// Squarings 161 to 176 of the power below.
#[verifier::spinoff_prover]
#[verifier::rlimit(50)]
proof fn lemma_pow_order_by_10177_part10()
    requires
        mpow(7, 2130978645333348705215958170227421391684218881300nat, modulus()) == 35290052380308534665008749798151987616604095427445585956411424705594936678963nat,
    ensures
        mpow(7, 139655816500566340745033034644024288325416968604929419nat, modulus()) == 45975601082479168550559734332388562723883069831071903659526291102177026510360nat,
{
    lemma_mpow_next(7, 2130978645333348705215958170227421391684218881300nat, 35290052380308534665008749798151987616604095427445585956411424705594936678963nat, 1, 3320909956469390448518674188710238978085099359923257254062475600110971699475nat, modulus());
    lemma_mpow_next(7, 4261957290666697410431916340454842783368437762601nat, 3320909956469390448518674188710238978085099359923257254062475600110971699475nat, 1, 13798139138267084087948190742491552147704017108420826810476630259874692890748nat, modulus());
    lemma_mpow_next(7, 8523914581333394820863832680909685566736875525203nat, 13798139138267084087948190742491552147704017108420826810476630259874692890748nat, 0, 16601781735589883125308499426416615062759715382181809191060542367202383526164nat, modulus());
    lemma_mpow_next(7, 17047829162666789641727665361819371133473751050406nat, 16601781735589883125308499426416615062759715382181809191060542367202383526164nat, 0, 12080957384540253931432204388823515594414245880802018466146468099175747323316nat, modulus());
    lemma_mpow_next(7, 34095658325333579283455330723638742266947502100812nat, 12080957384540253931432204388823515594414245880802018466146468099175747323316nat, 1, 27864215564974666164373444103264642540945602389632986760813893179552414936281nat, modulus());
    lemma_mpow_next(7, 68191316650667158566910661447277484533895004201625nat, 27864215564974666164373444103264642540945602389632986760813893179552414936281nat, 1, 20497882927948652338659289818544062414260732780782900497735485176651088637771nat, modulus());
    lemma_mpow_next(7, 136382633301334317133821322894554969067790008403251nat, 20497882927948652338659289818544062414260732780782900497735485176651088637771nat, 0, 37264143670826687655041171480020319709344583083732732926885955121916858732459nat, modulus());
    lemma_mpow_next(7, 272765266602668634267642645789109938135580016806502nat, 37264143670826687655041171480020319709344583083732732926885955121916858732459nat, 1, 46488853080948104331878537927115740688283794256979478846342621738540530435394nat, modulus());
    lemma_mpow_next(7, 545530533205337268535285291578219876271160033613005nat, 46488853080948104331878537927115740688283794256979478846342621738540530435394nat, 1, 39534198838254728048264074343383103892244819479444310544022745942846492399057nat, modulus());
    lemma_mpow_next(7, 1091061066410674537070570583156439752542320067226011nat, 39534198838254728048264074343383103892244819479444310544022745942846492399057nat, 0, 15978078250692447098820825752855519399183081326726380379330343888733975788070nat, modulus());
    lemma_mpow_next(7, 2182122132821349074141141166312879505084640134452022nat, 15978078250692447098820825752855519399183081326726380379330343888733975788070nat, 0, 38034163002827507992697846079139203490645768176328048063909428237102825649807nat, modulus());
    lemma_mpow_next(7, 4364244265642698148282282332625759010169280268904044nat, 38034163002827507992697846079139203490645768176328048063909428237102825649807nat, 0, 51899822491584534605848889418052824962797571175311089660414537633154487900714nat, modulus());
    lemma_mpow_next(7, 8728488531285396296564564665251518020338560537808088nat, 51899822491584534605848889418052824962797571175311089660414537633154487900714nat, 1, 37738771534676826965888197997548415605663684440466507808506090524931722185592nat, modulus());
    lemma_mpow_next(7, 17456977062570792593129129330503036040677121075616177nat, 37738771534676826965888197997548415605663684440466507808506090524931722185592nat, 0, 22947982566589954395678476282900540240567562748553761578702346700204963491063nat, modulus());
    lemma_mpow_next(7, 34913954125141585186258258661006072081354242151232354nat, 22947982566589954395678476282900540240567562748553761578702346700204963491063nat, 1, 1994546231870914597573982156202023675022668219485649378715620446592299867493nat, modulus());
    lemma_mpow_next(7, 69827908250283170372516517322012144162708484302464709nat, 1994546231870914597573982156202023675022668219485649378715620446592299867493nat, 1, 45975601082479168550559734332388562723883069831071903659526291102177026510360nat, modulus());
}

/// Squarings 177 to 192 of the power below.
#[verifier::spinoff_prover]
#[verifier::rlimit(50)]
proof fn lemma_pow_order_by_10177_part11()
    requires
        mpow(7, 139655816500566340745033034644024288325416968604929419nat, modulus()) == 45975601082479168550559734332388562723883069831071903659526291102177026510360nat,
    ensures
        mpow(7, 9152483590181115707066484958430775759694526454492654422056nat, modulus()) == 18725984776076769066844223423924801897651686817264157335490832239755273732822nat,
{
    lemma_mpow_next(7, 139655816500566340745033034644024288325416968604929419nat, 45975601082479168550559734332388562723883069831071903659526291102177026510360nat, 0, 8715077941245558208585386981905755359102618172758072042807531979929820986089nat, modulus());
    lemma_mpow_next(7, 279311633001132681490066069288048576650833937209858838nat, 8715077941245558208585386981905755359102618172758072042807531979929820986089nat, 1, 28424499056675869114053974791900181993654697311875062569879029567497076767167nat, modulus());
    lemma_mpow_next(7, 558623266002265362980132138576097153301667874419717677nat, 28424499056675869114053974791900181993654697311875062569879029567497076767167nat, 0, 3122948760957263716727191780849553659654478658414816760414789254437593699217nat, modulus());
    lemma_mpow_next(7, 1117246532004530725960264277152194306603335748839435354nat, 3122948760957263716727191780849553659654478658414816760414789254437593699217nat, 0, 14311670237408344972484714954719525714951836944703760838368490801421427467231nat, modulus());
    lemma_mpow_next(7, 2234493064009061451920528554304388613206671497678870708nat, 14311670237408344972484714954719525714951836944703760838368490801421427467231nat, 1, 35312667122657651155534899830232749202298140475288828748506700309944598223252nat, modulus());
    lemma_mpow_next(7, 4468986128018122903841057108608777226413342995357741417nat, 35312667122657651155534899830232749202298140475288828748506700309944598223252nat, 0, 22179156502926216254882040883739120590921513958339163814564253504474311714916nat, modulus());
    lemma_mpow_next(7, 8937972256036245807682114217217554452826685990715482834nat, 22179156502926216254882040883739120590921513958339163814564253504474311714916nat, 0, 45792807816851346551437121495659749595884240704671790576325258868378167437538nat, modulus());
    lemma_mpow_next(7, 17875944512072491615364228434435108905653371981430965668nat, 45792807816851346551437121495659749595884240704671790576325258868378167437538nat, 0, 21711069804655317749116861155023260791475161744363209003906262238589983522593nat, modulus());
    lemma_mpow_next(7, 35751889024144983230728456868870217811306743962861931336nat, 21711069804655317749116861155023260791475161744363209003906262238589983522593nat, 0, 17278437211583198188250145591580963415904240975162256676568086620573418831056nat, modulus());
    lemma_mpow_next(7, 71503778048289966461456913737740435622613487925723862672nat, 17278437211583198188250145591580963415904240975162256676568086620573418831056nat, 0, 13522932423306196451681907012416285709693121880281567043789833682820574795455nat, modulus());
    lemma_mpow_next(7, 143007556096579932922913827475480871245226975851447725344nat, 13522932423306196451681907012416285709693121880281567043789833682820574795455nat, 1, 50803435391367005918158796329760692323657545694834956662327057985251648149548nat, modulus());
    lemma_mpow_next(7, 286015112193159865845827654950961742490453951702895450689nat, 50803435391367005918158796329760692323657545694834956662327057985251648149548nat, 0, 40919418991828510887011697860963891664324114530299285732655028898222920111138nat, modulus());
    lemma_mpow_next(7, 572030224386319731691655309901923484980907903405790901378nat, 40919418991828510887011697860963891664324114530299285732655028898222920111138nat, 1, 8316429217385965521609906453107974844085096263654293086726618278135516461030nat, modulus());
    lemma_mpow_next(7, 1144060448772639463383310619803846969961815806811581802757nat, 8316429217385965521609906453107974844085096263654293086726618278135516461030nat, 0, 19914659930871134212638052236515032200432317194436047123956658821509794078432nat, modulus());
    lemma_mpow_next(7, 2288120897545278926766621239607693939923631613623163605514nat, 19914659930871134212638052236515032200432317194436047123956658821509794078432nat, 0, 7684888162420991788922153981210565835642816465854477710687733032332260322375nat, modulus());
    lemma_mpow_next(7, 4576241795090557853533242479215387879847263227246327211028nat, 7684888162420991788922153981210565835642816465854477710687733032332260322375nat, 0, 18725984776076769066844223423924801897651686817264157335490832239755273732822nat, modulus());
}

/// Squarings 193 to 208 of the power below.
#[verifier::spinoff_prover]
#[verifier::rlimit(50)]
proof fn lemma_pow_order_by_10177_part12()
    requires
        mpow(7, 9152483590181115707066484958430775759694526454492654422056nat, modulus()) == 18725984776076769066844223423924801897651686817264157335490832239755273732822nat,
    ensures
        mpow(7, 599817164566109598978309158235719320187340485721630600203865055nat, modulus()) == 44055961178337659801784272457000751914294303830821824100562448949066172398602nat,
{
    lemma_mpow_next(7, 9152483590181115707066484958430775759694526454492654422056nat, 18725984776076769066844223423924801897651686817264157335490832239755273732822nat, 0, 40511234976329839936648776876444238858462844599036113600063738505021755123744nat, modulus());
    lemma_mpow_next(7, 18304967180362231414132969916861551519389052908985308844112nat, 40511234976329839936648776876444238858462844599036113600063738505021755123744nat, 0, 39118816396016196200882653707794328932069514536538780574682418454410863390092nat, modulus());
    lemma_mpow_next(7, 36609934360724462828265939833723103038778105817970617688224nat, 39118816396016196200882653707794328932069514536538780574682418454410863390092nat, 0, 33683104841471483059357097245031493390461029979044769031117648221934181518216nat, modulus());
    lemma_mpow_next(7, 73219868721448925656531879667446206077556211635941235376448nat, 33683104841471483059357097245031493390461029979044769031117648221934181518216nat, 0, 786913113233601059581723922492525596565896719780521354853714646529536945273nat, modulus());
    lemma_mpow_next(7, 146439737442897851313063759334892412155112423271882470752896nat, 786913113233601059581723922492525596565896719780521354853714646529536945273nat, 1, 37086270446342615104312278988044792175499705458116318561958686803887894614433nat, modulus());
    lemma_mpow_next(7, 292879474885795702626127518669784824310224846543764941505793nat, 37086270446342615104312278988044792175499705458116318561958686803887894614433nat, 0, 33135784373609593282290483129260855767663616537743341576498824673028525137869nat, modulus());
    lemma_mpow_next(7, 585758949771591405252255037339569648620449693087529883011586nat, 33135784373609593282290483129260855767663616537743341576498824673028525137869nat, 1, 30907824914338809480179396555602593486930722493793399046180039568408906173664nat, modulus());
    lemma_mpow_next(7, 1171517899543182810504510074679139297240899386175059766023173nat, 30907824914338809480179396555602593486930722493793399046180039568408906173664nat, 1, 22642269121849771705438955703867983691983547789278669963198387068357654262061nat, modulus());
    lemma_mpow_next(7, 2343035799086365621009020149358278594481798772350119532046347nat, 22642269121849771705438955703867983691983547789278669963198387068357654262061nat, 1, 94439536805047622636299711919449372571847457303107609264322087278075037922nat, modulus());
    lemma_mpow_next(7, 4686071598172731242018040298716557188963597544700239064092695nat, 94439536805047622636299711919449372571847457303107609264322087278075037922nat, 1, 17713819784688171624860973506648002406663146411274107028976176388013549535071nat, modulus());
    lemma_mpow_next(7, 9372143196345462484036080597433114377927195089400478128185391nat, 17713819784688171624860973506648002406663146411274107028976176388013549535071nat, 0, 7867451755025821066394415748841195065267818238702004424753423849427240097778nat, modulus());
    lemma_mpow_next(7, 18744286392690924968072161194866228755854390178800956256370782nat, 7867451755025821066394415748841195065267818238702004424753423849427240097778nat, 1, 3605952812013027488033965900215341999186568163917947028769530532206279822391nat, modulus());
    lemma_mpow_next(7, 37488572785381849936144322389732457511708780357601912512741565nat, 3605952812013027488033965900215341999186568163917947028769530532206279822391nat, 1, 9740408702763653121271542995397344987476132059877847480730640272039404665353nat, modulus());
    lemma_mpow_next(7, 74977145570763699872288644779464915023417560715203825025483131nat, 9740408702763653121271542995397344987476132059877847480730640272039404665353nat, 1, 4432308215092257989265121035779516494144659652571239490810669068004901430824nat, modulus());
    lemma_mpow_next(7, 149954291141527399744577289558929830046835121430407650050966263nat, 4432308215092257989265121035779516494144659652571239490810669068004901430824nat, 1, 14500960617245774178624838196332179027635116837310913119582413226280605650254nat, modulus());
    lemma_mpow_next(7, 299908582283054799489154579117859660093670242860815300101932527nat, 14500960617245774178624838196332179027635116837310913119582413226280605650254nat, 1, 44055961178337659801784272457000751914294303830821824100562448949066172398602nat, modulus());
}

/// Squarings 209 to 224 of the power below.
#[verifier::spinoff_prover]
#[verifier::rlimit(50)]
proof fn lemma_pow_order_by_10177_part13()
    requires
        mpow(7, 599817164566109598978309158235719320187340485721630600203865055nat, modulus()) == 44055961178337659801784272457000751914294303830821824100562448949066172398602nat,
    ensures
        mpow(7, 39309617697004558678642468994136101367797546072252783014960500277248nat, modulus()) == 5479160893577445433321666559339307096690200279567766325147547274640826765664nat,
{
    lemma_mpow_next(7, 599817164566109598978309158235719320187340485721630600203865055nat, 44055961178337659801784272457000751914294303830821824100562448949066172398602nat, 1, 32280501352714981840808421371510795296357794771055228083302106485935424942270nat, modulus());
    lemma_mpow_next(7, 1199634329132219197956618316471438640374680971443261200407730111nat, 32280501352714981840808421371510795296357794771055228083302106485935424942270nat, 0, 17501636813366264693023961342197253339458809407309861167522890391667336919013nat, modulus());
    lemma_mpow_next(7, 2399268658264438395913236632942877280749361942886522400815460222nat, 17501636813366264693023961342197253339458809407309861167522890391667336919013nat, 0, 47675354665027114793638999181798102482990425883294179652274928514156380942195nat, modulus());
    lemma_mpow_next(7, 4798537316528876791826473265885754561498723885773044801630920444nat, 47675354665027114793638999181798102482990425883294179652274928514156380942195nat, 0, 12447640159862641025019085631140030051096894386683403922825388541212180490682nat, modulus());
    lemma_mpow_next(7, 9597074633057753583652946531771509122997447771546089603261840888nat, 12447640159862641025019085631140030051096894386683403922825388541212180490682nat, 0, 13127042983632600679575558711986595672443791597244443746237004999576229312923nat, modulus());
    lemma_mpow_next(7, 19194149266115507167305893063543018245994895543092179206523681776nat, 13127042983632600679575558711986595672443791597244443746237004999576229312923nat, 0, 4925010131026833750505197614100744556436947805571378589843188224546955982214nat, modulus());
    lemma_mpow_next(7, 38388298532231014334611786127086036491989791086184358413047363552nat, 4925010131026833750505197614100744556436947805571378589843188224546955982214nat, 0, 6175086478800358697412779640904506212763367809110292171307558584022160990909nat, modulus());
    lemma_mpow_next(7, 76776597064462028669223572254172072983979582172368716826094727104nat, 6175086478800358697412779640904506212763367809110292171307558584022160990909nat, 0, 30356342279996465304777569907699060378279584878051111560392601762991593360106nat, modulus());
    lemma_mpow_next(7, 153553194128924057338447144508344145967959164344737433652189454208nat, 30356342279996465304777569907699060378279584878051111560392601762991593360106nat, 0, 21878217778567049190222508889538336726678752963289870604780105963116656259398nat, modulus());
    lemma_mpow_next(7, 307106388257848114676894289016688291935918328689474867304378908416nat, 21878217778567049190222508889538336726678752963289870604780105963116656259398nat, 0, 40295125074002394826612346060741317117722732642501156807693008886068354307778nat, modulus());
    lemma_mpow_next(7, 614212776515696229353788578033376583871836657378949734608757816832nat, 40295125074002394826612346060741317117722732642501156807693008886068354307778nat, 0, 14604251339625618408305428411760635597485547884877331427888855364118515974072nat, modulus());
    lemma_mpow_next(7, 1228425553031392458707577156066753167743673314757899469217515633664nat, 14604251339625618408305428411760635597485547884877331427888855364118515974072nat, 0, 40789009223085241185784152782017213318335025478986053428716322167376067854128nat, modulus());
    lemma_mpow_next(7, 2456851106062784917415154312133506335487346629515798938435031267328nat, 40789009223085241185784152782017213318335025478986053428716322167376067854128nat, 0, 8272814091507888068933504045610881506063912399973607490867298747197367356962nat, modulus());
    lemma_mpow_next(7, 4913702212125569834830308624267012670974693259031597876870062534656nat, 8272814091507888068933504045610881506063912399973607490867298747197367356962nat, 0, 16231012649894216846087056831298460346675406423408866131477017647006116880866nat, modulus());
    lemma_mpow_next(7, 9827404424251139669660617248534025341949386518063195753740125069312nat, 16231012649894216846087056831298460346675406423408866131477017647006116880866nat, 0, 46078219447961387842392340577811691385783207533794319864004579285345042105730nat, modulus());
    lemma_mpow_next(7, 19654808848502279339321234497068050683898773036126391507480250138624nat, 46078219447961387842392340577811691385783207533794319864004579285345042105730nat, 0, 5479160893577445433321666559339307096690200279567766325147547274640826765664nat, modulus());
}

/// Squarings 225 to 240 of the power below.
#[verifier::spinoff_prover]
#[verifier::rlimit(50)]
proof fn lemma_pow_order_by_10177_part14()
    requires
        mpow(7, 39309617697004558678642468994136101367797546072252783014960500277248nat, modulus()) == 5479160893577445433321666559339307096690200279567766325147547274640826765664nat,
    ensures
        mpow(7, 2576195105390890757563512847999703539239979979391158387668451346169724928nat, modulus()) == 20523390809451014567356442490820853093316869220637583678839032616060039472989nat,
{
    lemma_mpow_next(7, 39309617697004558678642468994136101367797546072252783014960500277248nat, 5479160893577445433321666559339307096690200279567766325147547274640826765664nat, 0, 43949000880735083232179421549180216919632953119906356835553673641109003590845nat, modulus());
    lemma_mpow_next(7, 78619235394009117357284937988272202735595092144505566029921000554496nat, 43949000880735083232179421549180216919632953119906356835553673641109003590845nat, 0, 4796841283268415140764405044205331757455822892058653251055715410091802214717nat, modulus());
    lemma_mpow_next(7, 157238470788018234714569875976544405471190184289011132059842001108992nat, 4796841283268415140764405044205331757455822892058653251055715410091802214717nat, 0, 42946927028799729936357911809839840754581252298646828771334488531323109606315nat, modulus());
    lemma_mpow_next(7, 314476941576036469429139751953088810942380368578022264119684002217984nat, 42946927028799729936357911809839840754581252298646828771334488531323109606315nat, 0, 1516772107417006387786798317293861814538209161956732082167528253876767030549nat, modulus());
    lemma_mpow_next(7, 628953883152072938858279503906177621884760737156044528239368004435968nat, 1516772107417006387786798317293861814538209161956732082167528253876767030549nat, 0, 20145754322845989542065653547068714587922725036173918015001365050604349544585nat, modulus());
    lemma_mpow_next(7, 1257907766304145877716559007812355243769521474312089056478736008871936nat, 20145754322845989542065653547068714587922725036173918015001365050604349544585nat, 0, 34415332177550572820465019456088653302446843654104601216436520031731780982195nat, modulus());
    lemma_mpow_next(7, 2515815532608291755433118015624710487539042948624178112957472017743872nat, 34415332177550572820465019456088653302446843654104601216436520031731780982195nat, 0, 44183753815750008461508138127682298434122335882516206593367867750274845634990nat, modulus());
    lemma_mpow_next(7, 5031631065216583510866236031249420975078085897248356225914944035487744nat, 44183753815750008461508138127682298434122335882516206593367867750274845634990nat, 0, 17206597617171239138746303758048519407284537634241467568741043954230096160279nat, modulus());
    lemma_mpow_next(7, 10063262130433167021732472062498841950156171794496712451829888070975488nat, 17206597617171239138746303758048519407284537634241467568741043954230096160279nat, 0, 44310907799060584800942169243098441873590425850096037125196543607541631577677nat, modulus());
    lemma_mpow_next(7, 20126524260866334043464944124997683900312343588993424903659776141950976nat, 44310907799060584800942169243098441873590425850096037125196543607541631577677nat, 0, 50665300625994048269711679234673910641279730155967780087321918466018615111056nat, modulus());
    lemma_mpow_next(7, 40253048521732668086929888249995367800624687177986849807319552283901952nat, 50665300625994048269711679234673910641279730155967780087321918466018615111056nat, 0, 9300053976632313709750441154420650335107398228559226421805011340323644334829nat, modulus());
    lemma_mpow_next(7, 80506097043465336173859776499990735601249374355973699614639104567803904nat, 9300053976632313709750441154420650335107398228559226421805011340323644334829nat, 0, 49033089089596050186970231542093061198151937871060847387455939553591022424627nat, modulus());
    lemma_mpow_next(7, 161012194086930672347719552999981471202498748711947399229278209135607808nat, 49033089089596050186970231542093061198151937871060847387455939553591022424627nat, 0, 1168877901934520119031290584542857937145726564222263878257185750456916496721nat, modulus());
    lemma_mpow_next(7, 322024388173861344695439105999962942404997497423894798458556418271215616nat, 1168877901934520119031290584542857937145726564222263878257185750456916496721nat, 0, 30340115034726943820288309036202217149487856114826382742231119794590732628897nat, modulus());
    lemma_mpow_next(7, 644048776347722689390878211999925884809994994847789596917112836542431232nat, 30340115034726943820288309036202217149487856114826382742231119794590732628897nat, 0, 12361567233736171960183368907160809382672948676696542719175808429606185915020nat, modulus());
    lemma_mpow_next(7, 1288097552695445378781756423999851769619989989695579193834225673084862464nat, 12361567233736171960183368907160809382672948676696542719175808429606185915020nat, 0, 20523390809451014567356442490820853093316869220637583678839032616060039472989nat, modulus());
}

/// Squarings 241 to 241 of the power below.
#[verifier::spinoff_prover]
#[verifier::rlimit(50)]
proof fn lemma_pow_order_by_10177_part15()
    requires
        mpow(7, 2576195105390890757563512847999703539239979979391158387668451346169724928nat, modulus()) == 20523390809451014567356442490820853093316869220637583678839032616060039472989nat,
    ensures
        mpow(7, 5152390210781781515127025695999407078479959958782316775336902692339449856nat, modulus()) == 12994404728900834985293533771030346015740262791642084609331205164292017613753nat,
{
    lemma_mpow_next(7, 2576195105390890757563512847999703539239979979391158387668451346169724928nat, 20523390809451014567356442490820853093316869220637583678839032616060039472989nat, 0, 12994404728900834985293533771030346015740262791642084609331205164292017613753nat, modulus());
}

/// The generator to the power `(n - 1) / 10177` modulo the field order `n`.
proof fn lemma_pow_order_by_10177()
    ensures
        mpow(7, 5152390210781781515127025695999407078479959958782316775336902692339449856nat, modulus()) == 12994404728900834985293533771030346015740262791642084609331205164292017613753nat,
{
    lemma_mpow_first(7, modulus());
    lemma_pow_order_by_10177_part0();
    lemma_pow_order_by_10177_part1();
    lemma_pow_order_by_10177_part2();
    lemma_pow_order_by_10177_part3();
    lemma_pow_order_by_10177_part4();
    lemma_pow_order_by_10177_part5();
    lemma_pow_order_by_10177_part6();
    lemma_pow_order_by_10177_part7();
    lemma_pow_order_by_10177_part8();
    lemma_pow_order_by_10177_part9();
    lemma_pow_order_by_10177_part10();
    lemma_pow_order_by_10177_part11();
    lemma_pow_order_by_10177_part12();
    lemma_pow_order_by_10177_part13();
    lemma_pow_order_by_10177_part14();
    lemma_pow_order_by_10177_part15();
}

/// Squarings 1 to 16 of the power below.
#[verifier::spinoff_prover]
#[verifier::rlimit(50)]
proof fn lemma_pow_order_by_125527_part0()
    requires
        mpow(7, 1, modulus()) == 7,
    ensures
        mpow(7, 123954, modulus()) == 4909327787310853227174695416116390245694953920238400289449686842822430686819nat,
{
    lemma_mpow_next(7, 1, 7, 1, 343, modulus());
    lemma_mpow_next(7, 3, 343, 1, 823543, modulus());
    lemma_mpow_next(7, 7, 823543, 1, 4747561509943, modulus());
    lemma_mpow_next(7, 15, 4747561509943, 0, 22539340290692258087863249nat, modulus());
    lemma_mpow_next(7, 30, 22539340290692258087863249nat, 0, 508021860739623365322188197652216501772434524836001nat, modulus());
    lemma_mpow_next(7, 60, 508021860739623365322188197652216501772434524836001nat, 1, 37066983842617253905815923858199698432219099893603755966894082131289876794440nat, modulus());
    lemma_mpow_next(7, 121, 37066983842617253905815923858199698432219099893603755966894082131289876794440nat, 0, 45062131021071477585603039536735187869784581269393661023041392570913183721649nat, modulus());
    lemma_mpow_next(7, 242, 45062131021071477585603039536735187869784581269393661023041392570913183721649nat, 0, 15968235755599646940887627221236792447410180329348571047509927420059581369816nat, modulus());
    lemma_mpow_next(7, 484, 15968235755599646940887627221236792447410180329348571047509927420059581369816nat, 0, 454105423409428923009484407215659400093842395914874350281106483574009092285nat, modulus());
    lemma_mpow_next(7, 968, 454105423409428923009484407215659400093842395914874350281106483574009092285nat, 0, 27178145167667227643747325244436756134218054818020570947350097658684520152602nat, modulus());
    lemma_mpow_next(7, 1936, 27178145167667227643747325244436756134218054818020570947350097658684520152602nat, 1, 32329778112195660012830236604083294310506565823849475729568698990718673703674nat, modulus());
    lemma_mpow_next(7, 3873, 32329778112195660012830236604083294310506565823849475729568698990718673703674nat, 1, 23419321108751695326014292250923277062419166083531711751277744864256645448540nat, modulus());
    lemma_mpow_next(7, 7747, 23419321108751695326014292250923277062419166083531711751277744864256645448540nat, 0, 50648486034967974840880087535302069580778143828934916568831278314426101378072nat, modulus());
    lemma_mpow_next(7, 15494, 50648486034967974840880087535302069580778143828934916568831278314426101378072nat, 0, 16663889882145875304577707980272631335230664806237049845379487437484486092026nat, modulus());
    lemma_mpow_next(7, 30988, 16663889882145875304577707980272631335230664806237049845379487437484486092026nat, 1, 37528728498385636409890160261719871996229002986128123383326684140167618347518nat, modulus());
    lemma_mpow_next(7, 61977, 37528728498385636409890160261719871996229002986128123383326684140167618347518nat, 0, 4909327787310853227174695416116390245694953920238400289449686842822430686819nat, modulus());
}

/// Squarings 17 to 32 of the power below.
#[verifier::spinoff_prover]
#[verifier::rlimit(50)]
proof fn lemma_pow_order_by_125527_part1()
    requires
        mpow(7, 123954, modulus()) == 4909327787310853227174695416116390245694953920238400289449686842822430686819nat,
    ensures
        mpow(7, 8123482704, modulus()) == 11546213718547694792504969429992858505410262779311404208839912152171439374995nat,
{
    lemma_mpow_next(7, 123954, 4909327787310853227174695416116390245694953920238400289449686842822430686819nat, 1, 23793604405218086398660526872329428611443706793440688608137204422005989974577nat, modulus());
    lemma_mpow_next(7, 247909, 23793604405218086398660526872329428611443706793440688608137204422005989974577nat, 0, 14880382340638727440498977092840078458202666093321278190009542257416572430376nat, modulus());
    lemma_mpow_next(7, 495818, 14880382340638727440498977092840078458202666093321278190009542257416572430376nat, 0, 14856643235267817146489373413174289935820809002487298339197283436370160030262nat, modulus());
    lemma_mpow_next(7, 991636, 14856643235267817146489373413174289935820809002487298339197283436370160030262nat, 0, 22099882366505677673444615136859397062074998844053437103163820316858067683731nat, modulus());
    lemma_mpow_next(7, 1983272, 22099882366505677673444615136859397062074998844053437103163820316858067683731nat, 0, 24155301954845694251488703270640662307440601960557868141913099190967605263143nat, modulus());
    lemma_mpow_next(7, 3966544, 24155301954845694251488703270640662307440601960557868141913099190967605263143nat, 0, 18688084516572795728292257996530640286771077861173845506295256248399904901243nat, modulus());
    lemma_mpow_next(7, 7933088, 18688084516572795728292257996530640286771077861173845506295256248399904901243nat, 1, 3897280004556083897004099660867624910827193296684832691002601979339930017387nat, modulus());
    lemma_mpow_next(7, 15866177, 3897280004556083897004099660867624910827193296684832691002601979339930017387nat, 0, 38180897129799879191746884125284695385332431464972234154140857833110525673096nat, modulus());
    lemma_mpow_next(7, 31732354, 38180897129799879191746884125284695385332431464972234154140857833110525673096nat, 0, 44254981462691231973730044943219791787354413090840320216312956376909447922386nat, modulus());
    lemma_mpow_next(7, 63464708, 44254981462691231973730044943219791787354413090840320216312956376909447922386nat, 1, 22108877187706244112702016157293249760882493214938478544747734410657872708710nat, modulus());
    lemma_mpow_next(7, 126929417, 22108877187706244112702016157293249760882493214938478544747734410657872708710nat, 0, 52417695529294784101685782633623332077807258439896833211504050393162528104360nat, modulus());
    lemma_mpow_next(7, 253858834, 52417695529294784101685782633623332077807258439896833211504050393162528104360nat, 1, 42057488752113226719463687674454294793453732651422656900296619402362091690614nat, modulus());
    lemma_mpow_next(7, 507717669, 42057488752113226719463687674454294793453732651422656900296619402362091690614nat, 0, 34067170991583836138833960298266540769366839723334112200590521629405002391938nat, modulus());
    lemma_mpow_next(7, 1015435338, 34067170991583836138833960298266540769366839723334112200590521629405002391938nat, 0, 9972338703739461538375698807497124754325186098729629105811195877470037392509nat, modulus());
    lemma_mpow_next(7, 2030870676, 9972338703739461538375698807497124754325186098729629105811195877470037392509nat, 0, 41993573574907672327414121370380541041130131409786128046090728590584779431105nat, modulus());
    lemma_mpow_next(7, 4061741352, 41993573574907672327414121370380541041130131409786128046090728590584779431105nat, 0, 11546213718547694792504969429992858505410262779311404208839912152171439374995nat, modulus());
}

/// Squarings 33 to 48 of the power below.
#[verifier::spinoff_prover]
#[verifier::rlimit(50)]
proof fn lemma_pow_order_by_125527_part2()
    requires
        mpow(7, 8123482704, modulus()) == 11546213718547694792504969429992858505410262779311404208839912152171439374995nat,
    ensures
        mpow(7, 532380562553997, modulus()) == 42556140139851195049864263480703165582066941049132612515487703616030907622749nat,
{
    lemma_mpow_next(7, 8123482704, 11546213718547694792504969429992858505410262779311404208839912152171439374995nat, 1, 13628524846475390530057141793267132390304053170091214775453421060612246192442nat, modulus());
    lemma_mpow_next(7, 16246965409, 13628524846475390530057141793267132390304053170091214775453421060612246192442nat, 1, 50938905598515266436484698886359099886454005577443209140635439214905134252846nat, modulus());
    lemma_mpow_next(7, 32493930819, 50938905598515266436484698886359099886454005577443209140635439214905134252846nat, 1, 46734002576448000087513168554572199614977261161206893343233156240191749414485nat, modulus());
    lemma_mpow_next(7, 64987861639, 46734002576448000087513168554572199614977261161206893343233156240191749414485nat, 1, 5423145793510429322605523083361666254753429141777448460389619675737695832153nat, modulus());
    lemma_mpow_next(7, 129975723279, 5423145793510429322605523083361666254753429141777448460389619675737695832153nat, 1, 38009334641272015491362530606871240167727154912444279115702792082903988634197nat, modulus());
    lemma_mpow_next(7, 259951446559, 38009334641272015491362530606871240167727154912444279115702792082903988634197nat, 1, 16180244620823091285063528426368225154390857647012631846650650466575841082350nat, modulus());
    lemma_mpow_next(7, 519902893119, 16180244620823091285063528426368225154390857647012631846650650466575841082350nat, 0, 3877219473002761792339977576017742596630302898540413046389107465831754929759nat, modulus());
    lemma_mpow_next(7, 1039805786238, 3877219473002761792339977576017742596630302898540413046389107465831754929759nat, 0, 9781242576781321692267147976322526347098977904720468925514643881025999337400nat, modulus());
    lemma_mpow_next(7, 2079611572476, 9781242576781321692267147976322526347098977904720468925514643881025999337400nat, 1, 23875547732052937080578704617491989982453564651273947160863303000679917425954nat, modulus());
    lemma_mpow_next(7, 4159223144953, 23875547732052937080578704617491989982453564651273947160863303000679917425954nat, 0, 3366119126522789277785230903716562966399290848334473936718486200801080994531nat, modulus());
    lemma_mpow_next(7, 8318446289906, 3366119126522789277785230903716562966399290848334473936718486200801080994531nat, 0, 37550686905947436321453902263389728866509923311042704979767843271078796208658nat, modulus());
    lemma_mpow_next(7, 16636892579812, 37550686905947436321453902263389728866509923311042704979767843271078796208658nat, 0, 8916199383719226042275483026938118085952830989216467141690555296377744602503nat, modulus());
    lemma_mpow_next(7, 33273785159624, 8916199383719226042275483026938118085952830989216467141690555296377744602503nat, 1, 5086098515448860910890747776485898870490464688159175145270593065186797870702nat, modulus());
    lemma_mpow_next(7, 66547570319249, 5086098515448860910890747776485898870490464688159175145270593065186797870702nat, 1, 27787109740260582666461835310292051141843195601507219537112070221970552600991nat, modulus());
    lemma_mpow_next(7, 133095140638499, 27787109740260582666461835310292051141843195601507219537112070221970552600991nat, 0, 670200157983649107668719219879045064867581581883001280117358540932025185596nat, modulus());
    lemma_mpow_next(7, 266190281276998, 670200157983649107668719219879045064867581581883001280117358540932025185596nat, 1, 42556140139851195049864263480703165582066941049132612515487703616030907622749nat, modulus());
}

/// Squarings 49 to 64 of the power below.
#[verifier::spinoff_prover]
#[verifier::rlimit(50)]
proof fn lemma_pow_order_by_125527_part3()
    requires
        mpow(7, 532380562553997, modulus()) == 42556140139851195049864263480703165582066941049132612515487703616030907622749nat,
    ensures
        mpow(7, 34890092547538754387nat, modulus()) == 48097736210885010050272230580536666320709754106385892029703843445283261330487nat,
{
    lemma_mpow_next(7, 532380562553997, 42556140139851195049864263480703165582066941049132612515487703616030907622749nat, 0, 33934052960219225355389377793565376916121648722539205177901598413771593000793nat, modulus());
    lemma_mpow_next(7, 1064761125107994, 33934052960219225355389377793565376916121648722539205177901598413771593000793nat, 0, 48152699459096707815307301356007335102475227783197879494040702347261336681445nat, modulus());
    lemma_mpow_next(7, 2129522250215988, 48152699459096707815307301356007335102475227783197879494040702347261336681445nat, 0, 47460039394288176982517817819142547225549188482231995634726218771118925855483nat, modulus());
    lemma_mpow_next(7, 4259044500431976, 47460039394288176982517817819142547225549188482231995634726218771118925855483nat, 1, 13176807083917435577138842431027364171192700260371779488738322348642732791471nat, modulus());
    lemma_mpow_next(7, 8518089000863953, 13176807083917435577138842431027364171192700260371779488738322348642732791471nat, 1, 34698011241571474102402538215747439447869348013669975164034028400159963272801nat, modulus());
    lemma_mpow_next(7, 17036178001727907, 34698011241571474102402538215747439447869348013669975164034028400159963272801nat, 0, 21540577253395747972638890012254121460524332366105213253548142365434702781312nat, modulus());
    lemma_mpow_next(7, 34072356003455814, 21540577253395747972638890012254121460524332366105213253548142365434702781312nat, 1, 45397415324398584936829119970338471024766492520932665546753584439261278897856nat, modulus());
    lemma_mpow_next(7, 68144712006911629, 45397415324398584936829119970338471024766492520932665546753584439261278897856nat, 1, 29213803433169079857615973649117147051238692852798647832304813565282834816681nat, modulus());
    lemma_mpow_next(7, 136289424013823259, 29213803433169079857615973649117147051238692852798647832304813565282834816681nat, 0, 39264465903833219927278745272416639553116683395898334622382277174095740280358nat, modulus());
    lemma_mpow_next(7, 272578848027646518, 39264465903833219927278745272416639553116683395898334622382277174095740280358nat, 1, 19162020371887474360499793112890398099040671933531757815142630991001322655797nat, modulus());
    lemma_mpow_next(7, 545157696055293037, 19162020371887474360499793112890398099040671933531757815142630991001322655797nat, 0, 19098408482578541365271013704426569806174488505831227239737850008205398832038nat, modulus());
    lemma_mpow_next(7, 1090315392110586074nat, 19098408482578541365271013704426569806174488505831227239737850008205398832038nat, 1, 2673171231441885789916906182639547865218858092397186959335430721006926386537nat, modulus());
    lemma_mpow_next(7, 2180630784221172149nat, 2673171231441885789916906182639547865218858092397186959335430721006926386537nat, 0, 30966090572192823002169796968373831912399347750828620046384241931669048360081nat, modulus());
    lemma_mpow_next(7, 4361261568442344298nat, 30966090572192823002169796968373831912399347750828620046384241931669048360081nat, 0, 14838667259297517172361503734752403475015428642331319313636903489534113756084nat, modulus());
    lemma_mpow_next(7, 8722523136884688596nat, 14838667259297517172361503734752403475015428642331319313636903489534113756084nat, 1, 47256295992192243322161934572389672803851781688536866105043102822719217785674nat, modulus());
    lemma_mpow_next(7, 17445046273769377193nat, 47256295992192243322161934572389672803851781688536866105043102822719217785674nat, 1, 48097736210885010050272230580536666320709754106385892029703843445283261330487nat, modulus());
}

/// Squarings 65 to 80 of the power below.
#[verifier::spinoff_prover]
#[verifier::rlimit(50)]
proof fn lemma_pow_order_by_125527_part4()
    requires
        mpow(7, 34890092547538754387nat, modulus()) == 48097736210885010050272230580536666320709754106385892029703843445283261330487nat,
    ensures
        mpow(7, 2286557105195499807521748nat, modulus()) == 4395860234214284629843589673677954095657194262731404638006115312221148431627nat,
{
    lemma_mpow_next(7, 34890092547538754387nat, 48097736210885010050272230580536666320709754106385892029703843445283261330487nat, 0, 41443247464779652372569977427838003592841295620942528647437739026025615594354nat, modulus());
    lemma_mpow_next(7, 69780185095077508774nat, 41443247464779652372569977427838003592841295620942528647437739026025615594354nat, 0, 12693224801914614129483058864021601493243893912593055110242653896156530353481nat, modulus());
    lemma_mpow_next(7, 139560370190155017548nat, 12693224801914614129483058864021601493243893912593055110242653896156530353481nat, 1, 32969461078276473393582887536626597655874443036982185402504560474762185828652nat, modulus());
    lemma_mpow_next(7, 279120740380310035097nat, 32969461078276473393582887536626597655874443036982185402504560474762185828652nat, 1, 7370427218867090114144938626194827684897407294455186460605597236356566082013nat, modulus());
    lemma_mpow_next(7, 558241480760620070195nat, 7370427218867090114144938626194827684897407294455186460605597236356566082013nat, 1, 14359864827177498930774363201953620920386752498169679821268007765872674631566nat, modulus());
    lemma_mpow_next(7, 1116482961521240140391nat, 14359864827177498930774363201953620920386752498169679821268007765872674631566nat, 0, 50224636799653511961421253026467625081082480777850918581262753606504837160100nat, modulus());
    lemma_mpow_next(7, 2232965923042480280782nat, 50224636799653511961421253026467625081082480777850918581262753606504837160100nat, 1, 31720669435750220240599346381000634148794313375807740799260773175416553731074nat, modulus());
    lemma_mpow_next(7, 4465931846084960561565nat, 31720669435750220240599346381000634148794313375807740799260773175416553731074nat, 1, 41857792666089997518976978256481415408895949688266606547321001872633167776061nat, modulus());
    lemma_mpow_next(7, 8931863692169921123131nat, 41857792666089997518976978256481415408895949688266606547321001872633167776061nat, 1, 14967292702625729262771433065100506785722840566212886431723509519791431228537nat, modulus());
    lemma_mpow_next(7, 17863727384339842246263nat, 14967292702625729262771433065100506785722840566212886431723509519791431228537nat, 1, 14517115801582587803631739378797242605403839082384308272645625493075374249534nat, modulus());
    lemma_mpow_next(7, 35727454768679684492527nat, 14517115801582587803631739378797242605403839082384308272645625493075374249534nat, 0, 6492764776853739334962011146994458508714686387305968495498723899041818223212nat, modulus());
    lemma_mpow_next(7, 71454909537359368985054nat, 6492764776853739334962011146994458508714686387305968495498723899041818223212nat, 1, 29482735271419291732906749966778401476077061721182617608719796374402703282880nat, modulus());
    lemma_mpow_next(7, 142909819074718737970109nat, 29482735271419291732906749966778401476077061721182617608719796374402703282880nat, 0, 45611762684412794847913291800330512129955724583026965064145780896539540643481nat, modulus());
    lemma_mpow_next(7, 285819638149437475940218nat, 45611762684412794847913291800330512129955724583026965064145780896539540643481nat, 1, 3685446519753534456865875675053538012198420352998301977590319272569746153442nat, modulus());
    lemma_mpow_next(7, 571639276298874951880437nat, 3685446519753534456865875675053538012198420352998301977590319272569746153442nat, 0, 18055699494919133455662262526681700679726639038087732548412408737174516392982nat, modulus());
    lemma_mpow_next(7, 1143278552597749903760874nat, 18055699494919133455662262526681700679726639038087732548412408737174516392982nat, 0, 4395860234214284629843589673677954095657194262731404638006115312221148431627nat, modulus());
}

/// Squarings 81 to 96 of the power below.
#[verifier::spinoff_prover]
#[verifier::rlimit(50)]
proof fn lemma_pow_order_by_125527_part5()
    requires
        mpow(7, 2286557105195499807521748nat, modulus()) == 4395860234214284629843589673677954095657194262731404638006115312221148431627nat,
    ensures
        mpow(7, 149851806446092275385745332956nat, modulus()) == 32733890956740432854081541918500756623151719966880638597822199701588583746201nat,
{
    lemma_mpow_next(7, 2286557105195499807521748nat, 4395860234214284629843589673677954095657194262731404638006115312221148431627nat, 1, 49799178424582278327996917516983902672166182726294980256857483899637435621805nat, modulus());
    lemma_mpow_next(7, 4573114210390999615043497nat, 49799178424582278327996917516983902672166182726294980256857483899637435621805nat, 1, 36480920413170455047888804769844262079848079088577895000366756244984113080515nat, modulus());
    lemma_mpow_next(7, 9146228420781999230086995nat, 36480920413170455047888804769844262079848079088577895000366756244984113080515nat, 0, 30236700913703240296309118561264696125089253865640954386644985163892989445735nat, modulus());
    lemma_mpow_next(7, 18292456841563998460173990nat, 30236700913703240296309118561264696125089253865640954386644985163892989445735nat, 1, 46393261545330275335780586676915211839221821806473755791005037317659003916879nat, modulus());
    lemma_mpow_next(7, 36584913683127996920347981nat, 46393261545330275335780586676915211839221821806473755791005037317659003916879nat, 1, 28198196621707503786510099696821834249766283167526568575937925000313767263336nat, modulus());
    lemma_mpow_next(7, 73169827366255993840695963nat, 28198196621707503786510099696821834249766283167526568575937925000313767263336nat, 0, 49296425897034486775392222987647328299471450470159059007425197868245579432763nat, modulus());
    lemma_mpow_next(7, 146339654732511987681391926nat, 49296425897034486775392222987647328299471450470159059007425197868245579432763nat, 1, 15297560382178921555057759043619851208023413918928843048685900795003520967002nat, modulus());
    lemma_mpow_next(7, 292679309465023975362783853nat, 15297560382178921555057759043619851208023413918928843048685900795003520967002nat, 0, 44583042578283583510164614481723960105308462342413685931390180400001002415922nat, modulus());
    lemma_mpow_next(7, 585358618930047950725567706nat, 44583042578283583510164614481723960105308462342413685931390180400001002415922nat, 1, 1310076014831635102308520747924392596991386346633495755259572717685017134144nat, modulus());
    lemma_mpow_next(7, 1170717237860095901451135413nat, 1310076014831635102308520747924392596991386346633495755259572717685017134144nat, 1, 39935716714349032431379781035421615123166741563580584453003052772917697514226nat, modulus());
    lemma_mpow_next(7, 2341434475720191802902270827nat, 39935716714349032431379781035421615123166741563580584453003052772917697514226nat, 0, 19528184809649883083661016160180539116381967451940125783518639615488391367483nat, modulus());
    lemma_mpow_next(7, 4682868951440383605804541654nat, 19528184809649883083661016160180539116381967451940125783518639615488391367483nat, 1, 42245941234644477939011977466241890865910750988075842990565381100374592883739nat, modulus());
    lemma_mpow_next(7, 9365737902880767211609083309nat, 42245941234644477939011977466241890865910750988075842990565381100374592883739nat, 1, 28254584204058753843495845021479437054800152417244758964191673348149453869687nat, modulus());
    lemma_mpow_next(7, 18731475805761534423218166619nat, 28254584204058753843495845021479437054800152417244758964191673348149453869687nat, 1, 27428186061404088748321998925015295833068349485478026882960208305078737663565nat, modulus());
    lemma_mpow_next(7, 37462951611523068846436333239nat, 27428186061404088748321998925015295833068349485478026882960208305078737663565nat, 0, 30457804854426593277815899311151854432954742073896245045521931785032536925403nat, modulus());
    lemma_mpow_next(7, 74925903223046137692872666478nat, 30457804854426593277815899311151854432954742073896245045521931785032536925403nat, 0, 32733890956740432854081541918500756623151719966880638597822199701588583746201nat, modulus());
}

/// Squarings 97 to 112 of the power below.
#[verifier::spinoff_prover]
#[verifier::rlimit(50)]
proof fn lemma_pow_order_by_125527_part6()
    requires
        mpow(7, 149851806446092275385745332956nat, modulus()) == 32733890956740432854081541918500756623151719966880638597822199701588583746201nat,
    ensures
        mpow(7, 9820687987251103359680206140632789nat, modulus()) == 42419753970791582499723327020317350285727650628893358045984697111026377142869nat,
{
    lemma_mpow_next(7, 149851806446092275385745332956nat, 32733890956740432854081541918500756623151719966880638597822199701588583746201nat, 0, 28283336147816474177358748639250171225519931845619262475522093579276177787909nat, modulus());
    lemma_mpow_next(7, 299703612892184550771490665912nat, 28283336147816474177358748639250171225519931845619262475522093579276177787909nat, 1, 40310851582370647973144938013726465313045304494323325768963257215477827253323nat, modulus());
    lemma_mpow_next(7, 599407225784369101542981331825nat, 40310851582370647973144938013726465313045304494323325768963257215477827253323nat, 1, 44564822724587230873367204769976425913397205427703520998978801408893175453596nat, modulus());
    lemma_mpow_next(7, 1198814451568738203085962663651nat, 44564822724587230873367204769976425913397205427703520998978801408893175453596nat, 0, 46814490128593944364829372424977515309600167247080047449146996711162185546472nat, modulus());
    lemma_mpow_next(7, 2397628903137476406171925327302nat, 46814490128593944364829372424977515309600167247080047449146996711162185546472nat, 1, 15440592950975717101043913060507963311800849728159791852091425920993967533374nat, modulus());
    lemma_mpow_next(7, 4795257806274952812343850654605nat, 15440592950975717101043913060507963311800849728159791852091425920993967533374nat, 1, 34235866781075864828107849738914362697302063938980863020034517079318448766773nat, modulus());
    lemma_mpow_next(7, 9590515612549905624687701309211nat, 34235866781075864828107849738914362697302063938980863020034517079318448766773nat, 1, 32448682946909767093354725000020729998868148071001724929400930431424273214938nat, modulus());
    lemma_mpow_next(7, 19181031225099811249375402618423nat, 32448682946909767093354725000020729998868148071001724929400930431424273214938nat, 0, 40823384914726362937945480677212470023429227782296744537706063026280939475553nat, modulus());
    lemma_mpow_next(7, 38362062450199622498750805236846nat, 40823384914726362937945480677212470023429227782296744537706063026280939475553nat, 1, 39713349528459630107328247772086392010915153248512222247400115329396209259482nat, modulus());
    lemma_mpow_next(7, 76724124900399244997501610473693nat, 39713349528459630107328247772086392010915153248512222247400115329396209259482nat, 1, 27694667376463973679575361004054748945588547489859140181286258277790553330334nat, modulus());
    lemma_mpow_next(7, 153448249800798489995003220947387nat, 27694667376463973679575361004054748945588547489859140181286258277790553330334nat, 0, 47168721827217968093668518970545876525209631629883957816413882009504880107808nat, modulus());
    lemma_mpow_next(7, 306896499601596979990006441894774nat, 47168721827217968093668518970545876525209631629883957816413882009504880107808nat, 1, 48521897117473061147891416398017953666663505340643442207191359572170770419031nat, modulus());
    lemma_mpow_next(7, 613792999203193959980012883789549nat, 48521897117473061147891416398017953666663505340643442207191359572170770419031nat, 0, 45048066022949860080503873723471121819946256442783989789087322741244135390518nat, modulus());
    lemma_mpow_next(7, 1227585998406387919960025767579098nat, 45048066022949860080503873723471121819946256442783989789087322741244135390518nat, 1, 45203021931517295610668415586266881714714621392460660582316638390916529973699nat, modulus());
    lemma_mpow_next(7, 2455171996812775839920051535158197nat, 45203021931517295610668415586266881714714621392460660582316638390916529973699nat, 0, 39356186620504658063589133435879991420756290299292735620977415650505391153521nat, modulus());
    lemma_mpow_next(7, 4910343993625551679840103070316394nat, 39356186620504658063589133435879991420756290299292735620977415650505391153521nat, 1, 42419753970791582499723327020317350285727650628893358045984697111026377142869nat, modulus());
}

/// Squarings 113 to 128 of the power below.
#[verifier::spinoff_prover]
#[verifier::rlimit(50)]
proof fn lemma_pow_order_by_125527_part7()
    requires
        mpow(7, 9820687987251103359680206140632789nat, modulus()) == 42419753970791582499723327020317350285727650628893358045984697111026377142869nat,
    ensures
        mpow(7, 643608607932488309780001989632510507455nat, modulus()) == 45944084216537727843941127336665108457088850136668269096667005592975220979175nat,
{
    lemma_mpow_next(7, 9820687987251103359680206140632789nat, 42419753970791582499723327020317350285727650628893358045984697111026377142869nat, 1, 49535193515963246053651067496283749802610118494193326714690242591308935127221nat, modulus());
    lemma_mpow_next(7, 19641375974502206719360412281265579nat, 49535193515963246053651067496283749802610118494193326714690242591308935127221nat, 0, 10743064816334716448931140786620802242747873562662127126417088869809329785222nat, modulus());
    lemma_mpow_next(7, 39282751949004413438720824562531158nat, 10743064816334716448931140786620802242747873562662127126417088869809329785222nat, 1, 15464828310698880737397100345928771089519845332889419104613431115267384553285nat, modulus());
    lemma_mpow_next(7, 78565503898008826877441649125062317nat, 15464828310698880737397100345928771089519845332889419104613431115267384553285nat, 1, 1475815618085400425425260149247702573526123763561269861786278621397381264504nat, modulus());
    lemma_mpow_next(7, 157131007796017653754883298250124635nat, 1475815618085400425425260149247702573526123763561269861786278621397381264504nat, 1, 5686962409752320567612053391010310781747779666681599557945373836461294609965nat, modulus());
    lemma_mpow_next(7, 314262015592035307509766596500249271nat, 5686962409752320567612053391010310781747779666681599557945373836461294609965nat, 0, 2550676584775828380600699124374338802508794622326624721724769594735093646649nat, modulus());
    lemma_mpow_next(7, 628524031184070615019533193000498542nat, 2550676584775828380600699124374338802508794622326624721724769594735093646649nat, 0, 7180101707506043291233271872374451111764872579733654096126898360909634128115nat, modulus());
    lemma_mpow_next(7, 1257048062368141230039066386000997084nat, 7180101707506043291233271872374451111764872579733654096126898360909634128115nat, 1, 35096818833554349212966144528033965184136292909511188746975833195491200961765nat, modulus());
    lemma_mpow_next(7, 2514096124736282460078132772001994169nat, 35096818833554349212966144528033965184136292909511188746975833195491200961765nat, 1, 37355792460408082831216378967061909427020607811052817898704267576031361736124nat, modulus());
    lemma_mpow_next(7, 5028192249472564920156265544003988339nat, 37355792460408082831216378967061909427020607811052817898704267576031361736124nat, 0, 18416951891038084056216538421908049134451641320949004344840247541142072726125nat, modulus());
    lemma_mpow_next(7, 10056384498945129840312531088007976678nat, 18416951891038084056216538421908049134451641320949004344840247541142072726125nat, 1, 23029214918920398141664877248450355639301887204628095764361658106960841769826nat, modulus());
    lemma_mpow_next(7, 20112768997890259680625062176015953357nat, 23029214918920398141664877248450355639301887204628095764361658106960841769826nat, 1, 18683758462615682534568515188977859549798998620603190453937313902074357645310nat, modulus());
    lemma_mpow_next(7, 40225537995780519361250124352031906715nat, 18683758462615682534568515188977859549798998620603190453937313902074357645310nat, 1, 42618526148890038656733484774994131651467927079988478456781837609793178889816nat, modulus());
    lemma_mpow_next(7, 80451075991561038722500248704063813431nat, 42618526148890038656733484774994131651467927079988478456781837609793178889816nat, 1, 32127955742043757627968403056337594787740504600960145257258150918230130232350nat, modulus());
    lemma_mpow_next(7, 160902151983122077445000497408127626863nat, 32127955742043757627968403056337594787740504600960145257258150918230130232350nat, 1, 49735016108789593604822366826390618750123822874083482165458049515258983271693nat, modulus());
    lemma_mpow_next(7, 321804303966244154890000994816255253727nat, 49735016108789593604822366826390618750123822874083482165458049515258983271693nat, 1, 45944084216537727843941127336665108457088850136668269096667005592975220979175nat, modulus());
}

/// Squarings 129 to 144 of the power below.
#[verifier::spinoff_prover]
#[verifier::rlimit(50)]
proof fn lemma_pow_order_by_125527_part8()
    requires
        mpow(7, 643608607932488309780001989632510507455nat, modulus()) == 45944084216537727843941127336665108457088850136668269096667005592975220979175nat,
    ensures
        mpow(7, 42179533729463553869742210392556208616601889nat, modulus()) == 36147249891234813504068014817934777704587922926492249044033196214063475434085nat,
{
    lemma_mpow_next(7, 643608607932488309780001989632510507455nat, 45944084216537727843941127336665108457088850136668269096667005592975220979175nat, 0, 40579862540822260876363318756702974720638599758116683284700421705602585094012nat, modulus());
    lemma_mpow_next(7, 1287217215864976619560003979265021014910nat, 40579862540822260876363318756702974720638599758116683284700421705602585094012nat, 1, 35762006419949754825147011912265705010910807566126493336188936626508348830180nat, modulus());
    lemma_mpow_next(7, 2574434431729953239120007958530042029821nat, 35762006419949754825147011912265705010910807566126493336188936626508348830180nat, 1, 42255282195468999352208001953968629254903898011217687057277098994581277945109nat, modulus());
    lemma_mpow_next(7, 5148868863459906478240015917060084059643nat, 42255282195468999352208001953968629254903898011217687057277098994581277945109nat, 1, 51518518091661235351616919103028631465414559131291142629681139015895982586730nat, modulus());
    lemma_mpow_next(7, 10297737726919812956480031834120168119287nat, 51518518091661235351616919103028631465414559131291142629681139015895982586730nat, 1, 31295401159177091795609250837023731867610520395919354654647479520983154980910nat, modulus());
    lemma_mpow_next(7, 20595475453839625912960063668240336238575nat, 31295401159177091795609250837023731867610520395919354654647479520983154980910nat, 0, 42943676695408109060914993978428816145809568597931578611734561417001724651718nat, modulus());
    lemma_mpow_next(7, 41190950907679251825920127336480672477150nat, 42943676695408109060914993978428816145809568597931578611734561417001724651718nat, 0, 30029826870546963069557031725905800106524795125825667361094190123669701293475nat, modulus());
    lemma_mpow_next(7, 82381901815358503651840254672961344954300nat, 30029826870546963069557031725905800106524795125825667361094190123669701293475nat, 1, 3740839582098827487646972735436387393470474757444026113716708875335875277233nat, modulus());
    lemma_mpow_next(7, 164763803630717007303680509345922689908601nat, 3740839582098827487646972735436387393470474757444026113716708875335875277233nat, 0, 37532033534519659501380183699991150859534977996306695251538552072379408757698nat, modulus());
    lemma_mpow_next(7, 329527607261434014607361018691845379817202nat, 37532033534519659501380183699991150859534977996306695251538552072379408757698nat, 0, 23417424449558536566334866051280415206864686102842651932870435587982003300876nat, modulus());
    lemma_mpow_next(7, 659055214522868029214722037383690759634404nat, 23417424449558536566334866051280415206864686102842651932870435587982003300876nat, 1, 6262438914684612734057645209162996646216581158334027867470993189914711288543nat, modulus());
    lemma_mpow_next(7, 1318110429045736058429444074767381519268809nat, 6262438914684612734057645209162996646216581158334027867470993189914711288543nat, 0, 44916331045976369699838773335264883169123011222085228805685449709756360241467nat, modulus());
    lemma_mpow_next(7, 2636220858091472116858888149534763038537618nat, 44916331045976369699838773335264883169123011222085228805685449709756360241467nat, 0, 17086890254876338296259052306590471632065559671762578024955173553508631792629nat, modulus());
    lemma_mpow_next(7, 5272441716182944233717776299069526077075236nat, 17086890254876338296259052306590471632065559671762578024955173553508631792629nat, 0, 44310976544342147257812327885489215269830859942084490130484716379910814828854nat, modulus());
    lemma_mpow_next(7, 10544883432365888467435552598139052154150472nat, 44310976544342147257812327885489215269830859942084490130484716379910814828854nat, 0, 10238251133638539771193625465928111025565175005887830161030198998868459233624nat, modulus());
    lemma_mpow_next(7, 21089766864731776934871105196278104308300944nat, 10238251133638539771193625465928111025565175005887830161030198998868459233624nat, 1, 36147249891234813504068014817934777704587922926492249044033196214063475434085nat, modulus());
}

/// Squarings 145 to 160 of the power below.
#[verifier::spinoff_prover]
#[verifier::rlimit(50)]
proof fn lemma_pow_order_by_125527_part9()
    requires
        mpow(7, 42179533729463553869742210392556208616601889nat, modulus()) == 36147249891234813504068014817934777704587922926492249044033196214063475434085nat,
    ensures
        mpow(7, 2764277922494123466407425500286563687897621458968nat, modulus()) == 49792355705575558987357839521601778067701316684974737941392197170562014338452nat,
{
    lemma_mpow_next(7, 42179533729463553869742210392556208616601889nat, 36147249891234813504068014817934777704587922926492249044033196214063475434085nat, 1, 32725155531959631197868241535026018075007681364659951792255049176525925021801nat, modulus());
    lemma_mpow_next(7, 84359067458927107739484420785112417233203779nat, 32725155531959631197868241535026018075007681364659951792255049176525925021801nat, 1, 6433957827215688288731419781700882975461106510956368882523620606606307699581nat, modulus());
    lemma_mpow_next(7, 168718134917854215478968841570224834466407559nat, 6433957827215688288731419781700882975461106510956368882523620606606307699581nat, 1, 25210367554231594432060979119622779213067829139560585621553189013010278145781nat, modulus());
    lemma_mpow_next(7, 337436269835708430957937683140449668932815119nat, 25210367554231594432060979119622779213067829139560585621553189013010278145781nat, 1, 24092110146508774387858477379208758274253017362526777941999025671969935280964nat, modulus());
    lemma_mpow_next(7, 674872539671416861915875366280899337865630239nat, 24092110146508774387858477379208758274253017362526777941999025671969935280964nat, 0, 33026650001863670256332773335890134059135525875370364606391385900941068000186nat, modulus());
    lemma_mpow_next(7, 1349745079342833723831750732561798675731260478nat, 33026650001863670256332773335890134059135525875370364606391385900941068000186nat, 0, 50925732255112652181924256618407794848355117351214307946992329018865831441993nat, modulus());
    lemma_mpow_next(7, 2699490158685667447663501465123597351462520956nat, 50925732255112652181924256618407794848355117351214307946992329018865831441993nat, 0, 35401999378218380070639157153925577509365490336601829955018562009461364145825nat, modulus());
    lemma_mpow_next(7, 5398980317371334895327002930247194702925041912nat, 35401999378218380070639157153925577509365490336601829955018562009461364145825nat, 0, 18575247644758094000632014117964810712066840945667057152495872555289814011762nat, modulus());
    lemma_mpow_next(7, 10797960634742669790654005860494389405850083824nat, 18575247644758094000632014117964810712066840945667057152495872555289814011762nat, 0, 47758164590717614735369290847592806398606312101357793590574312663535274221601nat, modulus());
    lemma_mpow_next(7, 21595921269485339581308011720988778811700167648nat, 47758164590717614735369290847592806398606312101357793590574312663535274221601nat, 0, 5562796827631202275567349009083440643311766332709515755020733511865169487020nat, modulus());
    lemma_mpow_next(7, 43191842538970679162616023441977557623400335296nat, 5562796827631202275567349009083440643311766332709515755020733511865169487020nat, 0, 31240181160140117002396016860130351740629543512603440048977264167286173076162nat, modulus());
    lemma_mpow_next(7, 86383685077941358325232046883955115246800670592nat, 31240181160140117002396016860130351740629543512603440048977264167286173076162nat, 1, 15651909956905998681983839487426287801309908766489654326489094522802378051722nat, modulus());
    lemma_mpow_next(7, 172767370155882716650464093767910230493601341185nat, 15651909956905998681983839487426287801309908766489654326489094522802378051722nat, 1, 8858693730975624474254385118563500918675819327533949767531250566176286308681nat, modulus());
    lemma_mpow_next(7, 345534740311765433300928187535820460987202682371nat, 8858693730975624474254385118563500918675819327533949767531250566176286308681nat, 0, 7508350762549703965388813537790300481818729924446187907948333520805790907468nat, modulus());
    lemma_mpow_next(7, 691069480623530866601856375071640921974405364742nat, 7508350762549703965388813537790300481818729924446187907948333520805790907468nat, 0, 20707633548563344909261866775635953664043383914104101951892923282932177976268nat, modulus());
    lemma_mpow_next(7, 1382138961247061733203712750143281843948810729484nat, 20707633548563344909261866775635953664043383914104101951892923282932177976268nat, 0, 49792355705575558987357839521601778067701316684974737941392197170562014338452nat, modulus());
}

/// Squarings 161 to 176 of the power below.
#[verifier::spinoff_prover]
#[verifier::rlimit(50)]
proof fn lemma_pow_order_by_125527_part10()
    requires
        mpow(7, 2764277922494123466407425500286563687897621458968nat, modulus()) == 49792355705575558987357839521601778067701316684974737941392197170562014338452nat,
    ensures
        mpow(7, 181159717928574875494477037586780237850058519934977074nat, modulus()) == 24794129614498829086857560369975221764750393016252706380769363698271008990996nat,
{
    lemma_mpow_next(7, 2764277922494123466407425500286563687897621458968nat, 49792355705575558987357839521601778067701316684974737941392197170562014338452nat, 1, 45191479026164774970978001517517367141619702525619601878389280033824171136480nat, modulus());
    lemma_mpow_next(7, 5528555844988246932814851000573127375795242917937nat, 45191479026164774970978001517517367141619702525619601878389280033824171136480nat, 1, 51805460332501932704855628020436210871537693377550023843168855664400703196684nat, modulus());
    lemma_mpow_next(7, 11057111689976493865629702001146254751590485835875nat, 51805460332501932704855628020436210871537693377550023843168855664400703196684nat, 0, 45683458480318306986877224057734031444143516457918911097129452290896707883725nat, modulus());
    lemma_mpow_next(7, 22114223379952987731259404002292509503180971671750nat, 45683458480318306986877224057734031444143516457918911097129452290896707883725nat, 0, 9906970569306075074682776108884169003292915545363249952050412045143042815415nat, modulus());
    lemma_mpow_next(7, 44228446759905975462518808004585019006361943343500nat, 9906970569306075074682776108884169003292915545363249952050412045143042815415nat, 0, 16308631688154681968081521083552342868884130594660240245747305481127382722744nat, modulus());
    lemma_mpow_next(7, 88456893519811950925037616009170038012723886687000nat, 16308631688154681968081521083552342868884130594660240245747305481127382722744nat, 1, 6375072302459372084892241087238816284807470012868710773268945056418351787116nat, modulus());
    lemma_mpow_next(7, 176913787039623901850075232018340076025447773374001nat, 6375072302459372084892241087238816284807470012868710773268945056418351787116nat, 0, 49079174980656840780985298955447034657504476109895982938628212192463737877331nat, modulus());
    lemma_mpow_next(7, 353827574079247803700150464036680152050895546748002nat, 49079174980656840780985298955447034657504476109895982938628212192463737877331nat, 0, 28709995262601391693108110394533353375591388300758720145087932204958703234432nat, modulus());
    lemma_mpow_next(7, 707655148158495607400300928073360304101791093496004nat, 28709995262601391693108110394533353375591388300758720145087932204958703234432nat, 0, 6913728714907957520957232834305896141707858330626192043338583735104080600934nat, modulus());
    lemma_mpow_next(7, 1415310296316991214800601856146720608203582186992008nat, 6913728714907957520957232834305896141707858330626192043338583735104080600934nat, 0, 15420256952243716912059840530507848550358058550445276211717864959999506498268nat, modulus());
    lemma_mpow_next(7, 2830620592633982429601203712293441216407164373984016nat, 15420256952243716912059840530507848550358058550445276211717864959999506498268nat, 1, 3320879177585101746264435869198329519176709945782377508953273678552118515239nat, modulus());
    lemma_mpow_next(7, 5661241185267964859202407424586882432814328747968033nat, 3320879177585101746264435869198329519176709945782377508953273678552118515239nat, 1, 10129216591182366795318119899228674462819555121344217519897166650320984153728nat, modulus());
    lemma_mpow_next(7, 11322482370535929718404814849173764865628657495936067nat, 10129216591182366795318119899228674462819555121344217519897166650320984153728nat, 0, 49499543418089194415300760256984454118154167625315999241405888846853095997323nat, modulus());
    lemma_mpow_next(7, 22644964741071859436809629698347529731257314991872134nat, 49499543418089194415300760256984454118154167625315999241405888846853095997323nat, 0, 32781858181392706442159344007778052413519954006288462996599972497402477903398nat, modulus());
    lemma_mpow_next(7, 45289929482143718873619259396695059462514629983744268nat, 32781858181392706442159344007778052413519954006288462996599972497402477903398nat, 1, 24110257493517821956952270309504244770659473642255407839876577940039361689382nat, modulus());
    lemma_mpow_next(7, 90579858964287437747238518793390118925029259967488537nat, 24110257493517821956952270309504244770659473642255407839876577940039361689382nat, 0, 24794129614498829086857560369975221764750393016252706380769363698271008990996nat, modulus());
}

/// Squarings 177 to 192 of the power below.
#[verifier::spinoff_prover]
#[verifier::rlimit(50)]
proof fn lemma_pow_order_by_125527_part11()
    requires
        mpow(7, 181159717928574875494477037586780237850058519934977074nat, modulus()) == 24794129614498829086857560369975221764750393016252706380769363698271008990996nat,
    ensures
        mpow(7, 11872483274167083040406047135287229667741435162458657538634nat, modulus()) == 12747518552530283230543401341250109462426090754551320791249353374351704944904nat,
{
    lemma_mpow_next(7, 181159717928574875494477037586780237850058519934977074nat, 24794129614498829086857560369975221764750393016252706380769363698271008990996nat, 0, 27350824726289882691913400018570187717414705909704957047861971117927985786392nat, modulus());
    lemma_mpow_next(7, 362319435857149750988954075173560475700117039869954148nat, 27350824726289882691913400018570187717414705909704957047861971117927985786392nat, 1, 19353119800122941601849274984454247928820929241561732871937295807799353606124nat, modulus());
    lemma_mpow_next(7, 724638871714299501977908150347120951400234079739908297nat, 19353119800122941601849274984454247928820929241561732871937295807799353606124nat, 0, 4189449942629187851101178147608368845858974778747714052603918025750026167591nat, modulus());
    lemma_mpow_next(7, 1449277743428599003955816300694241902800468159479816594nat, 4189449942629187851101178147608368845858974778747714052603918025750026167591nat, 0, 36886918294711634417334030878560449729794037667369904103247584327891364902403nat, modulus());
    lemma_mpow_next(7, 2898555486857198007911632601388483805600936318959633188nat, 36886918294711634417334030878560449729794037667369904103247584327891364902403nat, 0, 36883349842976809526325605232281299086247823670402230971091483683996564148216nat, modulus());
    lemma_mpow_next(7, 5797110973714396015823265202776967611201872637919266376nat, 36883349842976809526325605232281299086247823670402230971091483683996564148216nat, 0, 8282232209812864852858127228380500958985313249777804096373580252835941890261nat, modulus());
    lemma_mpow_next(7, 11594221947428792031646530405553935222403745275838532752nat, 8282232209812864852858127228380500958985313249777804096373580252835941890261nat, 1, 6103693129287713893029637983787522057715141749223226790405542510341555809807nat, modulus());
    lemma_mpow_next(7, 23188443894857584063293060811107870444807490551677065505nat, 6103693129287713893029637983787522057715141749223226790405542510341555809807nat, 0, 17423056838287139071638650774395080147616236171146195674223226061862489624563nat, modulus());
    lemma_mpow_next(7, 46376887789715168126586121622215740889614981103354131010nat, 17423056838287139071638650774395080147616236171146195674223226061862489624563nat, 0, 41973129315734869515432405043195079439140094174995824699931835827462032594006nat, modulus());
    lemma_mpow_next(7, 92753775579430336253172243244431481779229962206708262020nat, 41973129315734869515432405043195079439140094174995824699931835827462032594006nat, 1, 17560391459890228173634401662423410600200774648641096777083260206172576798810nat, modulus());
    lemma_mpow_next(7, 185507551158860672506344486488862963558459924413416524041nat, 17560391459890228173634401662423410600200774648641096777083260206172576798810nat, 0, 51051831843956356529045237661755412926704344470718723375777236270644580156043nat, modulus());
    lemma_mpow_next(7, 371015102317721345012688972977725927116919848826833048082nat, 51051831843956356529045237661755412926704344470718723375777236270644580156043nat, 0, 50518710679468287849043677050644371613423976535393554766408149370358905782851nat, modulus());
    lemma_mpow_next(7, 742030204635442690025377945955451854233839697653666096164nat, 50518710679468287849043677050644371613423976535393554766408149370358905782851nat, 1, 26952108627037129060891653878874538086828903138663537176433471225390088214845nat, modulus());
    lemma_mpow_next(7, 1484060409270885380050755891910903708467679395307332192329nat, 26952108627037129060891653878874538086828903138663537176433471225390088214845nat, 0, 6980799498018625611255481699535731208001134683511890109434882772494292801234nat, modulus());
    lemma_mpow_next(7, 2968120818541770760101511783821807416935358790614664384658nat, 6980799498018625611255481699535731208001134683511890109434882772494292801234nat, 1, 44819082717949355422998034702016849921769785447128229960476525763078466544488nat, modulus());
    lemma_mpow_next(7, 5936241637083541520203023567643614833870717581229328769317nat, 44819082717949355422998034702016849921769785447128229960476525763078466544488nat, 0, 12747518552530283230543401341250109462426090754551320791249353374351704944904nat, modulus());
}

/// Squarings 193 to 208 of the power below.
#[verifier::spinoff_prover]
#[verifier::rlimit(50)]
proof fn lemma_pow_order_by_125527_part12()
    requires
        mpow(7, 11872483274167083040406047135287229667741435162458657538634nat, modulus()) == 12747518552530283230543401341250109462426090754551320791249353374351704944904nat,
    ensures
        mpow(7, 778075063855813954136050705058183883505102694806890580451980488nat, modulus()) == 20727627303805919857228544753539354498040539501529951079913401775608985990056nat,
{
    lemma_mpow_next(7, 11872483274167083040406047135287229667741435162458657538634nat, 12747518552530283230543401341250109462426090754551320791249353374351704944904nat, 1, 34234465141217733869638194309378076616570987509099536133335436593943852604771nat, modulus());
    lemma_mpow_next(7, 23744966548334166080812094270574459335482870324917315077269nat, 34234465141217733869638194309378076616570987509099536133335436593943852604771nat, 1, 25457132122671820762710246669498193072999770207546269641170689504724004947907nat, modulus());
    lemma_mpow_next(7, 47489933096668332161624188541148918670965740649834630154539nat, 25457132122671820762710246669498193072999770207546269641170689504724004947907nat, 1, 23443866381675788636105778301644936798647216813396375231579595147599866685757nat, modulus());
    lemma_mpow_next(7, 94979866193336664323248377082297837341931481299669260309079nat, 23443866381675788636105778301644936798647216813396375231579595147599866685757nat, 1, 45561582144195428213687308403354219603848761484587861956356841402853087630411nat, modulus());
    lemma_mpow_next(7, 189959732386673328646496754164595674683862962599338520618159nat, 45561582144195428213687308403354219603848761484587861956356841402853087630411nat, 0, 38716782814453081598574203874185454460856625031749403102524957405082073034081nat, modulus());
    lemma_mpow_next(7, 379919464773346657292993508329191349367725925198677041236318nat, 38716782814453081598574203874185454460856625031749403102524957405082073034081nat, 1, 19380769618237150832393880619778267155323858250548329564417314122850530570965nat, modulus());
    lemma_mpow_next(7, 759838929546693314585987016658382698735451850397354082472637nat, 19380769618237150832393880619778267155323858250548329564417314122850530570965nat, 0, 11406702580936560753815579167926567592016100537902322456082232566197066582094nat, modulus());
    lemma_mpow_next(7, 1519677859093386629171974033316765397470903700794708164945274nat, 11406702580936560753815579167926567592016100537902322456082232566197066582094nat, 0, 21731469786623835594871911598189989521030313601587311454307348823539136668493nat, modulus());
    lemma_mpow_next(7, 3039355718186773258343948066633530794941807401589416329890548nat, 21731469786623835594871911598189989521030313601587311454307348823539136668493nat, 1, 21785158420464042175735651694313711649909548609164738813578399319771443376589nat, modulus());
    lemma_mpow_next(7, 6078711436373546516687896133267061589883614803178832659781097nat, 21785158420464042175735651694313711649909548609164738813578399319771443376589nat, 1, 11719102013265656235643560934246503779665992619448098965971050139890999962862nat, modulus());
    lemma_mpow_next(7, 12157422872747093033375792266534123179767229606357665319562195nat, 11719102013265656235643560934246503779665992619448098965971050139890999962862nat, 0, 50063907453820172811886135473402656277874452811427981219120739403499914811851nat, modulus());
    lemma_mpow_next(7, 24314845745494186066751584533068246359534459212715330639124390nat, 50063907453820172811886135473402656277874452811427981219120739403499914811851nat, 0, 43281853197533187386209196229776724617221818646579033845448929794810336111396nat, modulus());
    lemma_mpow_next(7, 48629691490988372133503169066136492719068918425430661278248780nat, 43281853197533187386209196229776724617221818646579033845448929794810336111396nat, 1, 44915085580789530557553935515815469046941426820660201517012267410207194793736nat, modulus());
    lemma_mpow_next(7, 97259382981976744267006338132272985438137836850861322556497561nat, 44915085580789530557553935515815469046941426820660201517012267410207194793736nat, 0, 47250248301941586936810448779182407621781142845888967111463817239519770925737nat, modulus());
    lemma_mpow_next(7, 194518765963953488534012676264545970876275673701722645112995122nat, 47250248301941586936810448779182407621781142845888967111463817239519770925737nat, 0, 21806704405163056757039558408040356679224786800719399697249479487495735043967nat, modulus());
    lemma_mpow_next(7, 389037531927906977068025352529091941752551347403445290225990244nat, 21806704405163056757039558408040356679224786800719399697249479487495735043967nat, 0, 20727627303805919857228544753539354498040539501529951079913401775608985990056nat, modulus());
}

/// Squarings 209 to 224 of the power below.
#[verifier::spinoff_prover]
#[verifier::rlimit(50)]
proof fn lemma_pow_order_by_125527_part13()
    requires
        mpow(7, 778075063855813954136050705058183883505102694806890580451980488nat, modulus()) == 20727627303805919857228544753539354498040539501529951079913401775608985990056nat,
    ensures
        mpow(7, 50991927384854623298260219006693138989390410206864381080500993261568nat, modulus()) == 39247155963511210029207265216211407408405391496932601192069185085955352426788nat,
{
    lemma_mpow_next(7, 778075063855813954136050705058183883505102694806890580451980488nat, 20727627303805919857228544753539354498040539501529951079913401775608985990056nat, 0, 7475233258223836922456015750146989842844343964820235331876389924032491951374nat, modulus());
    lemma_mpow_next(7, 1556150127711627908272101410116367767010205389613781160903960976nat, 7475233258223836922456015750146989842844343964820235331876389924032491951374nat, 0, 27110463939910265759957543004231815582177367271484059411251019075775573147118nat, modulus());
    lemma_mpow_next(7, 3112300255423255816544202820232735534020410779227562321807921952nat, 27110463939910265759957543004231815582177367271484059411251019075775573147118nat, 0, 18041863081222071333460355532807434581268478092715328532199945409735062231586nat, modulus());
    lemma_mpow_next(7, 6224600510846511633088405640465471068040821558455124643615843904nat, 18041863081222071333460355532807434581268478092715328532199945409735062231586nat, 0, 16883213903288536015128082832789311450580412866051557009299940542022071777667nat, modulus());
    lemma_mpow_next(7, 12449201021693023266176811280930942136081643116910249287231687808nat, 16883213903288536015128082832789311450580412866051557009299940542022071777667nat, 0, 15935088936038552712527016172790056058803099535227059750028087176828941510647nat, modulus());
    lemma_mpow_next(7, 24898402043386046532353622561861884272163286233820498574463375616nat, 15935088936038552712527016172790056058803099535227059750028087176828941510647nat, 0, 8058585197616791597850262905528997628183998196882849921222464301627649443719nat, modulus());
    lemma_mpow_next(7, 49796804086772093064707245123723768544326572467640997148926751232nat, 8058585197616791597850262905528997628183998196882849921222464301627649443719nat, 0, 45460730736996374990629323640123376732050144118125995735291921154475014770579nat, modulus());
    lemma_mpow_next(7, 99593608173544186129414490247447537088653144935281994297853502464nat, 45460730736996374990629323640123376732050144118125995735291921154475014770579nat, 0, 4249044717130671450383551828341123680548152664170756139619622531266346902395nat, modulus());
    lemma_mpow_next(7, 199187216347088372258828980494895074177306289870563988595707004928nat, 4249044717130671450383551828341123680548152664170756139619622531266346902395nat, 0, 8254539241089288486582121522645530758409458243997530048697067219389928411615nat, modulus());
    lemma_mpow_next(7, 398374432694176744517657960989790148354612579741127977191414009856nat, 8254539241089288486582121522645530758409458243997530048697067219389928411615nat, 0, 45173257979316209107759857631954318350665185556746965468733252463058865535249nat, modulus());
    lemma_mpow_next(7, 796748865388353489035315921979580296709225159482255954382828019712nat, 45173257979316209107759857631954318350665185556746965468733252463058865535249nat, 0, 3781475435722511760655094564495044106889806375226199131529716003115794018241nat, modulus());
    lemma_mpow_next(7, 1593497730776706978070631843959160593418450318964511908765656039424nat, 3781475435722511760655094564495044106889806375226199131529716003115794018241nat, 0, 10419156700641249427501821145069946285459434423336544238003275405359868406584nat, modulus());
    lemma_mpow_next(7, 3186995461553413956141263687918321186836900637929023817531312078848nat, 10419156700641249427501821145069946285459434423336544238003275405359868406584nat, 0, 23837013302543780113550698045293603443409896820939744198196550197165080394589nat, modulus());
    lemma_mpow_next(7, 6373990923106827912282527375836642373673801275858047635062624157696nat, 23837013302543780113550698045293603443409896820939744198196550197165080394589nat, 0, 48396264356681685318497971731186932374210555593698326155023547505836458271390nat, modulus());
    lemma_mpow_next(7, 12747981846213655824565054751673284747347602551716095270125248315392nat, 48396264356681685318497971731186932374210555593698326155023547505836458271390nat, 0, 1601282312139370194525216126791478759696034372705638336932500225552029181092nat, modulus());
    lemma_mpow_next(7, 25495963692427311649130109503346569494695205103432190540250496630784nat, 1601282312139370194525216126791478759696034372705638336932500225552029181092nat, 0, 39247155963511210029207265216211407408405391496932601192069185085955352426788nat, modulus());
}

/// Squarings 225 to 237 of the power below.
#[verifier::spinoff_prover]
#[verifier::rlimit(50)]
proof fn lemma_pow_order_by_125527_part14()
    requires
        mpow(7, 50991927384854623298260219006693138989390410206864381080500993261568nat, modulus()) == 39247155963511210029207265216211407408405391496932601192069185085955352426788nat,
    ensures
        mpow(7, 417725869136729074059347714102830194601086240414633009811464136798765056nat, modulus()) == 27966497065103907670110754930460859429183346056121669143369624627650089262159nat,
{
    lemma_mpow_next(7, 50991927384854623298260219006693138989390410206864381080500993261568nat, 39247155963511210029207265216211407408405391496932601192069185085955352426788nat, 0, 11867613893310031886836844228107138703602851562976250564497515560327221359364nat, modulus());
    lemma_mpow_next(7, 101983854769709246596520438013386277978780820413728762161001986523136nat, 11867613893310031886836844228107138703602851562976250564497515560327221359364nat, 0, 29125899699073946197204124039137263880187658276994179436375148479901446634861nat, modulus());
    lemma_mpow_next(7, 203967709539418493193040876026772555957561640827457524322003973046272nat, 29125899699073946197204124039137263880187658276994179436375148479901446634861nat, 0, 24847318896828964966037231113934913737776580856862553984524561052455153285553nat, modulus());
    lemma_mpow_next(7, 407935419078836986386081752053545111915123281654915048644007946092544nat, 24847318896828964966037231113934913737776580856862553984524561052455153285553nat, 0, 7810255924905546601262620413504191050965597564340234526283790298049156962670nat, modulus());
    lemma_mpow_next(7, 815870838157673972772163504107090223830246563309830097288015892185088nat, 7810255924905546601262620413504191050965597564340234526283790298049156962670nat, 0, 40945327987447631826398403244323094506445508562367450541099272094306784794504nat, modulus());
    lemma_mpow_next(7, 1631741676315347945544327008214180447660493126619660194576031784370176nat, 40945327987447631826398403244323094506445508562367450541099272094306784794504nat, 0, 27525128085260490166934471752775371439566278240581567028279014925303570676439nat, modulus());
    lemma_mpow_next(7, 3263483352630695891088654016428360895320986253239320389152063568740352nat, 27525128085260490166934471752775371439566278240581567028279014925303570676439nat, 0, 39655449895307885580399867243100249290640607728145705802119025706864196165385nat, modulus());
    lemma_mpow_next(7, 6526966705261391782177308032856721790641972506478640778304127137480704nat, 39655449895307885580399867243100249290640607728145705802119025706864196165385nat, 0, 48408870604379217949677108877553870076286734829276003744074751128061444869063nat, modulus());
    lemma_mpow_next(7, 13053933410522783564354616065713443581283945012957281556608254274961408nat, 48408870604379217949677108877553870076286734829276003744074751128061444869063nat, 0, 16498624009588625608692261117586459907901343252960258286064978367260906493873nat, modulus());
    lemma_mpow_next(7, 26107866821045567128709232131426887162567890025914563113216508549922816nat, 16498624009588625608692261117586459907901343252960258286064978367260906493873nat, 0, 41630657668714966793683149051293752307973351764789248789080023191775027587671nat, modulus());
    lemma_mpow_next(7, 52215733642091134257418464262853774325135780051829126226433017099845632nat, 41630657668714966793683149051293752307973351764789248789080023191775027587671nat, 0, 34622737872767765611344918001798140675701694714685281185979344969895898971691nat, modulus());
    lemma_mpow_next(7, 104431467284182268514836928525707548650271560103658252452866034199691264nat, 34622737872767765611344918001798140675701694714685281185979344969895898971691nat, 0, 41017151423698987144894129303069991310079901470912542143544885004496018974742nat, modulus());
    lemma_mpow_next(7, 208862934568364537029673857051415097300543120207316504905732068399382528nat, 41017151423698987144894129303069991310079901470912542143544885004496018974742nat, 0, 27966497065103907670110754930460859429183346056121669143369624627650089262159nat, modulus());
}

/// The generator to the power `(n - 1) / 125527` modulo the field order `n`.
proof fn lemma_pow_order_by_125527()
    ensures
        mpow(7, 417725869136729074059347714102830194601086240414633009811464136798765056nat, modulus()) == 27966497065103907670110754930460859429183346056121669143369624627650089262159nat,
{
    lemma_mpow_first(7, modulus());
    lemma_pow_order_by_125527_part0();
    lemma_pow_order_by_125527_part1();
    lemma_pow_order_by_125527_part2();
    lemma_pow_order_by_125527_part3();
    lemma_pow_order_by_125527_part4();
    lemma_pow_order_by_125527_part5();
    lemma_pow_order_by_125527_part6();
    lemma_pow_order_by_125527_part7();
    lemma_pow_order_by_125527_part8();
    lemma_pow_order_by_125527_part9();
    lemma_pow_order_by_125527_part10();
    lemma_pow_order_by_125527_part11();
    lemma_pow_order_by_125527_part12();
    lemma_pow_order_by_125527_part13();
    lemma_pow_order_by_125527_part14();
}

/// Squarings 1 to 16 of the power below.
#[verifier::spinoff_prover]
#[verifier::rlimit(50)]
proof fn lemma_pow_order_by_859267_part0()
    requires
        mpow(7, 1, modulus()) == 7,
    ensures
        mpow(7, 72432, modulus()) == 20458929062126071403957479481088099186151342520625643952683256050158730868808nat,
{
    lemma_mpow_next(7, 1, 7, 0, 49, modulus());
    lemma_mpow_next(7, 2, 49, 0, 2401, modulus());
    lemma_mpow_next(7, 4, 2401, 0, 5764801, modulus());
    lemma_mpow_next(7, 8, 5764801, 1, 232630513987207, modulus());
    lemma_mpow_next(7, 17, 232630513987207, 1, 378818692265664781682717625943nat, modulus());
    lemma_mpow_next(7, 35, 378818692265664781682717625943nat, 0, 143503601609868434285603076356671071740077383739246066639249nat, modulus());
    lemma_mpow_next(7, 70, 143503601609868434285603076356671071740077383739246066639249nat, 1, 23090650641062174921068565345750571262647869822733968056537727939560682009147nat, modulus());
    lemma_mpow_next(7, 141, 23090650641062174921068565345750571262647869822733968056537727939560682009147nat, 0, 25228101048912081718537208257665570521420132798324892982751777046438845222987nat, modulus());
    lemma_mpow_next(7, 282, 25228101048912081718537208257665570521420132798324892982751777046438845222987nat, 1, 37150822988412115556937594197650284027015680908304042161007492385691596926506nat, modulus());
    lemma_mpow_next(7, 565, 37150822988412115556937594197650284027015680908304042161007492385691596926506nat, 1, 7773627793731323080040339321552034622152118800826315423273747606126795476482nat, modulus());
    lemma_mpow_next(7, 1131, 7773627793731323080040339321552034622152118800826315423273747606126795476482nat, 1, 50167289066568271388763208649896218893513771854327508455313160313834162768202nat, modulus());
    lemma_mpow_next(7, 2263, 50167289066568271388763208649896218893513771854327508455313160313834162768202nat, 1, 24999944264604671426147525110915379483882875830827642672563385369283829246863nat, modulus());
    lemma_mpow_next(7, 4527, 24999944264604671426147525110915379483882875830827642672563385369283829246863nat, 0, 23881871736319351322584144742106724017147175983009346997371086847472649475066nat, modulus());
    lemma_mpow_next(7, 9054, 23881871736319351322584144742106724017147175983009346997371086847472649475066nat, 0, 35635601413784399758195741413607858276782694106243549573112448718483843746922nat, modulus());
    lemma_mpow_next(7, 18108, 35635601413784399758195741413607858276782694106243549573112448718483843746922nat, 0, 51666182844126567374479093738943509476102730447976980462752181928777421007090nat, modulus());
    lemma_mpow_next(7, 36216, 51666182844126567374479093738943509476102730447976980462752181928777421007090nat, 0, 20458929062126071403957479481088099186151342520625643952683256050158730868808nat, modulus());
}

/// Squarings 17 to 32 of the power below.
#[verifier::spinoff_prover]
#[verifier::rlimit(50)]
proof fn lemma_pow_order_by_859267_part1()
    requires
        mpow(7, 72432, modulus()) == 20458929062126071403957479481088099186151342520625643952683256050158730868808nat,
    ensures
        mpow(7, 4746912954, modulus()) == 4687989762133109540458719802101282624626451926681500648147662973322819354179nat,
{
    lemma_mpow_next(7, 72432, 20458929062126071403957479481088099186151342520625643952683256050158730868808nat, 0, 13406457143956055429083379422362667334832199078315881207634890452398474789109nat, modulus());
    lemma_mpow_next(7, 144864, 13406457143956055429083379422362667334832199078315881207634890452398474789109nat, 0, 32722315201337024491209502326873704123318200655654216757340474648394490078422nat, modulus());
    lemma_mpow_next(7, 289728, 32722315201337024491209502326873704123318200655654216757340474648394490078422nat, 1, 47784283682458847660633895938386087158907416311348763822415940730347474234015nat, modulus());
    lemma_mpow_next(7, 579457, 47784283682458847660633895938386087158907416311348763822415940730347474234015nat, 0, 30055465692100431115491936561742177748474966508970828200851336427746177035415nat, modulus());
    lemma_mpow_next(7, 1158914, 30055465692100431115491936561742177748474966508970828200851336427746177035415nat, 0, 47684418351947528410506365214511916594367686272192903322946551413293292596501nat, modulus());
    lemma_mpow_next(7, 2317828, 47684418351947528410506365214511916594367686272192903322946551413293292596501nat, 1, 50258275594321489689205478143660186684328833832981491524201389503863751636187nat, modulus());
    lemma_mpow_next(7, 4635657, 50258275594321489689205478143660186684328833832981491524201389503863751636187nat, 0, 47184001318645445898016690232334786405790042276991648855125743044953184018036nat, modulus());
    lemma_mpow_next(7, 9271314, 47184001318645445898016690232334786405790042276991648855125743044953184018036nat, 0, 16249950322157476361983824566259861050529104985697056178025999665316929414922nat, modulus());
    lemma_mpow_next(7, 18542628, 16249950322157476361983824566259861050529104985697056178025999665316929414922nat, 1, 18998791932290218116655850473676309845159675799657927365806148333328362112284nat, modulus());
    lemma_mpow_next(7, 37085257, 18998791932290218116655850473676309845159675799657927365806148333328362112284nat, 0, 14456694670070238961618512548659534116297387852099994350650407009943978092316nat, modulus());
    lemma_mpow_next(7, 74170514, 14456694670070238961618512548659534116297387852099994350650407009943978092316nat, 1, 33330573854915117811293537754260884402751415618512570957172762133442472900389nat, modulus());
    lemma_mpow_next(7, 148341029, 33330573854915117811293537754260884402751415618512570957172762133442472900389nat, 1, 48131456886875548232818358741272541276912884874589603535370469412191086546362nat, modulus());
    lemma_mpow_next(7, 296682059, 48131456886875548232818358741272541276912884874589603535370469412191086546362nat, 1, 3559367257106951189554234807102657664613697534984862802831116757748088892448nat, modulus());
    lemma_mpow_next(7, 593364119, 3559367257106951189554234807102657664613697534984862802831116757748088892448nat, 0, 44792088154398329005540548633151935732597813328649902108991362902858589871256nat, modulus());
    lemma_mpow_next(7, 1186728238, 44792088154398329005540548633151935732597813328649902108991362902858589871256nat, 1, 29749092251945476809888173270045322960857836274069519021866191874395268559091nat, modulus());
    lemma_mpow_next(7, 2373456477, 29749092251945476809888173270045322960857836274069519021866191874395268559091nat, 0, 4687989762133109540458719802101282624626451926681500648147662973322819354179nat, modulus());
}

/// Squarings 33 to 48 of the power below.
#[verifier::spinoff_prover]
#[verifier::rlimit(50)]
proof fn lemma_pow_order_by_859267_part2()
    requires
        mpow(7, 4746912954, modulus()) == 4687989762133109540458719802101282624626451926681500648147662973322819354179nat,
    ensures
        mpow(7, 311093687413647, modulus()) == 36694253677506142540023733002981741803933236952671278984376635032492820536823nat,
{
    lemma_mpow_next(7, 4746912954, 4687989762133109540458719802101282624626451926681500648147662973322819354179nat, 1, 14605389708014698282712001071544313738528779318724357413755659223036306779400nat, modulus());
    lemma_mpow_next(7, 9493825909, 14605389708014698282712001071544313738528779318724357413755659223036306779400nat, 1, 24117932194422421660939953519932424310249453799687245973440083366325739017943nat, modulus());
    lemma_mpow_next(7, 18987651819, 24117932194422421660939953519932424310249453799687245973440083366325739017943nat, 1, 19680130670003964481382836502576740650452022272756424109063833205771649277891nat, modulus());
    lemma_mpow_next(7, 37975303639, 19680130670003964481382836502576740650452022272756424109063833205771649277891nat, 0, 8648147743954707517377212867290640830727908880117568451988883973727457628853nat, modulus());
    lemma_mpow_next(7, 75950607278, 8648147743954707517377212867290640830727908880117568451988883973727457628853nat, 1, 35171264853090410224752413405544380451293495045786097505485105783931514163220nat, modulus());
    lemma_mpow_next(7, 151901214557, 35171264853090410224752413405544380451293495045786097505485105783931514163220nat, 0, 48983064361769499220041524612750629393580378210993342901680707140890416315939nat, modulus());
    lemma_mpow_next(7, 303802429114, 48983064361769499220041524612750629393580378210993342901680707140890416315939nat, 1, 36848536172449368136918734224142849450144953829829928204807478238088830332562nat, modulus());
    lemma_mpow_next(7, 607604858229, 36848536172449368136918734224142849450144953829829928204807478238088830332562nat, 1, 6920428604464370273748962744150345707293660436894530584036705550266921920639nat, modulus());
    lemma_mpow_next(7, 1215209716459, 6920428604464370273748962744150345707293660436894530584036705550266921920639nat, 1, 20589961690178191348959344019637988878399472161493351639101912978057490755912nat, modulus());
    lemma_mpow_next(7, 2430419432919, 20589961690178191348959344019637988878399472161493351639101912978057490755912nat, 0, 23147663911082809849040038876346387555574052502764808927148198285679526510095nat, modulus());
    lemma_mpow_next(7, 4860838865838, 23147663911082809849040038876346387555574052502764808927148198285679526510095nat, 0, 43066077374323424673241842166042144613798227452499496488356900441931693836309nat, modulus());
    lemma_mpow_next(7, 9721677731676, 43066077374323424673241842166042144613798227452499496488356900441931693836309nat, 0, 48468698284925721072260377366515720719287698616010981845820695023937345116201nat, modulus());
    lemma_mpow_next(7, 19443355463352, 48468698284925721072260377366515720719287698616010981845820695023937345116201nat, 1, 2025738720953720270341914104294503647519106065099167169165814249009689217033nat, modulus());
    lemma_mpow_next(7, 38886710926705, 2025738720953720270341914104294503647519106065099167169165814249009689217033nat, 1, 18701733616025639861629461219096140937831675225501379212081375181189963925502nat, modulus());
    lemma_mpow_next(7, 77773421853411, 18701733616025639861629461219096140937831675225501379212081375181189963925502nat, 1, 41866086285150436134694870276478457684529323923196302438390996213322320347531nat, modulus());
    lemma_mpow_next(7, 155546843706823, 41866086285150436134694870276478457684529323923196302438390996213322320347531nat, 1, 36694253677506142540023733002981741803933236952671278984376635032492820536823nat, modulus());
}

/// Squarings 49 to 64 of the power below.
#[verifier::spinoff_prover]
#[verifier::rlimit(50)]
proof fn lemma_pow_order_by_859267_part3()
    requires
        mpow(7, 311093687413647, modulus()) == 36694253677506142540023733002981741803933236952671278984376635032492820536823nat,
    ensures
        mpow(7, 20387835898340782187nat, modulus()) == 18262621551174050611581698944524088606712252594692712421682177617687387688409nat,
{
    lemma_mpow_next(7, 311093687413647, 36694253677506142540023733002981741803933236952671278984376635032492820536823nat, 0, 45428890441970909128386920836465495948461487568725513535696694289161738017249nat, modulus());
    lemma_mpow_next(7, 622187374827294, 45428890441970909128386920836465495948461487568725513535696694289161738017249nat, 0, 2786131741558506879790838561901367369197592232798686865936003926092592695153nat, modulus());
    lemma_mpow_next(7, 1244374749654588, 2786131741558506879790838561901367369197592232798686865936003926092592695153nat, 1, 47230273946166258680060441437072173900247659551074735529277855236252350368520nat, modulus());
    lemma_mpow_next(7, 2488749499309177, 47230273946166258680060441437072173900247659551074735529277855236252350368520nat, 1, 51832197608440989242495810214547172240118540898139865271073267116070031585498nat, modulus());
    lemma_mpow_next(7, 4977498998618355, 51832197608440989242495810214547172240118540898139865271073267116070031585498nat, 0, 20579882167562329890400447252559455038525033309448934071045076160431201732693nat, modulus());
    lemma_mpow_next(7, 9954997997236710, 20579882167562329890400447252559455038525033309448934071045076160431201732693nat, 0, 4615339700782937212284474458972424201134734605509578945106584268021430926001nat, modulus());
    lemma_mpow_next(7, 19909995994473420, 4615339700782937212284474458972424201134734605509578945106584268021430926001nat, 0, 37328227555347427772930271927242145261070142688180756943299456273431162610163nat, modulus());
    lemma_mpow_next(7, 39819991988946840, 37328227555347427772930271927242145261070142688180756943299456273431162610163nat, 0, 48145085091261024926434313618034742292522725189944491194707454008906888968957nat, modulus());
    lemma_mpow_next(7, 79639983977893680, 48145085091261024926434313618034742292522725189944491194707454008906888968957nat, 0, 4119698435898134358470273992309858747196758556416158019308698363447208025345nat, modulus());
    lemma_mpow_next(7, 159279967955787360, 4119698435898134358470273992309858747196758556416158019308698363447208025345nat, 1, 32244885484765830378340389739835972924731219373116571241402444262576715815608nat, modulus());
    lemma_mpow_next(7, 318559935911574721, 32244885484765830378340389739835972924731219373116571241402444262576715815608nat, 1, 50797707567226936898711409504294335072504024138909258851955344335451655808408nat, modulus());
    lemma_mpow_next(7, 637119871823149443, 50797707567226936898711409504294335072504024138909258851955344335451655808408nat, 0, 29995235721350194994216226947221411010321141391596936757222040372602054073981nat, modulus());
    lemma_mpow_next(7, 1274239743646298886nat, 29995235721350194994216226947221411010321141391596936757222040372602054073981nat, 1, 15576047106712142599197814439424865913426687380236102814681120517542331569424nat, modulus());
    lemma_mpow_next(7, 2548479487292597773nat, 15576047106712142599197814439424865913426687380236102814681120517542331569424nat, 0, 37325103983106057343059224979135945228492246768854358086756042576557867410132nat, modulus());
    lemma_mpow_next(7, 5096958974585195546nat, 37325103983106057343059224979135945228492246768854358086756042576557867410132nat, 1, 13854904060406212417077029163591451947121838892179626559634163839614980531511nat, modulus());
    lemma_mpow_next(7, 10193917949170391093nat, 13854904060406212417077029163591451947121838892179626559634163839614980531511nat, 1, 18262621551174050611581698944524088606712252594692712421682177617687387688409nat, modulus());
}

/// Squarings 65 to 80 of the power below.
#[verifier::spinoff_prover]
#[verifier::rlimit(50)]
proof fn lemma_pow_order_by_859267_part4()
    requires
        mpow(7, 20387835898340782187nat, modulus()) == 18262621551174050611581698944524088606712252594692712421682177617687387688409nat,
    ensures
        mpow(7, 1336137213433661501436841nat, modulus()) == 16957385523150278354932340392348809611040631824121140781761103783534041513915nat,
{
    lemma_mpow_next(7, 20387835898340782187nat, 18262621551174050611581698944524088606712252594692712421682177617687387688409nat, 0, 2521394690007574073558219974886252155255497054397286039523046465876903625909nat, modulus());
    lemma_mpow_next(7, 40775671796681564374nat, 2521394690007574073558219974886252155255497054397286039523046465876903625909nat, 1, 34104729748732976211516423063395290288439397725284702495698900589301635169193nat, modulus());
    lemma_mpow_next(7, 81551343593363128749nat, 34104729748732976211516423063395290288439397725284702495698900589301635169193nat, 1, 17467096545518148422530294407235493170336477379636972744564218693917064945712nat, modulus());
    lemma_mpow_next(7, 163102687186726257499nat, 17467096545518148422530294407235493170336477379636972744564218693917064945712nat, 1, 47653866893870890523228443931790575192907785770858842342530740907069290134186nat, modulus());
    lemma_mpow_next(7, 326205374373452514999nat, 47653866893870890523228443931790575192907785770858842342530740907069290134186nat, 0, 20742963170929015004970151200216683697585725023631289748649386955707481794498nat, modulus());
    lemma_mpow_next(7, 652410748746905029998nat, 20742963170929015004970151200216683697585725023631289748649386955707481794498nat, 0, 27042017476410958990548044164397690210393357901077585316933719374620237151065nat, modulus());
    lemma_mpow_next(7, 1304821497493810059996nat, 27042017476410958990548044164397690210393357901077585316933719374620237151065nat, 1, 17064243570889058001685198722820028966426234551014465052360597291457887526381nat, modulus());
    lemma_mpow_next(7, 2609642994987620119993nat, 17064243570889058001685198722820028966426234551014465052360597291457887526381nat, 1, 15995467007106898431306019950093421262763186967854586052325089691602505576951nat, modulus());
    lemma_mpow_next(7, 5219285989975240239987nat, 15995467007106898431306019950093421262763186967854586052325089691602505576951nat, 1, 48661501574194554398375940929867066655553677314315748208570756235102679545110nat, modulus());
    lemma_mpow_next(7, 10438571979950480479975nat, 48661501574194554398375940929867066655553677314315748208570756235102679545110nat, 0, 7567820954800092852892445606617970708250306074400002454416647567268233447845nat, modulus());
    lemma_mpow_next(7, 20877143959900960959950nat, 7567820954800092852892445606617970708250306074400002454416647567268233447845nat, 1, 45146889124857060988912355573752307649146379541903809248558356932997970711019nat, modulus());
    lemma_mpow_next(7, 41754287919801921919901nat, 45146889124857060988912355573752307649146379541903809248558356932997970711019nat, 0, 9267286050050754638364086060960167381528760686320971557505220174103740668224nat, modulus());
    lemma_mpow_next(7, 83508575839603843839802nat, 9267286050050754638364086060960167381528760686320971557505220174103740668224nat, 1, 13091780899013241876462429220710536854618328803047660128987433458762095955231nat, modulus());
    lemma_mpow_next(7, 167017151679207687679605nat, 13091780899013241876462429220710536854618328803047660128987433458762095955231nat, 0, 5576610509104758072014909131424966247798676109727661437120418062190717340718nat, modulus());
    lemma_mpow_next(7, 334034303358415375359210nat, 5576610509104758072014909131424966247798676109727661437120418062190717340718nat, 0, 48420758167754497236452951762850642287839371476111048281858558025618390146067nat, modulus());
    lemma_mpow_next(7, 668068606716830750718420nat, 48420758167754497236452951762850642287839371476111048281858558025618390146067nat, 1, 16957385523150278354932340392348809611040631824121140781761103783534041513915nat, modulus());
}

/// Squarings 81 to 96 of the power below.
#[verifier::spinoff_prover]
#[verifier::rlimit(50)]
proof fn lemma_pow_order_by_859267_part5()
    requires
        mpow(7, 1336137213433661501436841nat, modulus()) == 16957385523150278354932340392348809611040631824121140781761103783534041513915nat,
    ensures
        mpow(7, 87565088419588440158164828441nat, modulus()) == 10876101639483922113885250061508832798422021898314071714293916580853248428692nat,
{
    lemma_mpow_next(7, 1336137213433661501436841nat, 16957385523150278354932340392348809611040631824121140781761103783534041513915nat, 0, 128563492450432562499736010210180371936352793279824314754543412671459245098nat, modulus());
    lemma_mpow_next(7, 2672274426867323002873682nat, 128563492450432562499736010210180371936352793279824314754543412671459245098nat, 1, 25770748384856142334174481517176612612990948773269667362911909169718393711005nat, modulus());
    lemma_mpow_next(7, 5344548853734646005747365nat, 25770748384856142334174481517176612612990948773269667362911909169718393711005nat, 0, 20312713721389810728546340128598186078577465515930839998617348270780593160153nat, modulus());
    lemma_mpow_next(7, 10689097707469292011494730nat, 20312713721389810728546340128598186078577465515930839998617348270780593160153nat, 0, 14811732086581841323486889363665878515893116077537027423739987547901077021636nat, modulus());
    lemma_mpow_next(7, 21378195414938584022989460nat, 14811732086581841323486889363665878515893116077537027423739987547901077021636nat, 0, 1569945599973386082252433360691268480077019522974917005997667039562341095540nat, modulus());
    lemma_mpow_next(7, 42756390829877168045978920nat, 1569945599973386082252433360691268480077019522974917005997667039562341095540nat, 0, 6734874747282117913747642019187665101076351966924143001271861297080519161340nat, modulus());
    lemma_mpow_next(7, 85512781659754336091957840nat, 6734874747282117913747642019187665101076351966924143001271861297080519161340nat, 0, 14695911304513350749000992281502032035358652818902442169412920563781686223623nat, modulus());
    lemma_mpow_next(7, 171025563319508672183915680nat, 14695911304513350749000992281502032035358652818902442169412920563781686223623nat, 1, 39509868915590925269902006007002797244651722230133103713465239509877238387316nat, modulus());
    lemma_mpow_next(7, 342051126639017344367831361nat, 39509868915590925269902006007002797244651722230133103713465239509877238387316nat, 0, 35491881785614825955992253953597343839372186260070648020396890975051992914088nat, modulus());
    lemma_mpow_next(7, 684102253278034688735662722nat, 35491881785614825955992253953597343839372186260070648020396890975051992914088nat, 0, 36956960865644302591424412570227969617712816940434632549212460333122797740868nat, modulus());
    lemma_mpow_next(7, 1368204506556069377471325444nat, 36956960865644302591424412570227969617712816940434632549212460333122797740868nat, 0, 4113761389990301475091516500090100233315949738527870138104839254627451919279nat, modulus());
    lemma_mpow_next(7, 2736409013112138754942650888nat, 4113761389990301475091516500090100233315949738527870138104839254627451919279nat, 1, 16175471365646705923187802410634846819157187230668803894774537790785916267454nat, modulus());
    lemma_mpow_next(7, 5472818026224277509885301777nat, 16175471365646705923187802410634846819157187230668803894774537790785916267454nat, 1, 4679507429657911698213304330448793545729568087170763710690338510484376793071nat, modulus());
    lemma_mpow_next(7, 10945636052448555019770603555nat, 4679507429657911698213304330448793545729568087170763710690338510484376793071nat, 0, 27771097787610176063075707243886349752282381502667042074130652700788435024140nat, modulus());
    lemma_mpow_next(7, 21891272104897110039541207110nat, 27771097787610176063075707243886349752282381502667042074130652700788435024140nat, 0, 48296155321282648808661511568663820287652323618339952953449600349462526419388nat, modulus());
    lemma_mpow_next(7, 43782544209794220079082414220nat, 48296155321282648808661511568663820287652323618339952953449600349462526419388nat, 1, 10876101639483922113885250061508832798422021898314071714293916580853248428692nat, modulus());
}

/// Squarings 97 to 112 of the power below.
#[verifier::spinoff_prover]
#[verifier::rlimit(50)]
proof fn lemma_pow_order_by_859267_part6()
    requires
        mpow(7, 87565088419588440158164828441nat, modulus()) == 10876101639483922113885250061508832798422021898314071714293916580853248428692nat,
    ensures
        mpow(7, 5738665634666148014205490196715163nat, modulus()) == 3924565298544286860378976721142093047297690271030494856026409069738401218221nat,
{
    lemma_mpow_next(7, 87565088419588440158164828441nat, 10876101639483922113885250061508832798422021898314071714293916580853248428692nat, 0, 7726937664760500795063759619671920135575555926819876584894226988018527301146nat, modulus());
    lemma_mpow_next(7, 175130176839176880316329656882nat, 7726937664760500795063759619671920135575555926819876584894226988018527301146nat, 0, 463730617022819772361439286521196222356502537494063587514589870555463592002nat, modulus());
    lemma_mpow_next(7, 350260353678353760632659313764nat, 463730617022819772361439286521196222356502537494063587514589870555463592002nat, 0, 49146741527418649993481538314602686749605983900983254333634968405666719326409nat, modulus());
    lemma_mpow_next(7, 700520707356707521265318627528nat, 49146741527418649993481538314602686749605983900983254333634968405666719326409nat, 1, 8789861088998321950803127054127684871015652542906652273412070139845521155191nat, modulus());
    lemma_mpow_next(7, 1401041414713415042530637255057nat, 8789861088998321950803127054127684871015652542906652273412070139845521155191nat, 0, 35884914038130630717285622863395014360031865852604233587147879599905065449896nat, modulus());
    lemma_mpow_next(7, 2802082829426830085061274510114nat, 35884914038130630717285622863395014360031865852604233587147879599905065449896nat, 1, 16398326039606720528514570193639813188615995172979019805349407552917108071838nat, modulus());
    lemma_mpow_next(7, 5604165658853660170122549020229nat, 16398326039606720528514570193639813188615995172979019805349407552917108071838nat, 1, 1652332019517838643766619798606409978404873124809730379823425911674266847335nat, modulus());
    lemma_mpow_next(7, 11208331317707320340245098040459nat, 1652332019517838643766619798606409978404873124809730379823425911674266847335nat, 0, 23363129111188716757333633705652705868300007048613762084555292697047314543109nat, modulus());
    lemma_mpow_next(7, 22416662635414640680490196080918nat, 23363129111188716757333633705652705868300007048613762084555292697047314543109nat, 1, 17157247908285306950594077859550280450068867404026765463662635698574255751326nat, modulus());
    lemma_mpow_next(7, 44833325270829281360980392161837nat, 17157247908285306950594077859550280450068867404026765463662635698574255751326nat, 0, 38182685066446328551474951050104387136941083172166831648877180065294366606492nat, modulus());
    lemma_mpow_next(7, 89666650541658562721960784323674nat, 38182685066446328551474951050104387136941083172166831648877180065294366606492nat, 0, 12566768866426301105544573533920273887264138065584339669091081341560695313332nat, modulus());
    lemma_mpow_next(7, 179333301083317125443921568647348nat, 12566768866426301105544573533920273887264138065584339669091081341560695313332nat, 1, 20026995029504358117356985030531879139842150027633675314238320718826808401242nat, modulus());
    lemma_mpow_next(7, 358666602166634250887843137294697nat, 20026995029504358117356985030531879139842150027633675314238320718826808401242nat, 1, 40518267560410385245037262106889034690818143704882413227935830556267214616609nat, modulus());
    lemma_mpow_next(7, 717333204333268501775686274589395nat, 40518267560410385245037262106889034690818143704882413227935830556267214616609nat, 0, 39315194362033468208987268967410007637487078986603101745542165846455016457997nat, modulus());
    lemma_mpow_next(7, 1434666408666537003551372549178790nat, 39315194362033468208987268967410007637487078986603101745542165846455016457997nat, 1, 6136963112922297437555175962874490723620344524253023420821384784704735507161nat, modulus());
    lemma_mpow_next(7, 2869332817333074007102745098357581nat, 6136963112922297437555175962874490723620344524253023420821384784704735507161nat, 1, 3924565298544286860378976721142093047297690271030494856026409069738401218221nat, modulus());
}

/// Squarings 113 to 128 of the power below.
#[verifier::spinoff_prover]
#[verifier::rlimit(50)]
proof fn lemma_pow_order_by_859267_part7()
    requires
        mpow(7, 5738665634666148014205490196715163nat, modulus()) == 3924565298544286860378976721142093047297690271030494856026409069738401218221nat,
    ensures
        mpow(7, 376089191033480676258971005531924984757nat, modulus()) == 27884891158551470664536517321068880561523847639338761939730201926844130178890nat,
{
    lemma_mpow_next(7, 5738665634666148014205490196715163nat, 3924565298544286860378976721142093047297690271030494856026409069738401218221nat, 1, 28426689226416271208034434297885726859578601469861951711677934103488679272163nat, modulus());
    lemma_mpow_next(7, 11477331269332296028410980393430327nat, 28426689226416271208034434297885726859578601469861951711677934103488679272163nat, 1, 47570399416427330748384594093406129314507794869409880854235408897444242151513nat, modulus());
    lemma_mpow_next(7, 22954662538664592056821960786860655nat, 47570399416427330748384594093406129314507794869409880854235408897444242151513nat, 1, 43198785683188663077072877610404249696203486280029485773208578274827155508903nat, modulus());
    lemma_mpow_next(7, 45909325077329184113643921573721311nat, 43198785683188663077072877610404249696203486280029485773208578274827155508903nat, 1, 43815499306369610418859529446593099589073640285685480540697419840407972975552nat, modulus());
    lemma_mpow_next(7, 91818650154658368227287843147442623nat, 43815499306369610418859529446593099589073640285685480540697419840407972975552nat, 0, 51916147737209535726401875713313614105950118299081021320252015877686100447641nat, modulus());
    lemma_mpow_next(7, 183637300309316736454575686294885246nat, 51916147737209535726401875713313614105950118299081021320252015877686100447641nat, 0, 43858045403250803705570835875394994287795173017957808611692733581640517091070nat, modulus());
    lemma_mpow_next(7, 367274600618633472909151372589770492nat, 43858045403250803705570835875394994287795173017957808611692733581640517091070nat, 1, 32849303555679941768752815211658787641990372220861269588824941335473789764115nat, modulus());
    lemma_mpow_next(7, 734549201237266945818302745179540985nat, 32849303555679941768752815211658787641990372220861269588824941335473789764115nat, 1, 9108749245710945956255908652458690770679501187350462875193153099374484470383nat, modulus());
    lemma_mpow_next(7, 1469098402474533891636605490359081971nat, 9108749245710945956255908652458690770679501187350462875193153099374484470383nat, 1, 32324937333516227115657193858163758586741181624641949749951205835786206877805nat, modulus());
    lemma_mpow_next(7, 2938196804949067783273210980718163943nat, 32324937333516227115657193858163758586741181624641949749951205835786206877805nat, 0, 13638033463825754847660380230645503567898718842192826999431548363697867133976nat, modulus());
    lemma_mpow_next(7, 5876393609898135566546421961436327886nat, 13638033463825754847660380230645503567898718842192826999431548363697867133976nat, 1, 31656295028712295367894594207465611466834151619375611456562555136708625232565nat, modulus());
    lemma_mpow_next(7, 11752787219796271133092843922872655773nat, 31656295028712295367894594207465611466834151619375611456562555136708625232565nat, 1, 46261369758257088628898939609099277417693491734111686308755251591891502721266nat, modulus());
    lemma_mpow_next(7, 23505574439592542266185687845745311547nat, 46261369758257088628898939609099277417693491734111686308755251591891502721266nat, 0, 25545613121976676301524743834145906358048215307825374564564961849133445176656nat, modulus());
    lemma_mpow_next(7, 47011148879185084532371375691490623094nat, 25545613121976676301524743834145906358048215307825374564564961849133445176656nat, 1, 12868600062302950794383225271074039514136794857511667779692463278689305949439nat, modulus());
    lemma_mpow_next(7, 94022297758370169064742751382981246189nat, 12868600062302950794383225271074039514136794857511667779692463278689305949439nat, 0, 30729985999705331707295075802035506982945486737234329406385095986599536884602nat, modulus());
    lemma_mpow_next(7, 188044595516740338129485502765962492378nat, 30729985999705331707295075802035506982945486737234329406385095986599536884602nat, 1, 27884891158551470664536517321068880561523847639338761939730201926844130178890nat, modulus());
}

/// Squarings 129 to 144 of the power below.
#[verifier::spinoff_prover]
#[verifier::rlimit(50)]
proof fn lemma_pow_order_by_859267_part8()
    requires
        mpow(7, 376089191033480676258971005531924984757nat, modulus()) == 27884891158551470664536517321068880561523847639338761939730201926844130178890nat,
    ensures
        mpow(7, 24647381223570189599307923818540235801054552nat, modulus()) == 3727551092134634205834017768190194833246499033538473980404051920414999043978nat,
{
    lemma_mpow_next(7, 376089191033480676258971005531924984757nat, 27884891158551470664536517321068880561523847639338761939730201926844130178890nat, 0, 30250863601608427475181362329677084344647854678448434997478151656622402986130nat, modulus());
    lemma_mpow_next(7, 752178382066961352517942011063849969514nat, 30250863601608427475181362329677084344647854678448434997478151656622402986130nat, 1, 46151258298599159560154206606758272377531750053577623691585121526464389434988nat, modulus());
    lemma_mpow_next(7, 1504356764133922705035884022127699939029nat, 46151258298599159560154206606758272377531750053577623691585121526464389434988nat, 0, 46017602111776574171509493169206631572182452742192866265904868541769301971209nat, modulus());
    lemma_mpow_next(7, 3008713528267845410071768044255399878058nat, 46017602111776574171509493169206631572182452742192866265904868541769301971209nat, 0, 9874554647315943484316061740021376767744875564569703035663421198483983366286nat, modulus());
    lemma_mpow_next(7, 6017427056535690820143536088510799756116nat, 9874554647315943484316061740021376767744875564569703035663421198483983366286nat, 1, 21412324958936700787974643916497630504570938852889754308697083647300886089784nat, modulus());
    lemma_mpow_next(7, 12034854113071381640287072177021599512233nat, 21412324958936700787974643916497630504570938852889754308697083647300886089784nat, 1, 2603270859134710154360407561745597838661598305056762202252391839588200705635nat, modulus());
    lemma_mpow_next(7, 24069708226142763280574144354043199024467nat, 2603270859134710154360407561745597838661598305056762202252391839588200705635nat, 0, 34997682655773161757691298273673045282766356837536748234878672222373632628464nat, modulus());
    lemma_mpow_next(7, 48139416452285526561148288708086398048934nat, 34997682655773161757691298273673045282766356837536748234878672222373632628464nat, 1, 24191734163098720747234914022817511922223896188864377107111950410828172041915nat, modulus());
    lemma_mpow_next(7, 96278832904571053122296577416172796097869nat, 24191734163098720747234914022817511922223896188864377107111950410828172041915nat, 0, 21319543215896552528851416747519994809810927470648715071675239431823176795103nat, modulus());
    lemma_mpow_next(7, 192557665809142106244593154832345592195738nat, 21319543215896552528851416747519994809810927470648715071675239431823176795103nat, 1, 8003401066143366157908022374823609838167396648939919371208062125999705342689nat, modulus());
    lemma_mpow_next(7, 385115331618284212489186309664691184391477nat, 8003401066143366157908022374823609838167396648939919371208062125999705342689nat, 0, 45249174836782145552487050361477236945041017798453150664689776103506183758667nat, modulus());
    lemma_mpow_next(7, 770230663236568424978372619329382368782954nat, 45249174836782145552487050361477236945041017798453150664689776103506183758667nat, 1, 5716614481390514322173828623007527111804091630443965967225591369639046375148nat, modulus());
    lemma_mpow_next(7, 1540461326473136849956745238658764737565909nat, 5716614481390514322173828623007527111804091630443965967225591369639046375148nat, 1, 49437809415359318528089758225778202538656081933583830574477829336893923870570nat, modulus());
    lemma_mpow_next(7, 3080922652946273699913490477317529475131819nat, 49437809415359318528089758225778202538656081933583830574477829336893923870570nat, 0, 29823672183030453488678999872013803564014002467496199212116178859072040209269nat, modulus());
    lemma_mpow_next(7, 6161845305892547399826980954635058950263638nat, 29823672183030453488678999872013803564014002467496199212116178859072040209269nat, 0, 38522314708369132580848346444407090328869403437980967263318718181577300518024nat, modulus());
    lemma_mpow_next(7, 12323690611785094799653961909270117900527276nat, 38522314708369132580848346444407090328869403437980967263318718181577300518024nat, 0, 3727551092134634205834017768190194833246499033538473980404051920414999043978nat, modulus());
}

/// Squarings 145 to 160 of the power below.
#[verifier::spinoff_prover]
#[verifier::rlimit(50)]
proof fn lemma_pow_order_by_859267_part9()
    requires
        mpow(7, 24647381223570189599307923818540235801054552nat, modulus()) == 3727551092134634205834017768190194833246499033538473980404051920414999043978nat,
    ensures
        mpow(7, 1615290775867895945580244095371852893457911121362nat, modulus()) == 13538254655702959066187794310031800431652811476007057390908896785736968686818nat,
{
    lemma_mpow_next(7, 24647381223570189599307923818540235801054552nat, 3727551092134634205834017768190194833246499033538473980404051920414999043978nat, 0, 19620083528558881427772383246199137464136944651882537291847061321093591377809nat, modulus());
    lemma_mpow_next(7, 49294762447140379198615847637080471602109104nat, 19620083528558881427772383246199137464136944651882537291847061321093591377809nat, 0, 2497494162622475665512729829043006112176013802062659340170010407203365240389nat, modulus());
    lemma_mpow_next(7, 98589524894280758397231695274160943204218208nat, 2497494162622475665512729829043006112176013802062659340170010407203365240389nat, 0, 7877434971321735617212395710886626140885576071439493930225012273077663382251nat, modulus());
    lemma_mpow_next(7, 197179049788561516794463390548321886408436416nat, 7877434971321735617212395710886626140885576071439493930225012273077663382251nat, 0, 8164622740370365832434591002868407595380806296336662305853771034918987601158nat, modulus());
    lemma_mpow_next(7, 394358099577123033588926781096643772816872832nat, 8164622740370365832434591002868407595380806296336662305853771034918987601158nat, 0, 16280786819477701821291707767781383541637310728545650516105130259829809653786nat, modulus());
    lemma_mpow_next(7, 788716199154246067177853562193287545633745664nat, 16280786819477701821291707767781383541637310728545650516105130259829809653786nat, 1, 26478636913623825199425891923603876467127280411180698063108076218894327358488nat, modulus());
    lemma_mpow_next(7, 1577432398308492134355707124386575091267491329nat, 26478636913623825199425891923603876467127280411180698063108076218894327358488nat, 0, 20491084839304869855718326620443593736519411693017942185320324317584606186362nat, modulus());
    lemma_mpow_next(7, 3154864796616984268711414248773150182534982658nat, 20491084839304869855718326620443593736519411693017942185320324317584606186362nat, 1, 17441642379920949071871049299726369397253302446918515139995455138272994142217nat, modulus());
    lemma_mpow_next(7, 6309729593233968537422828497546300365069965317nat, 17441642379920949071871049299726369397253302446918515139995455138272994142217nat, 1, 9740840898092585848575345556578441584485902966542397254412939918502087115866nat, modulus());
    lemma_mpow_next(7, 12619459186467937074845656995092600730139930635nat, 9740840898092585848575345556578441584485902966542397254412939918502087115866nat, 1, 17906605090478568754745986265510116090796827715620290331046018596140356203856nat, modulus());
    lemma_mpow_next(7, 25238918372935874149691313990185201460279861271nat, 17906605090478568754745986265510116090796827715620290331046018596140356203856nat, 0, 23263804483341877537841023118021578104772444748393599558054357148453025144448nat, modulus());
    lemma_mpow_next(7, 50477836745871748299382627980370402920559722542nat, 23263804483341877537841023118021578104772444748393599558054357148453025144448nat, 1, 39489880411686010095679942133980073960982316577459924481778993407494528184224nat, modulus());
    lemma_mpow_next(7, 100955673491743496598765255960740805841119445085nat, 39489880411686010095679942133980073960982316577459924481778993407494528184224nat, 0, 49472845938075068772921834425644925361277169241852665649145928910811975789425nat, modulus());
    lemma_mpow_next(7, 201911346983486993197530511921481611682238890170nat, 49472845938075068772921834425644925361277169241852665649145928910811975789425nat, 0, 5782367074293702243191004895990570453497329479781116622361853844201407312849nat, modulus());
    lemma_mpow_next(7, 403822693966973986395061023842963223364477780340nat, 5782367074293702243191004895990570453497329479781116622361853844201407312849nat, 1, 27868593151928458893639903945238820097626888560017293182462130288668085895517nat, modulus());
    lemma_mpow_next(7, 807645387933947972790122047685926446728955560681nat, 27868593151928458893639903945238820097626888560017293182462130288668085895517nat, 0, 13538254655702959066187794310031800431652811476007057390908896785736968686818nat, modulus());
}

/// Squarings 161 to 176 of the power below.
#[verifier::spinoff_prover]
#[verifier::rlimit(50)]
proof fn lemma_pow_order_by_859267_part10()
    requires
        mpow(7, 1615290775867895945580244095371852893457911121362nat, modulus()) == 13538254655702959066187794310031800431652811476007057390908896785736968686818nat,
    ensures
        mpow(7, 105859696287278428689546877034289751225657663249620279nat, modulus()) == 4236146752158823350173867196003485708391580687100305675987176701193861975702nat,
{
    lemma_mpow_next(7, 1615290775867895945580244095371852893457911121362nat, 13538254655702959066187794310031800431652811476007057390908896785736968686818nat, 1, 3894261380827747209256387712135965162513922312878808107278810380842821683336nat, modulus());
    lemma_mpow_next(7, 3230581551735791891160488190743705786915822242725nat, 3894261380827747209256387712135965162513922312878808107278810380842821683336nat, 0, 38165223377995378601159977095827386085113950488813207780000669739356081144068nat, modulus());
    lemma_mpow_next(7, 6461163103471583782320976381487411573831644485450nat, 38165223377995378601159977095827386085113950488813207780000669739356081144068nat, 0, 12695353180242310739201173199060582134646113827555686797455246719787956734325nat, modulus());
    lemma_mpow_next(7, 12922326206943167564641952762974823147663288970900nat, 12695353180242310739201173199060582134646113827555686797455246719787956734325nat, 1, 6154457332915346690411235301926221518517716655392991393300288843332593352984nat, modulus());
    lemma_mpow_next(7, 25844652413886335129283905525949646295326577941801nat, 6154457332915346690411235301926221518517716655392991393300288843332593352984nat, 1, 46634549229064224506573252897279158906463790118357729716630340708438891179260nat, modulus());
    lemma_mpow_next(7, 51689304827772670258567811051899292590653155883603nat, 46634549229064224506573252897279158906463790118357729716630340708438891179260nat, 1, 24579272720223971126692406130158911675056228739428328752183100493779356933990nat, modulus());
    lemma_mpow_next(7, 103378609655545340517135622103798585181306311767207nat, 24579272720223971126692406130158911675056228739428328752183100493779356933990nat, 0, 23480077103008803458994633921185153515050297831909402245209205971420114639066nat, modulus());
    lemma_mpow_next(7, 206757219311090681034271244207597170362612623534414nat, 23480077103008803458994633921185153515050297831909402245209205971420114639066nat, 1, 24416470030535118881259691987168551573228452776167099943653939758945837431388nat, modulus());
    lemma_mpow_next(7, 413514438622181362068542488415194340725225247068829nat, 24416470030535118881259691987168551573228452776167099943653939758945837431388nat, 0, 34823414500125835566847893997705988648556151525854753294531492594262953665222nat, modulus());
    lemma_mpow_next(7, 827028877244362724137084976830388681450450494137658nat, 34823414500125835566847893997705988648556151525854753294531492594262953665222nat, 0, 12275227416171532975386148814498222041262560628349862784701416527137626168771nat, modulus());
    lemma_mpow_next(7, 1654057754488725448274169953660777362900900988275316nat, 12275227416171532975386148814498222041262560628349862784701416527137626168771nat, 1, 3194689044562994806768571505660485104347311680721877172896499384182952586194nat, modulus());
    lemma_mpow_next(7, 3308115508977450896548339907321554725801801976550633nat, 3194689044562994806768571505660485104347311680721877172896499384182952586194nat, 1, 17919792868147640213936034542322633778974437826516141935850809533418327857538nat, modulus());
    lemma_mpow_next(7, 6616231017954901793096679814643109451603603953101267nat, 17919792868147640213936034542322633778974437826516141935850809533418327857538nat, 0, 8628912106041796065847617806235836056403324188351599929469588467295292549789nat, modulus());
    lemma_mpow_next(7, 13232462035909803586193359629286218903207207906202534nat, 8628912106041796065847617806235836056403324188351599929469588467295292549789nat, 1, 33915498009844113446095109534369916245865238126615753899991836091769961290724nat, modulus());
    lemma_mpow_next(7, 26464924071819607172386719258572437806414415812405069nat, 33915498009844113446095109534369916245865238126615753899991836091769961290724nat, 1, 46156490130229738080308149958502011853798253312802175994286125369364014648068nat, modulus());
    lemma_mpow_next(7, 52929848143639214344773438517144875612828831624810139nat, 46156490130229738080308149958502011853798253312802175994286125369364014648068nat, 1, 4236146752158823350173867196003485708391580687100305675987176701193861975702nat, modulus());
}

/// Squarings 177 to 192 of the power below.
#[verifier::spinoff_prover]
#[verifier::rlimit(50)]
proof fn lemma_pow_order_by_859267_part11()
    requires
        mpow(7, 105859696287278428689546877034289751225657663249620279nat, modulus()) == 4236146752158823350173867196003485708391580687100305675987176701193861975702nat,
    ensures
        mpow(7, 6937621055883079102598144133319213136324700618727114644701nat, modulus()) == 23994561400558293261537190901317127733381727436740230332963707185326474029839nat,
{
    lemma_mpow_next(7, 105859696287278428689546877034289751225657663249620279nat, 4236146752158823350173867196003485708391580687100305675987176701193861975702nat, 1, 10284496266468584161688702734114146601836206663326699753920221678477485036164nat, modulus());
    lemma_mpow_next(7, 211719392574556857379093754068579502451315326499240559nat, 10284496266468584161688702734114146601836206663326699753920221678477485036164nat, 0, 30507494454346438240485014747571478405754920742730888585953110951229126914484nat, modulus());
    lemma_mpow_next(7, 423438785149113714758187508137159004902630652998481118nat, 30507494454346438240485014747571478405754920742730888585953110951229126914484nat, 0, 30230616331715522417551427321769412343295863501002857969711696535953270833326nat, modulus());
    lemma_mpow_next(7, 846877570298227429516375016274318009805261305996962236nat, 30230616331715522417551427321769412343295863501002857969711696535953270833326nat, 1, 19767910446919950630631465963567848503650663263165266995467419330142197427875nat, modulus());
    lemma_mpow_next(7, 1693755140596454859032750032548636019610522611993924473nat, 19767910446919950630631465963567848503650663263165266995467419330142197427875nat, 1, 27141297897349246847855418814820869142167492177315645216160914912771621827940nat, modulus());
    lemma_mpow_next(7, 3387510281192909718065500065097272039221045223987848947nat, 27141297897349246847855418814820869142167492177315645216160914912771621827940nat, 1, 46902645650652027679169892059639276248856599401633515261032599829279537750961nat, modulus());
    lemma_mpow_next(7, 6775020562385819436131000130194544078442090447975697895nat, 46902645650652027679169892059639276248856599401633515261032599829279537750961nat, 0, 48278735195979120394605799895021543074551803775912188683440493459115822313456nat, modulus());
    lemma_mpow_next(7, 13550041124771638872262000260389088156884180895951395790nat, 48278735195979120394605799895021543074551803775912188683440493459115822313456nat, 0, 3720844254112329761860297910848268447663407981908289146144376528287042636786nat, modulus());
    lemma_mpow_next(7, 27100082249543277744524000520778176313768361791902791580nat, 3720844254112329761860297910848268447663407981908289146144376528287042636786nat, 1, 40533044994311175416597014076309930348113603562556581871515109865809902155441nat, modulus());
    lemma_mpow_next(7, 54200164499086555489048001041556352627536723583805583161nat, 40533044994311175416597014076309930348113603562556581871515109865809902155441nat, 1, 24136139412508016974653601141115140925130753642510290190437324737176682925436nat, modulus());
    lemma_mpow_next(7, 108400328998173110978096002083112705255073447167611166323nat, 24136139412508016974653601141115140925130753642510290190437324737176682925436nat, 0, 14420020700057198224708324263164546830159755183591635747019426817403463554047nat, modulus());
    lemma_mpow_next(7, 216800657996346221956192004166225410510146894335222332646nat, 14420020700057198224708324263164546830159755183591635747019426817403463554047nat, 1, 11421296773914231624909347413938681489193287306732146976297695351827717571718nat, modulus());
    lemma_mpow_next(7, 433601315992692443912384008332450821020293788670444665293nat, 11421296773914231624909347413938681489193287306732146976297695351827717571718nat, 1, 44962584004379834884304214981587300255178373452792963516808969395051464370478nat, modulus());
    lemma_mpow_next(7, 867202631985384887824768016664901642040587577340889330587nat, 44962584004379834884304214981587300255178373452792963516808969395051464370478nat, 1, 5898719786678338656850796829031140306112511937619980466410001669298650280373nat, modulus());
    lemma_mpow_next(7, 1734405263970769775649536033329803284081175154681778661175nat, 5898719786678338656850796829031140306112511937619980466410001669298650280373nat, 0, 25180422576361056332403621841355565446779525633054314131778372212814486526220nat, modulus());
    lemma_mpow_next(7, 3468810527941539551299072066659606568162350309363557322350nat, 25180422576361056332403621841355565446779525633054314131778372212814486526220nat, 1, 23994561400558293261537190901317127733381727436740230332963707185326474029839nat, modulus());
}

/// Squarings 193 to 208 of the power below.
#[verifier::spinoff_prover]
#[verifier::rlimit(50)]
proof fn lemma_pow_order_by_859267_part12()
    requires
        mpow(7, 6937621055883079102598144133319213136324700618727114644701nat, modulus()) == 23994561400558293261537190901317127733381727436740230332963707185326474029839nat,
    ensures
        mpow(7, 454663933518353472067871973921207952102175579748900185355172512nat, modulus()) == 38611152108210772337790838184650942742685677451335339265573972407496277387718nat,
{
    lemma_mpow_next(7, 6937621055883079102598144133319213136324700618727114644701nat, 23994561400558293261537190901317127733381727436740230332963707185326474029839nat, 1, 16312458406109197273015313178496227639208916017449118464804497684774612175001nat, modulus());
    lemma_mpow_next(7, 13875242111766158205196288266638426272649401237454229289403nat, 16312458406109197273015313178496227639208916017449118464804497684774612175001nat, 0, 51529322276216681065796159161811530846004365611097270444450792893943857107360nat, modulus());
    lemma_mpow_next(7, 27750484223532316410392576533276852545298802474908458578806nat, 51529322276216681065796159161811530846004365611097270444450792893943857107360nat, 1, 26470588500898118335659984223826115954798733591119264398962554066942144674243nat, modulus());
    lemma_mpow_next(7, 55500968447064632820785153066553705090597604949816917157613nat, 26470588500898118335659984223826115954798733591119264398962554066942144674243nat, 1, 41011199288049993439081743736531643114501937881004376664360210941098856678316nat, modulus());
    lemma_mpow_next(7, 111001936894129265641570306133107410181195209899633834315227nat, 41011199288049993439081743736531643114501937881004376664360210941098856678316nat, 1, 50201920486349891627981203458644268864850946178380193529371997196922899942031nat, modulus());
    lemma_mpow_next(7, 222003873788258531283140612266214820362390419799267668630455nat, 50201920486349891627981203458644268864850946178380193529371997196922899942031nat, 0, 8017292537077900388155291120208944414192877453398755894160801850466453097788nat, modulus());
    lemma_mpow_next(7, 444007747576517062566281224532429640724780839598535337260910nat, 8017292537077900388155291120208944414192877453398755894160801850466453097788nat, 1, 26101062715548620344660905578119678020666925208871419170659278744399639682674nat, modulus());
    lemma_mpow_next(7, 888015495153034125132562449064859281449561679197070674521821nat, 26101062715548620344660905578119678020666925208871419170659278744399639682674nat, 0, 40673269062032488078706039359597898118472411853934510527648045287763105652079nat, modulus());
    lemma_mpow_next(7, 1776030990306068250265124898129718562899123358394141349043642nat, 40673269062032488078706039359597898118472411853934510527648045287763105652079nat, 1, 51091567596966460195335209199774477757142521240630462405123270160616374532737nat, modulus());
    lemma_mpow_next(7, 3552061980612136500530249796259437125798246716788282698087285nat, 51091567596966460195335209199774477757142521240630462405123270160616374532737nat, 0, 29703555372155132322366267579754271346988043327314785769141881210035839929304nat, modulus());
    lemma_mpow_next(7, 7104123961224273001060499592518874251596493433576565396174570nat, 29703555372155132322366267579754271346988043327314785769141881210035839929304nat, 1, 43259955858438824991942912996123631007170187564519742769757925765879989541846nat, modulus());
    lemma_mpow_next(7, 14208247922448546002120999185037748503192986867153130792349141nat, 43259955858438824991942912996123631007170187564519742769757925765879989541846nat, 0, 12904650043408081655082532510582523308663654903219382452122378601266354265825nat, modulus());
    lemma_mpow_next(7, 28416495844897092004241998370075497006385973734306261584698282nat, 12904650043408081655082532510582523308663654903219382452122378601266354265825nat, 0, 33042853148026063758358717867046214687020413003079074517510383447948156851883nat, modulus());
    lemma_mpow_next(7, 56832991689794184008483996740150994012771947468612523169396564nat, 33042853148026063758358717867046214687020413003079074517510383447948156851883nat, 0, 25933841926429113363913189329814981217848462305443787375683661621999104031290nat, modulus());
    lemma_mpow_next(7, 113665983379588368016967993480301988025543894937225046338793128nat, 25933841926429113363913189329814981217848462305443787375683661621999104031290nat, 0, 17149200642802276704511908199941786438980390928244573238820131195811247088286nat, modulus());
    lemma_mpow_next(7, 227331966759176736033935986960603976051087789874450092677586256nat, 17149200642802276704511908199941786438980390928244573238820131195811247088286nat, 0, 38611152108210772337790838184650942742685677451335339265573972407496277387718nat, modulus());
}

/// Squarings 209 to 224 of the power below.
#[verifier::spinoff_prover]
#[verifier::rlimit(50)]
proof fn lemma_pow_order_by_859267_part13()
    requires
        mpow(7, 454663933518353472067871973921207952102175579748900185355172512nat, modulus()) == 38611152108210772337790838184650942742685677451335339265573972407496277387718nat,
    ensures
        mpow(7, 29796855547058813145440057682900284348968178794423922547436585746432nat, modulus()) == 47633411081196780164955152039178224556092725353333567324979077794080270974367nat,
{
    lemma_mpow_next(7, 454663933518353472067871973921207952102175579748900185355172512nat, 38611152108210772337790838184650942742685677451335339265573972407496277387718nat, 0, 1325137475792838578323879577547781986247431088251555146994707452037659746005nat, modulus());
    lemma_mpow_next(7, 909327867036706944135743947842415904204351159497800370710345024nat, 1325137475792838578323879577547781986247431088251555146994707452037659746005nat, 0, 28783457196981580305979817091260200533346367527264008263308467527201413994192nat, modulus());
    lemma_mpow_next(7, 1818655734073413888271487895684831808408702318995600741420690048nat, 28783457196981580305979817091260200533346367527264008263308467527201413994192nat, 0, 24359707330929736845141573354989711767673938130283049216020896850222442953141nat, modulus());
    lemma_mpow_next(7, 3637311468146827776542975791369663616817404637991201482841380096nat, 24359707330929736845141573354989711767673938130283049216020896850222442953141nat, 0, 48162273949119679680594794601499319260203614945732119307997911365590493565749nat, modulus());
    lemma_mpow_next(7, 7274622936293655553085951582739327233634809275982402965682760192nat, 48162273949119679680594794601499319260203614945732119307997911365590493565749nat, 0, 29961201478661481759477797746162560796950644879331581454682875288638277333909nat, modulus());
    lemma_mpow_next(7, 14549245872587311106171903165478654467269618551964805931365520384nat, 29961201478661481759477797746162560796950644879331581454682875288638277333909nat, 0, 20098724820221682745029823060513134600998435837834781540296061494237709333922nat, modulus());
    lemma_mpow_next(7, 29098491745174622212343806330957308934539237103929611862731040768nat, 20098724820221682745029823060513134600998435837834781540296061494237709333922nat, 0, 1180846939423702030038616415440100367302950624924494144344755552121250077721nat, modulus());
    lemma_mpow_next(7, 58196983490349244424687612661914617869078474207859223725462081536nat, 1180846939423702030038616415440100367302950624924494144344755552121250077721nat, 0, 752537160142962553743725383261488192077026967245852050076577700955532048596nat, modulus());
    lemma_mpow_next(7, 116393966980698488849375225323829235738156948415718447450924163072nat, 752537160142962553743725383261488192077026967245852050076577700955532048596nat, 0, 40667804570082330780616010820775963653135241450071945457963986813396760861639nat, modulus());
    lemma_mpow_next(7, 232787933961396977698750450647658471476313896831436894901848326144nat, 40667804570082330780616010820775963653135241450071945457963986813396760861639nat, 0, 37301937960254939572439333735932856617724472337870734125839333166933963640914nat, modulus());
    lemma_mpow_next(7, 465575867922793955397500901295316942952627793662873789803696652288nat, 37301937960254939572439333735932856617724472337870734125839333166933963640914nat, 0, 19593011424697074650426259879359307281240347684629987399067315965564282846193nat, modulus());
    lemma_mpow_next(7, 931151735845587910795001802590633885905255587325747579607393304576nat, 19593011424697074650426259879359307281240347684629987399067315965564282846193nat, 0, 7277866062820216815913893655734333093395339194578238703910150957026608584730nat, modulus());
    lemma_mpow_next(7, 1862303471691175821590003605181267771810511174651495159214786609152nat, 7277866062820216815913893655734333093395339194578238703910150957026608584730nat, 0, 18279257667069469284115365351859807615758901458977798370516131892926581582080nat, modulus());
    lemma_mpow_next(7, 3724606943382351643180007210362535543621022349302990318429573218304nat, 18279257667069469284115365351859807615758901458977798370516131892926581582080nat, 0, 51445222143788187939677940257406157065776485129902745229693286540007848966316nat, modulus());
    lemma_mpow_next(7, 7449213886764703286360014420725071087242044698605980636859146436608nat, 51445222143788187939677940257406157065776485129902745229693286540007848966316nat, 0, 38707211576242520367415085432214537618043544506160969713027676813020174786923nat, modulus());
    lemma_mpow_next(7, 14898427773529406572720028841450142174484089397211961273718292873216nat, 38707211576242520367415085432214537618043544506160969713027676813020174786923nat, 0, 47633411081196780164955152039178224556092725353333567324979077794080270974367nat, modulus());
}

/// Squarings 225 to 235 of the power below.
#[verifier::spinoff_prover]
#[verifier::rlimit(50)]
proof fn lemma_pow_order_by_859267_part14()
    requires
        mpow(7, 29796855547058813145440057682900284348968178794423922547436585746432nat, modulus()) == 47633411081196780164955152039178224556092725353333567324979077794080270974367nat,
    ensures
        mpow(7, 61023960160376449321861238134579782346686830170980193377150127608692736nat, modulus()) == 46650213108022170713266871296380854050719049849705294301174774712973279642509nat,
{
    lemma_mpow_next(7, 29796855547058813145440057682900284348968178794423922547436585746432nat, 47633411081196780164955152039178224556092725353333567324979077794080270974367nat, 0, 39721679466365500654319359706510543119517613912768869305259925959877699702990nat, modulus());
    lemma_mpow_next(7, 59593711094117626290880115365800568697936357588847845094873171492864nat, 39721679466365500654319359706510543119517613912768869305259925959877699702990nat, 0, 25695312602660973475564828491790616451219586652631290693486460147404514689396nat, modulus());
    lemma_mpow_next(7, 119187422188235252581760230731601137395872715177695690189746342985728nat, 25695312602660973475564828491790616451219586652631290693486460147404514689396nat, 0, 25639888690375853310987802313827347166695571380782269406636491920977661463583nat, modulus());
    lemma_mpow_next(7, 238374844376470505163520461463202274791745430355391380379492685971456nat, 25639888690375853310987802313827347166695571380782269406636491920977661463583nat, 0, 49463919000081460337181361904940386934563800880494519015958928487327447934808nat, modulus());
    lemma_mpow_next(7, 476749688752941010327040922926404549583490860710782760758985371942912nat, 49463919000081460337181361904940386934563800880494519015958928487327447934808nat, 0, 30419540223795805073398068789840978271012350558373702783222920748650094921179nat, modulus());
    lemma_mpow_next(7, 953499377505882020654081845852809099166981721421565521517970743885824nat, 30419540223795805073398068789840978271012350558373702783222920748650094921179nat, 0, 18699864053263574589563101808806405527066768355194348829133551579376478854659nat, modulus());
    lemma_mpow_next(7, 1906998755011764041308163691705618198333963442843131043035941487771648nat, 18699864053263574589563101808806405527066768355194348829133551579376478854659nat, 0, 48058414568365133385794197850788580368659552764958367988068796356754571440793nat, modulus());
    lemma_mpow_next(7, 3813997510023528082616327383411236396667926885686262086071882975543296nat, 48058414568365133385794197850788580368659552764958367988068796356754571440793nat, 0, 216218369142809747085031244603841452053431065125768231046510613107094825173nat, modulus());
    lemma_mpow_next(7, 7627995020047056165232654766822472793335853771372524172143765951086592nat, 216218369142809747085031244603841452053431065125768231046510613107094825173nat, 0, 49266758666920242812323283552999958484743219934089397187324658413470169083452nat, modulus());
    lemma_mpow_next(7, 15255990040094112330465309533644945586671707542745048344287531902173184nat, 49266758666920242812323283552999958484743219934089397187324658413470169083452nat, 0, 21638310338961910290626191401196930571514980312025637430146066388848828740169nat, modulus());
    lemma_mpow_next(7, 30511980080188224660930619067289891173343415085490096688575063804346368nat, 21638310338961910290626191401196930571514980312025637430146066388848828740169nat, 0, 46650213108022170713266871296380854050719049849705294301174774712973279642509nat, modulus());
}

/// The generator to the power `(n - 1) / 859267` modulo the field order `n`.
proof fn lemma_pow_order_by_859267()
    ensures
        mpow(7, 61023960160376449321861238134579782346686830170980193377150127608692736nat, modulus()) == 46650213108022170713266871296380854050719049849705294301174774712973279642509nat,
{
    lemma_mpow_first(7, modulus());
    lemma_pow_order_by_859267_part0();
    lemma_pow_order_by_859267_part1();
    lemma_pow_order_by_859267_part2();
    lemma_pow_order_by_859267_part3();
    lemma_pow_order_by_859267_part4();
    lemma_pow_order_by_859267_part5();
    lemma_pow_order_by_859267_part6();
    lemma_pow_order_by_859267_part7();
    lemma_pow_order_by_859267_part8();
    lemma_pow_order_by_859267_part9();
    lemma_pow_order_by_859267_part10();
    lemma_pow_order_by_859267_part11();
    lemma_pow_order_by_859267_part12();
    lemma_pow_order_by_859267_part13();
    lemma_pow_order_by_859267_part14();
}

/// Squarings 1 to 16 of the power below.
#[verifier::spinoff_prover]
#[verifier::rlimit(50)]
proof fn lemma_pow_order_by_906349_part0()
    requires
        mpow(7, 1, modulus()) == 7,
    ensures
        mpow(7, 68669, modulus()) == 30703283808438230300141781324044817646260544966448748945828100256373317888305nat,
{
    lemma_mpow_next(7, 1, 7, 0, 49, modulus());
    lemma_mpow_next(7, 2, 49, 0, 2401, modulus());
    lemma_mpow_next(7, 4, 2401, 0, 5764801, modulus());
    lemma_mpow_next(7, 8, 5764801, 0, 33232930569601, modulus());
    lemma_mpow_next(7, 16, 33232930569601, 1, 7730993719707444524137094407nat, modulus());
    lemma_mpow_next(7, 33, 7730993719707444524137094407nat, 1, 418377847259091645147530834859099334519176045887014771543nat, modulus());
    lemma_mpow_next(7, 67, 418377847259091645147530834859099334519176045887014771543nat, 0, 32709710128667287283106200103813903820932474070465519814917267851209574890468nat, modulus());
    lemma_mpow_next(7, 134, 32709710128667287283106200103813903820932474070465519814917267851209574890468nat, 0, 16535196714177446922951330703621784122353495407091899152505280345580460731270nat, modulus());
    lemma_mpow_next(7, 268, 16535196714177446922951330703621784122353495407091899152505280345580460731270nat, 0, 34738667337345053426858717988443268007591039172076639264972483531894951522032nat, modulus());
    lemma_mpow_next(7, 536, 34738667337345053426858717988443268007591039172076639264972483531894951522032nat, 0, 1964180952489685920904746711639025035980737484975396630745066459030074363745nat, modulus());
    lemma_mpow_next(7, 1072, 1964180952489685920904746711639025035980737484975396630745066459030074363745nat, 1, 31901705504861609309934272655812220559303658231219232899418350431952490015434nat, modulus());
    lemma_mpow_next(7, 2145, 31901705504861609309934272655812220559303658231219232899418350431952490015434nat, 1, 1731288996913336605682670709392761332352021000651028906856151915825925464216nat, modulus());
    lemma_mpow_next(7, 4291, 1731288996913336605682670709392761332352021000651028906856151915825925464216nat, 1, 33716531705238620695171419985596710284228699858196019583969305100793323702764nat, modulus());
    lemma_mpow_next(7, 8583, 33716531705238620695171419985596710284228699858196019583969305100793323702764nat, 1, 31420582912550277507419640602117323112718657656155262271279899344800808321683nat, modulus());
    lemma_mpow_next(7, 17167, 31420582912550277507419640602117323112718657656155262271279899344800808321683nat, 0, 6675506863642427270843947886577703178785718463179819159873223895209518079848nat, modulus());
    lemma_mpow_next(7, 34334, 6675506863642427270843947886577703178785718463179819159873223895209518079848nat, 1, 30703283808438230300141781324044817646260544966448748945828100256373317888305nat, modulus());
}

/// Squarings 17 to 32 of the power below.
#[verifier::spinoff_prover]
#[verifier::rlimit(50)]
proof fn lemma_pow_order_by_906349_part1()
    requires
        mpow(7, 68669, modulus()) == 30703283808438230300141781324044817646260544966448748945828100256373317888305nat,
    ensures
        mpow(7, 4500325651, modulus()) == 24824808984053165948936494469132276248204133795332377958615011421532044104592nat,
{
    lemma_mpow_next(7, 68669, 30703283808438230300141781324044817646260544966448748945828100256373317888305nat, 1, 34611082947280995553570139164590655897214769594148809060838689420301190051737nat, modulus());
    lemma_mpow_next(7, 137339, 34611082947280995553570139164590655897214769594148809060838689420301190051737nat, 0, 43920427545909999427540432794902521690236184811548490687164885837375807752942nat, modulus());
    lemma_mpow_next(7, 274678, 43920427545909999427540432794902521690236184811548490687164885837375807752942nat, 0, 35755713075045791091260380143972352588616902746925422940418955988729816388447nat, modulus());
    lemma_mpow_next(7, 549356, 35755713075045791091260380143972352588616902746925422940418955988729816388447nat, 0, 50977603451104158352013321731888918199588870721158006554251794413041554329585nat, modulus());
    lemma_mpow_next(7, 1098712, 50977603451104158352013321731888918199588870721158006554251794413041554329585nat, 0, 40686033871343888866081272961583634168822367817077201416910645192021011297607nat, modulus());
    lemma_mpow_next(7, 2197424, 40686033871343888866081272961583634168822367817077201416910645192021011297607nat, 1, 1617013271235858941298626153374605900411550172304810336822547415324391448646nat, modulus());
    lemma_mpow_next(7, 4394849, 1617013271235858941298626153374605900411550172304810336822547415324391448646nat, 0, 48414408467947777176281495400040784228725674374759131418012294957229084741624nat, modulus());
    lemma_mpow_next(7, 8789698, 48414408467947777176281495400040784228725674374759131418012294957229084741624nat, 1, 51830912482748494334041031705150915704011051395682713465668317736472722987711nat, modulus());
    lemma_mpow_next(7, 17579397, 51830912482748494334041031705150915704011051395682713465668317736472722987711nat, 0, 51025852200686697193526523612964253181511578557072428535912032519121329804125nat, modulus());
    lemma_mpow_next(7, 35158794, 51025852200686697193526523612964253181511578557072428535912032519121329804125nat, 0, 16429413542026266593468836883468809942267517512299082051341868250765122667925nat, modulus());
    lemma_mpow_next(7, 70317588, 16429413542026266593468836883468809942267517512299082051341868250765122667925nat, 0, 28120222107362917528908971696893446376832213962418849777483172185135586238346nat, modulus());
    lemma_mpow_next(7, 140635176, 28120222107362917528908971696893446376832213962418849777483172185135586238346nat, 1, 33729540061494482473061441188063243820431926589849017554388417914705449898059nat, modulus());
    lemma_mpow_next(7, 281270353, 33729540061494482473061441188063243820431926589849017554388417914705449898059nat, 0, 34710738370589597406108230717908099137579710234704730552167047538176714037175nat, modulus());
    lemma_mpow_next(7, 562540706, 34710738370589597406108230717908099137579710234704730552167047538176714037175nat, 0, 19588965180997677048540765084125211096723174686036528753134971948695226992347nat, modulus());
    lemma_mpow_next(7, 1125081412, 19588965180997677048540765084125211096723174686036528753134971948695226992347nat, 1, 17677703033285173914489262544757684317622640134417897793085031942436393354537nat, modulus());
    lemma_mpow_next(7, 2250162825, 17677703033285173914489262544757684317622640134417897793085031942436393354537nat, 1, 24824808984053165948936494469132276248204133795332377958615011421532044104592nat, modulus());
}

/// Squarings 33 to 48 of the power below.
#[verifier::spinoff_prover]
#[verifier::rlimit(50)]
proof fn lemma_pow_order_by_906349_part2()
    requires
        mpow(7, 4500325651, modulus()) == 24824808984053165948936494469132276248204133795332377958615011421532044104592nat,
    ensures
        mpow(7, 294933341905670, modulus()) == 49348729535960397367927343637653996391805345859482894913014567763033659194674nat,
{
    lemma_mpow_next(7, 4500325651, 24824808984053165948936494469132276248204133795332377958615011421532044104592nat, 1, 12392363671717292375807480591386451556568226165949123767234507560242445129849nat, modulus());
    lemma_mpow_next(7, 9000651303, 12392363671717292375807480591386451556568226165949123767234507560242445129849nat, 0, 50569541868797934809958643175429679985175494504169082756016648392542139883051nat, modulus());
    lemma_mpow_next(7, 18001302606, 50569541868797934809958643175429679985175494504169082756016648392542139883051nat, 1, 30322183963524368371546167509401897117566799218828731557705382757392444112296nat, modulus());
    lemma_mpow_next(7, 36002605213, 30322183963524368371546167509401897117566799218828731557705382757392444112296nat, 0, 14751926799877543959395070729843818386058419097427262623558806533001075831042nat, modulus());
    lemma_mpow_next(7, 72005210426, 14751926799877543959395070729843818386058419097427262623558806533001075831042nat, 0, 25773594584365984718615781585621224346846908153248777865907388963913823441445nat, modulus());
    lemma_mpow_next(7, 144010420852, 25773594584365984718615781585621224346846908153248777865907388963913823441445nat, 0, 7408907830165152968889194474253495810066433037721466994150987067974817927948nat, modulus());
    lemma_mpow_next(7, 288020841704, 7408907830165152968889194474253495810066433037721466994150987067974817927948nat, 1, 14229625926462743903177033122229591784669221859351890246492876669273857317753nat, modulus());
    lemma_mpow_next(7, 576041683409, 14229625926462743903177033122229591784669221859351890246492876669273857317753nat, 1, 3505250902033793881052111595135092342949119944767270731511385008106406320271nat, modulus());
    lemma_mpow_next(7, 1152083366819, 3505250902033793881052111595135092342949119944767270731511385008106406320271nat, 0, 16115091494181317141358709095226949011320316874508694586442333528960061338629nat, modulus());
    lemma_mpow_next(7, 2304166733638, 16115091494181317141358709095226949011320316874508694586442333528960061338629nat, 0, 4918775377003006377480764648009439522797971672174234044548081995611385804546nat, modulus());
    lemma_mpow_next(7, 4608333467276, 4918775377003006377480764648009439522797971672174234044548081995611385804546nat, 0, 19052016455300633070975322497878158531464581582336948515367950402454508873949nat, modulus());
    lemma_mpow_next(7, 9216666934552, 19052016455300633070975322497878158531464581582336948515367950402454508873949nat, 0, 30966487283931090805385326162627816841288748886543068702183632713632980200761nat, modulus());
    lemma_mpow_next(7, 18433333869104, 30966487283931090805385326162627816841288748886543068702183632713632980200761nat, 0, 6101878501044072042141718327875132703103678546531329617568906171084715986659nat, modulus());
    lemma_mpow_next(7, 36866667738208, 6101878501044072042141718327875132703103678546531329617568906171084715986659nat, 1, 45491214412025785889159652135463459342456589596660581200257493226401312724771nat, modulus());
    lemma_mpow_next(7, 73733335476417, 45491214412025785889159652135463459342456589596660581200257493226401312724771nat, 1, 28428057826301410699645267246277542761058031444373804882964339231093543845774nat, modulus());
    lemma_mpow_next(7, 147466670952835, 28428057826301410699645267246277542761058031444373804882964339231093543845774nat, 0, 49348729535960397367927343637653996391805345859482894913014567763033659194674nat, modulus());
}

/// Squarings 49 to 64 of the power below.
#[verifier::spinoff_prover]
#[verifier::rlimit(50)]
proof fn lemma_pow_order_by_906349_part3()
    requires
        mpow(7, 294933341905670, modulus()) == 49348729535960397367927343637653996391805345859482894913014567763033659194674nat,
    ensures
        mpow(7, 19328751495130009397nat, modulus()) == 34802697704224674771181284230389372364925076674919099780052268056488673698060nat,
{
    lemma_mpow_next(7, 294933341905670, 49348729535960397367927343637653996391805345859482894913014567763033659194674nat, 0, 3087310243693786186097969050954499641983033686247772340794174351370986094421nat, modulus());
    lemma_mpow_next(7, 589866683811340, 3087310243693786186097969050954499641983033686247772340794174351370986094421nat, 1, 50469470944916958161143403927082087622416179186600335399427075868532982373149nat, modulus());
    lemma_mpow_next(7, 1179733367622681, 50469470944916958161143403927082087622416179186600335399427075868532982373149nat, 0, 24017521228469109538616206599071577584123374426093105708971872468100393912768nat, modulus());
    lemma_mpow_next(7, 2359466735245362, 24017521228469109538616206599071577584123374426093105708971872468100393912768nat, 0, 25949561770619932277220625620630601527618576092232491374024130781584317875144nat, modulus());
    lemma_mpow_next(7, 4718933470490724, 25949561770619932277220625620630601527618576092232491374024130781584317875144nat, 1, 8044905538339448887529326547856216772547649740119768602818342274942588588323nat, modulus());
    lemma_mpow_next(7, 9437866940981449, 8044905538339448887529326547856216772547649740119768602818342274942588588323nat, 1, 3795373557729018059776901316403966695894560397689294583025302819656565023426nat, modulus());
    lemma_mpow_next(7, 18875733881962899, 3795373557729018059776901316403966695894560397689294583025302819656565023426nat, 1, 29200503294702029484947392739405855012250708447186932522404328144405091420443nat, modulus());
    lemma_mpow_next(7, 37751467763925799, 29200503294702029484947392739405855012250708447186932522404328144405091420443nat, 1, 18371859577785006814009347187962150314438581727109078256623008689480821110906nat, modulus());
    lemma_mpow_next(7, 75502935527851599, 18371859577785006814009347187962150314438581727109078256623008689480821110906nat, 0, 44674679318050481688976107630022819015140984807630692776203716607015891930661nat, modulus());
    lemma_mpow_next(7, 151005871055703198, 44674679318050481688976107630022819015140984807630692776203716607015891930661nat, 0, 41946157641874922421027752600379684283044780117695372163397081507124926845448nat, modulus());
    lemma_mpow_next(7, 302011742111406396, 41946157641874922421027752600379684283044780117695372163397081507124926845448nat, 1, 45135554967180019988122998982699916250381657854563437558806140467902252858540nat, modulus());
    lemma_mpow_next(7, 604023484222812793, 45135554967180019988122998982699916250381657854563437558806140467902252858540nat, 1, 10120012574119778386419367441689059120770591107125915174325906435297732130327nat, modulus());
    lemma_mpow_next(7, 1208046968445625587nat, 10120012574119778386419367441689059120770591107125915174325906435297732130327nat, 0, 3057919084425486045400015655806666008609186595510861403503399023764812281877nat, modulus());
    lemma_mpow_next(7, 2416093936891251174nat, 3057919084425486045400015655806666008609186595510861403503399023764812281877nat, 1, 21493322072507432887641036380534750348998198717537967507513601180684367897093nat, modulus());
    lemma_mpow_next(7, 4832187873782502349nat, 21493322072507432887641036380534750348998198717537967507513601180684367897093nat, 0, 5696230548037600117308250266573706020436176423991351946897264739137065154233nat, modulus());
    lemma_mpow_next(7, 9664375747565004698nat, 5696230548037600117308250266573706020436176423991351946897264739137065154233nat, 1, 34802697704224674771181284230389372364925076674919099780052268056488673698060nat, modulus());
}

/// Squarings 65 to 80 of the power below.
#[verifier::spinoff_prover]
#[verifier::rlimit(50)]
proof fn lemma_pow_order_by_906349_part4()
    requires
        mpow(7, 19328751495130009397nat, modulus()) == 34802697704224674771181284230389372364925076674919099780052268056488673698060nat,
    ensures
        mpow(7, 1266729057984840295907128nat, modulus()) == 10942868403772785804856257412945403562718377100279317790447302761101176710106nat,
{
    lemma_mpow_next(7, 19328751495130009397nat, 34802697704224674771181284230389372364925076674919099780052268056488673698060nat, 1, 36271743036936195570920921023538025638752149364925793206792948318696428759051nat, modulus());
    lemma_mpow_next(7, 38657502990260018795nat, 36271743036936195570920921023538025638752149364925793206792948318696428759051nat, 1, 27129955180369369012074510507810169874250356030635300664258522049879788901811nat, modulus());
    lemma_mpow_next(7, 77315005980520037591nat, 27129955180369369012074510507810169874250356030635300664258522049879788901811nat, 1, 47758978067130240678216839090862838315347449557835396539110685594296890329502nat, modulus());
    lemma_mpow_next(7, 154630011961040075183nat, 47758978067130240678216839090862838315347449557835396539110685594296890329502nat, 1, 30222603786193846030771759753422012888822622017253636871861372521315497473865nat, modulus());
    lemma_mpow_next(7, 309260023922080150367nat, 30222603786193846030771759753422012888822622017253636871861372521315497473865nat, 1, 46923980176453576892111876892440786614614813315455537508061016524664934305704nat, modulus());
    lemma_mpow_next(7, 618520047844160300735nat, 46923980176453576892111876892440786614614813315455537508061016524664934305704nat, 1, 44227613197737418078341933833295364809648965248894342578620835523544596704094nat, modulus());
    lemma_mpow_next(7, 1237040095688320601471nat, 44227613197737418078341933833295364809648965248894342578620835523544596704094nat, 1, 2371504859539051166939646245600479658166398372954576880563967131016412065642nat, modulus());
    lemma_mpow_next(7, 2474080191376641202943nat, 2371504859539051166939646245600479658166398372954576880563967131016412065642nat, 1, 46041660053598755445105137639433574779204350673707850030332469804311464997764nat, modulus());
    lemma_mpow_next(7, 4948160382753282405887nat, 46041660053598755445105137639433574779204350673707850030332469804311464997764nat, 0, 12258153582487113344911333052120429821365161540420315982645603709002116599837nat, modulus());
    lemma_mpow_next(7, 9896320765506564811774nat, 12258153582487113344911333052120429821365161540420315982645603709002116599837nat, 0, 38849432243375747590688703671015889459339944587856654777185647947489807314642nat, modulus());
    lemma_mpow_next(7, 19792641531013129623548nat, 38849432243375747590688703671015889459339944587856654777185647947489807314642nat, 1, 30080166478424238895236807451523692968725007811694638138066890503007117208105nat, modulus());
    lemma_mpow_next(7, 39585283062026259247097nat, 30080166478424238895236807451523692968725007811694638138066890503007117208105nat, 1, 13163422577986175402041764190339686689852604262790586231322394123499512555120nat, modulus());
    lemma_mpow_next(7, 79170566124052518494195nat, 13163422577986175402041764190339686689852604262790586231322394123499512555120nat, 1, 17079144797095135634971076813687283148562569074727223620764943540844862098775nat, modulus());
    lemma_mpow_next(7, 158341132248105036988391nat, 17079144797095135634971076813687283148562569074727223620764943540844862098775nat, 0, 1581406088641385855159971870849639898629274621184850289896651411042792696158nat, modulus());
    lemma_mpow_next(7, 316682264496210073976782nat, 1581406088641385855159971870849639898629274621184850289896651411042792696158nat, 0, 6648207699190511678858859064291882159380961793810197699864063760563474829222nat, modulus());
    lemma_mpow_next(7, 633364528992420147953564nat, 6648207699190511678858859064291882159380961793810197699864063760563474829222nat, 0, 10942868403772785804856257412945403562718377100279317790447302761101176710106nat, modulus());
}

/// Squarings 81 to 96 of the power below.
#[verifier::spinoff_prover]
#[verifier::rlimit(50)]
proof fn lemma_pow_order_by_906349_part5()
    requires
        mpow(7, 1266729057984840295907128nat, modulus()) == 10942868403772785804856257412945403562718377100279317790447302761101176710106nat,
    ensures
        mpow(7, 83016355544094493632569592552nat, modulus()) == 29953509844333712722589041181093721325147042887906885441057962247029981917706nat,
{
    lemma_mpow_next(7, 1266729057984840295907128nat, 10942868403772785804856257412945403562718377100279317790447302761101176710106nat, 1, 48140065931295809391202238219926405364764912363845616825682808130576115311463nat, modulus());
    lemma_mpow_next(7, 2533458115969680591814257nat, 48140065931295809391202238219926405364764912363845616825682808130576115311463nat, 1, 16282215903449958163094141144901824590093250937938805384315914091008325684762nat, modulus());
    lemma_mpow_next(7, 5066916231939361183628515nat, 16282215903449958163094141144901824590093250937938805384315914091008325684762nat, 0, 8729788314954138150332440552397363083488292086604065053477107425118937532877nat, modulus());
    lemma_mpow_next(7, 10133832463878722367257030nat, 8729788314954138150332440552397363083488292086604065053477107425118937532877nat, 0, 29721169719399607132368217332801423914449443964708080291891986055549659312913nat, modulus());
    lemma_mpow_next(7, 20267664927757444734514060nat, 29721169719399607132368217332801423914449443964708080291891986055549659312913nat, 1, 32697777147172079077691479455777667194502873264481836840712928903087638996636nat, modulus());
    lemma_mpow_next(7, 40535329855514889469028121nat, 32697777147172079077691479455777667194502873264481836840712928903087638996636nat, 0, 6144774005342408137415353951752303698183221119078550552444642468825364420552nat, modulus());
    lemma_mpow_next(7, 81070659711029778938056242nat, 6144774005342408137415353951752303698183221119078550552444642468825364420552nat, 1, 35961301933924951384545092671726387760850029273097216402292400141432160775698nat, modulus());
    lemma_mpow_next(7, 162141319422059557876112485nat, 35961301933924951384545092671726387760850029273097216402292400141432160775698nat, 0, 33745590876170517998752210916774828224987338764365075247272494925252666575166nat, modulus());
    lemma_mpow_next(7, 324282638844119115752224970nat, 33745590876170517998752210916774828224987338764365075247272494925252666575166nat, 1, 24080257689758195403515728381112692209168139792596213927785388811960725508909nat, modulus());
    lemma_mpow_next(7, 648565277688238231504449941nat, 24080257689758195403515728381112692209168139792596213927785388811960725508909nat, 1, 32434783828181096561590958086321577971895078417541735525959040489524203708025nat, modulus());
    lemma_mpow_next(7, 1297130555376476463008899883nat, 32434783828181096561590958086321577971895078417541735525959040489524203708025nat, 1, 1358891903064156901514132883887109915219577052147400800004658128361943372656nat, modulus());
    lemma_mpow_next(7, 2594261110752952926017799767nat, 1358891903064156901514132883887109915219577052147400800004658128361943372656nat, 0, 20077799616981607270850681566299053597360741420762720029404467199743891247096nat, modulus());
    lemma_mpow_next(7, 5188522221505905852035599534nat, 20077799616981607270850681566299053597360741420762720029404467199743891247096nat, 1, 1774485827975257601634385625943933879485466913081677760155744308910664868642nat, modulus());
    lemma_mpow_next(7, 10377044443011811704071199069nat, 1774485827975257601634385625943933879485466913081677760155744308910664868642nat, 0, 1433385847595217883954761096398504744663752244108866639669163993877542537386nat, modulus());
    lemma_mpow_next(7, 20754088886023623408142398138nat, 1433385847595217883954761096398504744663752244108866639669163993877542537386nat, 0, 783805031158882956092010221576644981181322483161853201600447805561829856344nat, modulus());
    lemma_mpow_next(7, 41508177772047246816284796276nat, 783805031158882956092010221576644981181322483161853201600447805561829856344nat, 0, 29953509844333712722589041181093721325147042887906885441057962247029981917706nat, modulus());
}

/// Squarings 97 to 112 of the power below.
#[verifier::spinoff_prover]
#[verifier::rlimit(50)]
proof fn lemma_pow_order_by_906349_part6()
    requires
        mpow(7, 83016355544094493632569592552nat, modulus()) == 29953509844333712722589041181093721325147042887906885441057962247029981917706nat,
    ensures
        mpow(7, 5440559876937776734704080817500597nat, modulus()) == 49955360769926104010745614504299656096257507008414155501089251356601557792446nat,
{
    lemma_mpow_next(7, 83016355544094493632569592552nat, 29953509844333712722589041181093721325147042887906885441057962247029981917706nat, 0, 25793913433607860127438846520724153831366589855151212514068097515012749769639nat, modulus());
    lemma_mpow_next(7, 166032711088188987265139185104nat, 25793913433607860127438846520724153831366589855151212514068097515012749769639nat, 0, 16044447128257539804493463431091379110586778173173077894061357076640359795305nat, modulus());
    lemma_mpow_next(7, 332065422176377974530278370208nat, 16044447128257539804493463431091379110586778173173077894061357076640359795305nat, 1, 18146235263002611494861705110573368344868542580063887282374004280807322000919nat, modulus());
    lemma_mpow_next(7, 664130844352755949060556740417nat, 18146235263002611494861705110573368344868542580063887282374004280807322000919nat, 1, 3756919576802260469088866018029720564130884042378000704155676239316900407370nat, modulus());
    lemma_mpow_next(7, 1328261688705511898121113480835nat, 3756919576802260469088866018029720564130884042378000704155676239316900407370nat, 0, 29427459612285915254005201773435872706694555452850445381927497939429615505120nat, modulus());
    lemma_mpow_next(7, 2656523377411023796242226961670nat, 29427459612285915254005201773435872706694555452850445381927497939429615505120nat, 0, 5666779610385120777482228487798619671916469891899481271539833902581920349753nat, modulus());
    lemma_mpow_next(7, 5313046754822047592484453923340nat, 5666779610385120777482228487798619671916469891899481271539833902581920349753nat, 0, 11631180767593907380391443626241841152777006693891401175848183894583492793302nat, modulus());
    lemma_mpow_next(7, 10626093509644095184968907846680nat, 11631180767593907380391443626241841152777006693891401175848183894583492793302nat, 1, 14182508632812400124494259881651351433229850027260980820444636005711572813172nat, modulus());
    lemma_mpow_next(7, 21252187019288190369937815693361nat, 14182508632812400124494259881651351433229850027260980820444636005711572813172nat, 1, 13330834996003358417771455961736776016427948496418592919154970438985590206038nat, modulus());
    lemma_mpow_next(7, 42504374038576380739875631386723nat, 13330834996003358417771455961736776016427948496418592919154970438985590206038nat, 0, 112589902050246779754471858846070678121876139447358933524844551014997362681nat, modulus());
    lemma_mpow_next(7, 85008748077152761479751262773446nat, 112589902050246779754471858846070678121876139447358933524844551014997362681nat, 1, 48311219131439213335393512649112914010936243628434058707092786561011762304020nat, modulus());
    lemma_mpow_next(7, 170017496154305522959502525546893nat, 48311219131439213335393512649112914010936243628434058707092786561011762304020nat, 1, 39079771865403881386427444508215568061708809919559501697914019326535633832437nat, modulus());
    lemma_mpow_next(7, 340034992308611045919005051093787nat, 39079771865403881386427444508215568061708809919559501697914019326535633832437nat, 0, 21926353075674652270056225842975741686128506169220634318822303103626248861688nat, modulus());
    lemma_mpow_next(7, 680069984617222091838010102187574nat, 21926353075674652270056225842975741686128506169220634318822303103626248861688nat, 1, 28029593141291479835742680799753367143003592281450442947472964664406579866333nat, modulus());
    lemma_mpow_next(7, 1360139969234444183676020204375149nat, 28029593141291479835742680799753367143003592281450442947472964664406579866333nat, 0, 1192624128406457666303380504934172433889453607015885128424583271473336729095nat, modulus());
    lemma_mpow_next(7, 2720279938468888367352040408750298nat, 1192624128406457666303380504934172433889453607015885128424583271473336729095nat, 1, 49955360769926104010745614504299656096257507008414155501089251356601557792446nat, modulus());
}

/// Squarings 113 to 128 of the power below.
#[verifier::spinoff_prover]
#[verifier::rlimit(50)]
proof fn lemma_pow_order_by_906349_part7()
    requires
        mpow(7, 5440559876937776734704080817500597nat, modulus()) == 49955360769926104010745614504299656096257507008414155501089251356601557792446nat,
    ensures
        mpow(7, 356552532094994136085566640455719138960nat, modulus()) == 25176615501303479612478731007127218201940658899382494971776372417229448901345nat,
{
    lemma_mpow_next(7, 5440559876937776734704080817500597nat, 49955360769926104010745614504299656096257507008414155501089251356601557792446nat, 0, 23430605128611068593985422015938781395016891249268561199588874967269534597272nat, modulus());
    lemma_mpow_next(7, 10881119753875553469408161635001194nat, 23430605128611068593985422015938781395016891249268561199588874967269534597272nat, 0, 13024448454643032613290202303600502445404994298214929639748018776614677811408nat, modulus());
    lemma_mpow_next(7, 21762239507751106938816323270002388nat, 13024448454643032613290202303600502445404994298214929639748018776614677811408nat, 1, 12468552428050464964806349261350413653569085251388302590918631272589639443306nat, modulus());
    lemma_mpow_next(7, 43524479015502213877632646540004777nat, 12468552428050464964806349261350413653569085251388302590918631272589639443306nat, 1, 19438307924268525255937134688641020108686902166312084223449768659402717574849nat, modulus());
    lemma_mpow_next(7, 87048958031004427755265293080009555nat, 19438307924268525255937134688641020108686902166312084223449768659402717574849nat, 0, 23692452941230632134770611739258377914152973225966420518197991366491023859701nat, modulus());
    lemma_mpow_next(7, 174097916062008855510530586160019110nat, 23692452941230632134770611739258377914152973225966420518197991366491023859701nat, 1, 43715168099196421978325879370380528843510184057360926313300716475864319824758nat, modulus());
    lemma_mpow_next(7, 348195832124017711021061172320038221nat, 43715168099196421978325879370380528843510184057360926313300716475864319824758nat, 1, 29437971316216399830712030239121814279129205158689150556765266351339078641904nat, modulus());
    lemma_mpow_next(7, 696391664248035422042122344640076443nat, 29437971316216399830712030239121814279129205158689150556765266351339078641904nat, 0, 25596933410946931791318202191213607724656597898404533596085107717240657991547nat, modulus());
    lemma_mpow_next(7, 1392783328496070844084244689280152886nat, 25596933410946931791318202191213607724656597898404533596085107717240657991547nat, 1, 33428327004789461457439072429222002792842183423392850045383297605514104451440nat, modulus());
    lemma_mpow_next(7, 2785566656992141688168489378560305773nat, 33428327004789461457439072429222002792842183423392850045383297605514104451440nat, 0, 26187538891990062193975685377859725310995412298653551939826838153685949793007nat, modulus());
    lemma_mpow_next(7, 5571133313984283376336978757120611546nat, 26187538891990062193975685377859725310995412298653551939826838153685949793007nat, 0, 21369440918845959855367820158079516953976087440033496900925327957519288037107nat, modulus());
    lemma_mpow_next(7, 11142266627968566752673957514241223092nat, 21369440918845959855367820158079516953976087440033496900925327957519288037107nat, 1, 9237356242095107987994890665217194693143456503138407495764572830139842819555nat, modulus());
    lemma_mpow_next(7, 22284533255937133505347915028482446185nat, 9237356242095107987994890665217194693143456503138407495764572830139842819555nat, 0, 46520999385497601234111470796909681490725466973449444334619336947050590788676nat, modulus());
    lemma_mpow_next(7, 44569066511874267010695830056964892370nat, 46520999385497601234111470796909681490725466973449444334619336947050590788676nat, 0, 31959714622408751013815237909309795065705690568183564447913487354125444340038nat, modulus());
    lemma_mpow_next(7, 89138133023748534021391660113929784740nat, 31959714622408751013815237909309795065705690568183564447913487354125444340038nat, 0, 36668108802113572656744576313223533702829257760818617254375670242979616293855nat, modulus());
    lemma_mpow_next(7, 178276266047497068042783320227859569480nat, 36668108802113572656744576313223533702829257760818617254375670242979616293855nat, 0, 25176615501303479612478731007127218201940658899382494971776372417229448901345nat, modulus());
}

/// Squarings 129 to 144 of the power below.
#[verifier::spinoff_prover]
#[verifier::rlimit(50)]
proof fn lemma_pow_order_by_906349_part8()
    requires
        mpow(7, 356552532094994136085566640455719138960nat, modulus()) == 25176615501303479612478731007127218201940658899382494971776372417229448901345nat,
    ensures
        mpow(7, 23367026743377535702503695348906009490896709nat, modulus()) == 613586724194048578502339991091756279112860997338428176484815809123619423489nat,
{
    lemma_mpow_next(7, 356552532094994136085566640455719138960nat, 25176615501303479612478731007127218201940658899382494971776372417229448901345nat, 0, 18260393306891799196858716454882919105607734735487496367539144420080948549845nat, modulus());
    lemma_mpow_next(7, 713105064189988272171133280911438277920nat, 18260393306891799196858716454882919105607734735487496367539144420080948549845nat, 0, 3135692119140904569758257814626684428400620605675678517051698350646029909038nat, modulus());
    lemma_mpow_next(7, 1426210128379976544342266561822876555840nat, 3135692119140904569758257814626684428400620605675678517051698350646029909038nat, 1, 20649378365619738830286299036241205052512754301972781475179741090451624156149nat, modulus());
    lemma_mpow_next(7, 2852420256759953088684533123645753111681nat, 20649378365619738830286299036241205052512754301972781475179741090451624156149nat, 1, 28306328410961732224798265818735178046232995666125423115605138284439854044548nat, modulus());
    lemma_mpow_next(7, 5704840513519906177369066247291506223363nat, 28306328410961732224798265818735178046232995666125423115605138284439854044548nat, 0, 19019117757922106618603016275131563885300182933570687096379984945969077043733nat, modulus());
    lemma_mpow_next(7, 11409681027039812354738132494583012446726nat, 19019117757922106618603016275131563885300182933570687096379984945969077043733nat, 1, 51602374775807130838133525437741000287768444968453910193297570618884977434538nat, modulus());
    lemma_mpow_next(7, 22819362054079624709476264989166024893453nat, 51602374775807130838133525437741000287768444968453910193297570618884977434538nat, 1, 31822682048851633892919922286015010142816673182361990800637729794197618979447nat, modulus());
    lemma_mpow_next(7, 45638724108159249418952529978332049786907nat, 31822682048851633892919922286015010142816673182361990800637729794197618979447nat, 1, 5574978969537656867426446500602004220906116857371630544526526061401004085821nat, modulus());
    lemma_mpow_next(7, 91277448216318498837905059956664099573815nat, 5574978969537656867426446500602004220906116857371630544526526061401004085821nat, 0, 16211729375764592673721889338569664236733078459757925346040179115889058700284nat, modulus());
    lemma_mpow_next(7, 182554896432636997675810119913328199147630nat, 16211729375764592673721889338569664236733078459757925346040179115889058700284nat, 1, 8376085819599774859812105674387511438896157129436483685131967069620493723573nat, modulus());
    lemma_mpow_next(7, 365109792865273995351620239826656398295261nat, 8376085819599774859812105674387511438896157129436483685131967069620493723573nat, 0, 32511193013509332930231695033468394549506380865325949125274993514872747963397nat, modulus());
    lemma_mpow_next(7, 730219585730547990703240479653312796590522nat, 32511193013509332930231695033468394549506380865325949125274993514872747963397nat, 0, 30567975742342008240380189605924211697153102328007875871690495816443968112138nat, modulus());
    lemma_mpow_next(7, 1460439171461095981406480959306625593181044nat, 30567975742342008240380189605924211697153102328007875871690495816443968112138nat, 0, 2871854755627911886040838002078691926052200604095311564213822922749697479659nat, modulus());
    lemma_mpow_next(7, 2920878342922191962812961918613251186362088nat, 2871854755627911886040838002078691926052200604095311564213822922749697479659nat, 1, 47450883016676985641581000815551022436071815906618592810088959731878425370055nat, modulus());
    lemma_mpow_next(7, 5841756685844383925625923837226502372724177nat, 47450883016676985641581000815551022436071815906618592810088959731878425370055nat, 0, 41257996050690065870814715827355152698919917076533293838239910778763029039066nat, modulus());
    lemma_mpow_next(7, 11683513371688767851251847674453004745448354nat, 41257996050690065870814715827355152698919917076533293838239910778763029039066nat, 1, 613586724194048578502339991091756279112860997338428176484815809123619423489nat, modulus());
}

/// Squarings 145 to 160 of the power below.
#[verifier::spinoff_prover]
#[verifier::rlimit(50)]
proof fn lemma_pow_order_by_906349_part9()
    requires
        mpow(7, 23367026743377535702503695348906009490896709nat, modulus()) == 613586724194048578502339991091756279112860997338428176484815809123619423489nat,
    ensures
        mpow(7, 1531381464653990179799282178385904237995406753380nat, modulus()) == 43593795685106335990396615560024655714245599395023368400546628072748256115737nat,
{
    lemma_mpow_next(7, 23367026743377535702503695348906009490896709nat, 613586724194048578502339991091756279112860997338428176484815809123619423489nat, 0, 18591675859752968746889320252588182588969043877401830320786927530552234679725nat, modulus());
    lemma_mpow_next(7, 46734053486755071405007390697812018981793418nat, 18591675859752968746889320252588182588969043877401830320786927530552234679725nat, 1, 21096238618124801872298218746633066331896585590537527978836839614831045371970nat, modulus());
    lemma_mpow_next(7, 93468106973510142810014781395624037963586837nat, 21096238618124801872298218746633066331896585590537527978836839614831045371970nat, 1, 189869350827489177617158215059234846415359157130123230124617131461552003194nat, modulus());
    lemma_mpow_next(7, 186936213947020285620029562791248075927173675nat, 189869350827489177617158215059234846415359157130123230124617131461552003194nat, 1, 30633906886499643345712457553936024301102019670000164884762385984877886776351nat, modulus());
    lemma_mpow_next(7, 373872427894040571240059125582496151854347351nat, 30633906886499643345712457553936024301102019670000164884762385984877886776351nat, 1, 39357006801722593544414626048366752175155460439693184838133337940101786527820nat, modulus());
    lemma_mpow_next(7, 747744855788081142480118251164992303708694703nat, 39357006801722593544414626048366752175155460439693184838133337940101786527820nat, 1, 40254681865905229524157953043393939027442963017520678982197759180007995656282nat, modulus());
    lemma_mpow_next(7, 1495489711576162284960236502329984607417389407nat, 40254681865905229524157953043393939027442963017520678982197759180007995656282nat, 1, 13283565795788249372250641848576197584280821624314948337922046453667793053745nat, modulus());
    lemma_mpow_next(7, 2990979423152324569920473004659969214834778815nat, 13283565795788249372250641848576197584280821624314948337922046453667793053745nat, 0, 35002070091670869493119354538286088518278706422984287059871499658423772074252nat, modulus());
    lemma_mpow_next(7, 5981958846304649139840946009319938429669557630nat, 35002070091670869493119354538286088518278706422984287059871499658423772074252nat, 0, 31829363137802719821607656787440909968358147738482689328219661488124901936165nat, modulus());
    lemma_mpow_next(7, 11963917692609298279681892018639876859339115260nat, 31829363137802719821607656787440909968358147738482689328219661488124901936165nat, 1, 2869478444620689059455203852637379484173875224783631234194861900415959894940nat, modulus());
    lemma_mpow_next(7, 23927835385218596559363784037279753718678230521nat, 2869478444620689059455203852637379484173875224783631234194861900415959894940nat, 1, 16002890340925340217387375197341344185404131721698066008449098487808109733629nat, modulus());
    lemma_mpow_next(7, 47855670770437193118727568074559507437356461043nat, 16002890340925340217387375197341344185404131721698066008449098487808109733629nat, 0, 42206957438117523790493707291326999827743941925831127434235570359540488817397nat, modulus());
    lemma_mpow_next(7, 95711341540874386237455136149119014874712922086nat, 42206957438117523790493707291326999827743941925831127434235570359540488817397nat, 0, 1149796545517811856576946231926462746623679430371780783263661243807389807223nat, modulus());
    lemma_mpow_next(7, 191422683081748772474910272298238029749425844172nat, 1149796545517811856576946231926462746623679430371780783263661243807389807223nat, 1, 33048795389442426124561732781126301376712075750603237650475987419934536254364nat, modulus());
    lemma_mpow_next(7, 382845366163497544949820544596476059498851688345nat, 33048795389442426124561732781126301376712075750603237650475987419934536254364nat, 0, 17265933304159244125044804572334744199419019672090111902685039400307133220690nat, modulus());
    lemma_mpow_next(7, 765690732326995089899641089192952118997703376690nat, 17265933304159244125044804572334744199419019672090111902685039400307133220690nat, 0, 43593795685106335990396615560024655714245599395023368400546628072748256115737nat, modulus());
}

/// Squarings 161 to 176 of the power below.
#[verifier::spinoff_prover]
#[verifier::rlimit(50)]
proof fn lemma_pow_order_by_906349_part10()
    requires
        mpow(7, 1531381464653990179799282178385904237995406753380nat, modulus()) == 43593795685106335990396615560024655714245599395023368400546628072748256115737nat,
    ensures
        mpow(7, 100360615667563900423325756842698620141266976989560830nat, modulus()) == 24938434006269279515001579090621333835523574029261759380753430477081693552701nat,
{
    lemma_mpow_next(7, 1531381464653990179799282178385904237995406753380nat, 43593795685106335990396615560024655714245599395023368400546628072748256115737nat, 1, 28421656696159616008142181968481886472125616381902457136481928194533478852989nat, modulus());
    lemma_mpow_next(7, 3062762929307980359598564356771808475990813506761nat, 28421656696159616008142181968481886472125616381902457136481928194533478852989nat, 0, 27923680341890677287005443978264083038322165689695838792315217200850097091856nat, modulus());
    lemma_mpow_next(7, 6125525858615960719197128713543616951981627013522nat, 27923680341890677287005443978264083038322165689695838792315217200850097091856nat, 1, 32391909016888165917751402610500969722287597382398962322786256369791743998566nat, modulus());
    lemma_mpow_next(7, 12251051717231921438394257427087233903963254027045nat, 32391909016888165917751402610500969722287597382398962322786256369791743998566nat, 1, 35324506847836905180741719481659580396001254229471392362316978704454110879153nat, modulus());
    lemma_mpow_next(7, 24502103434463842876788514854174467807926508054091nat, 35324506847836905180741719481659580396001254229471392362316978704454110879153nat, 1, 19015728360025941537158107328278319034024035830591762757323936558153474662378nat, modulus());
    lemma_mpow_next(7, 49004206868927685753577029708348935615853016108183nat, 19015728360025941537158107328278319034024035830591762757323936558153474662378nat, 1, 7890998628712715867670285739904153134097788746218979583674240687989821134471nat, modulus());
    lemma_mpow_next(7, 98008413737855371507154059416697871231706032216367nat, 7890998628712715867670285739904153134097788746218979583674240687989821134471nat, 1, 8691717596024696877479915658441075543540350618533567776400170971654916563541nat, modulus());
    lemma_mpow_next(7, 196016827475710743014308118833395742463412064432735nat, 8691717596024696877479915658441075543540350618533567776400170971654916563541nat, 1, 41159182569361665819123439424162233714814706020890424067756727551919553394548nat, modulus());
    lemma_mpow_next(7, 392033654951421486028616237666791484926824128865471nat, 41159182569361665819123439424162233714814706020890424067756727551919553394548nat, 1, 10609580106603235533792793704242177573616825945401972099554116931099591744203nat, modulus());
    lemma_mpow_next(7, 784067309902842972057232475333582969853648257730943nat, 10609580106603235533792793704242177573616825945401972099554116931099591744203nat, 1, 20658500837270312232296211770442190921808246746490265324985651893565069984450nat, modulus());
    lemma_mpow_next(7, 1568134619805685944114464950667165939707296515461887nat, 20658500837270312232296211770442190921808246746490265324985651893565069984450nat, 1, 47647949519028630339221735204215480021671732484261892272249993168641773259268nat, modulus());
    lemma_mpow_next(7, 3136269239611371888228929901334331879414593030923775nat, 47647949519028630339221735204215480021671732484261892272249993168641773259268nat, 1, 337641081445542092578662931819664037843135921431783154709596666755776182055nat, modulus());
    lemma_mpow_next(7, 6272538479222743776457859802668663758829186061847551nat, 337641081445542092578662931819664037843135921431783154709596666755776182055nat, 1, 17581622522902784925329180809847345301384129570583476142242392328129526193845nat, modulus());
    lemma_mpow_next(7, 12545076958445487552915719605337327517658372123695103nat, 17581622522902784925329180809847345301384129570583476142242392328129526193845nat, 1, 35563030171184416964313643252055120578907076273307106112661182953446146135424nat, modulus());
    lemma_mpow_next(7, 25090153916890975105831439210674655035316744247390207nat, 35563030171184416964313643252055120578907076273307106112661182953446146135424nat, 1, 42535669257207936384852966616841415477127977305048978189525753956276038525836nat, modulus());
    lemma_mpow_next(7, 50180307833781950211662878421349310070633488494780415nat, 42535669257207936384852966616841415477127977305048978189525753956276038525836nat, 0, 24938434006269279515001579090621333835523574029261759380753430477081693552701nat, modulus());
}

/// Squarings 177 to 192 of the power below.
#[verifier::spinoff_prover]
#[verifier::rlimit(50)]
proof fn lemma_pow_order_by_906349_part11()
    requires
        mpow(7, 100360615667563900423325756842698620141266976989560830nat, modulus()) == 24938434006269279515001579090621333835523574029261759380753430477081693552701nat,
    ensures
        mpow(7, 6577233308389467778143076800443096769578072603987858561557nat, modulus()) == 41411723315840383266990764308972830902896046379867339828511647356746687490441nat,
{
    lemma_mpow_next(7, 100360615667563900423325756842698620141266976989560830nat, 24938434006269279515001579090621333835523574029261759380753430477081693552701nat, 0, 29344776694807460958884950928556914096136209201445780718418477059170875563990nat, modulus());
    lemma_mpow_next(7, 200721231335127800846651513685397240282533953979121660nat, 29344776694807460958884950928556914096136209201445780718418477059170875563990nat, 0, 18210169728017805401411043096065179897816074811860801513511550594477047898164nat, modulus());
    lemma_mpow_next(7, 401442462670255601693303027370794480565067907958243320nat, 18210169728017805401411043096065179897816074811860801513511550594477047898164nat, 0, 22918640486866441549658179644608793063264387431326484308271598506771334182778nat, modulus());
    lemma_mpow_next(7, 802884925340511203386606054741588961130135815916486640nat, 22918640486866441549658179644608793063264387431326484308271598506771334182778nat, 1, 6748179799852712319392877096776618712701252001540364866442186102516689568838nat, modulus());
    lemma_mpow_next(7, 1605769850681022406773212109483177922260271631832973281nat, 6748179799852712319392877096776618712701252001540364866442186102516689568838nat, 1, 15553194331020516361036606711887428414117000871938885013557802710013155527660nat, modulus());
    lemma_mpow_next(7, 3211539701362044813546424218966355844520543263665946563nat, 15553194331020516361036606711887428414117000871938885013557802710013155527660nat, 0, 32042159333632434539590152141243047014600902338231691799731798501169356401429nat, modulus());
    lemma_mpow_next(7, 6423079402724089627092848437932711689041086527331893126nat, 32042159333632434539590152141243047014600902338231691799731798501169356401429nat, 1, 31817563712913954882957193756871257914667695148860425019947872854152326232881nat, modulus());
    lemma_mpow_next(7, 12846158805448179254185696875865423378082173054663786253nat, 31817563712913954882957193756871257914667695148860425019947872854152326232881nat, 0, 50380971941695460980833528934837511811064751444497221499746248747537690220759nat, modulus());
    lemma_mpow_next(7, 25692317610896358508371393751730846756164346109327572506nat, 50380971941695460980833528934837511811064751444497221499746248747537690220759nat, 0, 27155720503677640466895817194774767590426743678816642890502739837631405296875nat, modulus());
    lemma_mpow_next(7, 51384635221792717016742787503461693512328692218655145012nat, 27155720503677640466895817194774767590426743678816642890502739837631405296875nat, 0, 44428588489091002891444741014067702195706871025041052513104803471134069673315nat, modulus());
    lemma_mpow_next(7, 102769270443585434033485575006923387024657384437310290024nat, 44428588489091002891444741014067702195706871025041052513104803471134069673315nat, 0, 21407117146297329188681346127861585649098699409687051714527870352794981641029nat, modulus());
    lemma_mpow_next(7, 205538540887170868066971150013846774049314768874620580048nat, 21407117146297329188681346127861585649098699409687051714527870352794981641029nat, 1, 8815413903933076300805081195275938810687367161171566741732849849111662639104nat, modulus());
    lemma_mpow_next(7, 411077081774341736133942300027693548098629537749241160097nat, 8815413903933076300805081195275938810687367161171566741732849849111662639104nat, 0, 11685720780201435526399738484689761196080257824065665814983344188344146956695nat, modulus());
    lemma_mpow_next(7, 822154163548683472267884600055387096197259075498482320194nat, 11685720780201435526399738484689761196080257824065665814983344188344146956695nat, 1, 26309648787255164366611756314336833360594980781792152523602246266107995208585nat, modulus());
    lemma_mpow_next(7, 1644308327097366944535769200110774192394518150996964640389nat, 26309648787255164366611756314336833360594980781792152523602246266107995208585nat, 0, 12723070099881578273163158442873374698138727277115487717214552147087933047390nat, modulus());
    lemma_mpow_next(7, 3288616654194733889071538400221548384789036301993929280778nat, 12723070099881578273163158442873374698138727277115487717214552147087933047390nat, 1, 41411723315840383266990764308972830902896046379867339828511647356746687490441nat, modulus());
}

/// Squarings 193 to 208 of the power below.
#[verifier::spinoff_prover]
#[verifier::rlimit(50)]
proof fn lemma_pow_order_by_906349_part12()
    requires
        mpow(7, 6577233308389467778143076800443096769578072603987858561557nat, modulus()) == 41411723315840383266990764308972830902896046379867339828511647356746687490441nat,
    ensures
        mpow(7, 431045562098612160308384681193838789891068566174948298690220896nat, modulus()) == 2749570073938908158049190876260190427617348408180758803083127152678318316111nat,
{
    lemma_mpow_next(7, 6577233308389467778143076800443096769578072603987858561557nat, 41411723315840383266990764308972830902896046379867339828511647356746687490441nat, 0, 15325978943490414293250793056459249810918003733173441411346723593244933192177nat, modulus());
    lemma_mpow_next(7, 13154466616778935556286153600886193539156145207975717123114nat, 15325978943490414293250793056459249810918003733173441411346723593244933192177nat, 1, 51795970649056311752629527130491699934257923482207703361047140824183602896262nat, modulus());
    lemma_mpow_next(7, 26308933233557871112572307201772387078312290415951434246229nat, 51795970649056311752629527130491699934257923482207703361047140824183602896262nat, 0, 44280656106949137007289250803879907251011189291267600000665144761043160120554nat, modulus());
    lemma_mpow_next(7, 52617866467115742225144614403544774156624580831902868492458nat, 44280656106949137007289250803879907251011189291267600000665144761043160120554nat, 1, 12421153058663066130161741473018410381699906004533962536653476717146895080350nat, modulus());
    lemma_mpow_next(7, 105235732934231484450289228807089548313249161663805736984917nat, 12421153058663066130161741473018410381699906004533962536653476717146895080350nat, 0, 42244068779929165772383141336647606124969512140447828218587659320280275681913nat, modulus());
    lemma_mpow_next(7, 210471465868462968900578457614179096626498323327611473969834nat, 42244068779929165772383141336647606124969512140447828218587659320280275681913nat, 0, 41163706756539919986820837245912661569424961186956642278570854552270931899673nat, modulus());
    lemma_mpow_next(7, 420942931736925937801156915228358193252996646655222947939668nat, 41163706756539919986820837245912661569424961186956642278570854552270931899673nat, 1, 18286140365358358315222684751080800423258324622016185355387874777356702560985nat, modulus());
    lemma_mpow_next(7, 841885863473851875602313830456716386505993293310445895879337nat, 18286140365358358315222684751080800423258324622016185355387874777356702560985nat, 1, 6360985958621481024668098460433959321004462250553769177518887292975507966622nat, modulus());
    lemma_mpow_next(7, 1683771726947703751204627660913432773011986586620891791758675nat, 6360985958621481024668098460433959321004462250553769177518887292975507966622nat, 0, 3026080625078344413526301482515246500877448156451759880902775664615586634770nat, modulus());
    lemma_mpow_next(7, 3367543453895407502409255321826865546023973173241783583517350nat, 3026080625078344413526301482515246500877448156451759880902775664615586634770nat, 1, 7907940868826789636351936945248104443772649244665902234367486449264073956533nat, modulus());
    lemma_mpow_next(7, 6735086907790815004818510643653731092047946346483567167034701nat, 7907940868826789636351936945248104443772649244665902234367486449264073956533nat, 1, 17011897453987788121848317592022906170335289620415369550071737345350642685072nat, modulus());
    lemma_mpow_next(7, 13470173815581630009637021287307462184095892692967134334069403nat, 17011897453987788121848317592022906170335289620415369550071737345350642685072nat, 0, 22819806608012763119823199208313267042949382821011847975844552422455340901986nat, modulus());
    lemma_mpow_next(7, 26940347631163260019274042574614924368191785385934268668138806nat, 22819806608012763119823199208313267042949382821011847975844552422455340901986nat, 0, 36379347587961858511575468448224170314626101937828195457677506981243112675170nat, modulus());
    lemma_mpow_next(7, 53880695262326520038548085149229848736383570771868537336277612nat, 36379347587961858511575468448224170314626101937828195457677506981243112675170nat, 0, 9821897956687372290406034067816060747339957444178238644414203323400585066008nat, modulus());
    lemma_mpow_next(7, 107761390524653040077096170298459697472767141543737074672555224nat, 9821897956687372290406034067816060747339957444178238644414203323400585066008nat, 0, 27003325159611635012789993655305431763501274441395004312033375264258922575312nat, modulus());
    lemma_mpow_next(7, 215522781049306080154192340596919394945534283087474149345110448nat, 27003325159611635012789993655305431763501274441395004312033375264258922575312nat, 0, 2749570073938908158049190876260190427617348408180758803083127152678318316111nat, modulus());
}

/// Squarings 209 to 224 of the power below.
#[verifier::spinoff_prover]
#[verifier::rlimit(50)]
proof fn lemma_pow_order_by_906349_part13()
    requires
        mpow(7, 431045562098612160308384681193838789891068566174948298690220896nat, modulus()) == 2749570073938908158049190876260190427617348408180758803083127152678318316111nat,
    ensures
        mpow(7, 28249001957694646537970298466719418934301069552841411702962316640256nat, modulus()) == 32135291552719982248556104749935055280641926231704575789750793639250923588276nat,
{
    lemma_mpow_next(7, 431045562098612160308384681193838789891068566174948298690220896nat, 2749570073938908158049190876260190427617348408180758803083127152678318316111nat, 0, 33493012434623651414012639450134633121446445519321561566519801420066119451619nat, modulus());
    lemma_mpow_next(7, 862091124197224320616769362387677579782137132349896597380441792nat, 33493012434623651414012639450134633121446445519321561566519801420066119451619nat, 0, 9304303082416346029960493934078117482043582188538208045317305837073034224774nat, modulus());
    lemma_mpow_next(7, 1724182248394448641233538724775355159564274264699793194760883584nat, 9304303082416346029960493934078117482043582188538208045317305837073034224774nat, 0, 15390061696868249032920776637143078771697310912187868391770841154285788982291nat, modulus());
    lemma_mpow_next(7, 3448364496788897282467077449550710319128548529399586389521767168nat, 15390061696868249032920776637143078771697310912187868391770841154285788982291nat, 0, 25647278088740524393143615297847681703099962207910834067147507044337131980584nat, modulus());
    lemma_mpow_next(7, 6896728993577794564934154899101420638257097058799172779043534336nat, 25647278088740524393143615297847681703099962207910834067147507044337131980584nat, 0, 41669174641061336400562758841787552474408235957337650455572671907020043894138nat, modulus());
    lemma_mpow_next(7, 13793457987155589129868309798202841276514194117598345558087068672nat, 41669174641061336400562758841787552474408235957337650455572671907020043894138nat, 0, 16585571252398571596342553869673313798192663267415640907606890227625022203071nat, modulus());
    lemma_mpow_next(7, 27586915974311178259736619596405682553028388235196691116174137344nat, 16585571252398571596342553869673313798192663267415640907606890227625022203071nat, 0, 7997880556343155019512916869842793142626238912562962271658433021599506165578nat, modulus());
    lemma_mpow_next(7, 55173831948622356519473239192811365106056776470393382232348274688nat, 7997880556343155019512916869842793142626238912562962271658433021599506165578nat, 0, 34321947496706384841388377356116352688091325846122595858818813729716973748598nat, modulus());
    lemma_mpow_next(7, 110347663897244713038946478385622730212113552940786764464696549376nat, 34321947496706384841388377356116352688091325846122595858818813729716973748598nat, 0, 40751015676057232380271058905063278110144341732520625577457007017643373895127nat, modulus());
    lemma_mpow_next(7, 220695327794489426077892956771245460424227105881573528929393098752nat, 40751015676057232380271058905063278110144341732520625577457007017643373895127nat, 0, 23083198473909246963022413577330363259103619744838083548966532924493103932728nat, modulus());
    lemma_mpow_next(7, 441390655588978852155785913542490920848454211763147057858786197504nat, 23083198473909246963022413577330363259103619744838083548966532924493103932728nat, 0, 11802358884641762152977346736876930341292132540474942713678684513860971521987nat, modulus());
    lemma_mpow_next(7, 882781311177957704311571827084981841696908423526294115717572395008nat, 11802358884641762152977346736876930341292132540474942713678684513860971521987nat, 0, 12789972325422815366695185440885398234020323333254073942612607355049449320067nat, modulus());
    lemma_mpow_next(7, 1765562622355915408623143654169963683393816847052588231435144790016nat, 12789972325422815366695185440885398234020323333254073942612607355049449320067nat, 0, 26607831823124970484745221893072537274747183080003052238874392572939757791133nat, modulus());
    lemma_mpow_next(7, 3531125244711830817246287308339927366787633694105176462870289580032nat, 26607831823124970484745221893072537274747183080003052238874392572939757791133nat, 0, 14963812821170477720142709518075541829173023192742075303813939614525431560481nat, modulus());
    lemma_mpow_next(7, 7062250489423661634492574616679854733575267388210352925740579160064nat, 14963812821170477720142709518075541829173023192742075303813939614525431560481nat, 0, 3627383001033267564692766495534321209946454510269101063347123614324272888313nat, modulus());
    lemma_mpow_next(7, 14124500978847323268985149233359709467150534776420705851481158320128nat, 3627383001033267564692766495534321209946454510269101063347123614324272888313nat, 0, 32135291552719982248556104749935055280641926231704575789750793639250923588276nat, modulus());
}

/// Squarings 225 to 235 of the power below.
#[verifier::spinoff_prover]
#[verifier::rlimit(50)]
proof fn lemma_pow_order_by_906349_part14()
    requires
        mpow(7, 28249001957694646537970298466719418934301069552841411702962316640256nat, modulus()) == 32135291552719982248556104749935055280641926231704575789750793639250923588276nat,
    ensures
        mpow(7, 57853956009358636109763171259841369977448590444219211167666824479244288nat, modulus()) == 47009375709878424687795209168006564057444627941356163587161684439552631655798nat,
{
    lemma_mpow_next(7, 28249001957694646537970298466719418934301069552841411702962316640256nat, 32135291552719982248556104749935055280641926231704575789750793639250923588276nat, 0, 774827866780299529112226420304083917417488986910944624184627852831510085745nat, modulus());
    lemma_mpow_next(7, 56498003915389293075940596933438837868602139105682823405924633280512nat, 774827866780299529112226420304083917417488986910944624184627852831510085745nat, 0, 1040619404115566278830590931717976331184305040584753998475405377979560461780nat, modulus());
    lemma_mpow_next(7, 112996007830778586151881193866877675737204278211365646811849266561024nat, 1040619404115566278830590931717976331184305040584753998475405377979560461780nat, 0, 9384034338823829537969699836668449706365709901131705449674959381488661155456nat, modulus());
    lemma_mpow_next(7, 225992015661557172303762387733755351474408556422731293623698533122048nat, 9384034338823829537969699836668449706365709901131705449674959381488661155456nat, 0, 5570296625016677237852318492635226074275827743760919728045404854453610586718nat, modulus());
    lemma_mpow_next(7, 451984031323114344607524775467510702948817112845462587247397066244096nat, 5570296625016677237852318492635226074275827743760919728045404854453610586718nat, 0, 47591370338645073268168570431102635217954312174684520427265918118026922077518nat, modulus());
    lemma_mpow_next(7, 903968062646228689215049550935021405897634225690925174494794132488192nat, 47591370338645073268168570431102635217954312174684520427265918118026922077518nat, 0, 10041964207199985530957610443931660532302496688751764762846677934246417799605nat, modulus());
    lemma_mpow_next(7, 1807936125292457378430099101870042811795268451381850348989588264976384nat, 10041964207199985530957610443931660532302496688751764762846677934246417799605nat, 0, 30574473362235291900163957167311069820602938593018086049280947885599103992742nat, modulus());
    lemma_mpow_next(7, 3615872250584914756860198203740085623590536902763700697979176529952768nat, 30574473362235291900163957167311069820602938593018086049280947885599103992742nat, 0, 50293844939407511337638658094675143923174298128938099173756214748152816447109nat, modulus());
    lemma_mpow_next(7, 7231744501169829513720396407480171247181073805527401395958353059905536nat, 50293844939407511337638658094675143923174298128938099173756214748152816447109nat, 0, 20103467024363211879938616069071905930052172321962354864435505262342123654397nat, modulus());
    lemma_mpow_next(7, 14463489002339659027440792814960342494362147611054802791916706119811072nat, 20103467024363211879938616069071905930052172321962354864435505262342123654397nat, 0, 28761666998065673010053528790456977021804512730051378579579583209950557046238nat, modulus());
    lemma_mpow_next(7, 28926978004679318054881585629920684988724295222109605583833412239622144nat, 28761666998065673010053528790456977021804512730051378579579583209950557046238nat, 0, 47009375709878424687795209168006564057444627941356163587161684439552631655798nat, modulus());
}

/// The generator to the power `(n - 1) / 906349` modulo the field order `n`.
proof fn lemma_pow_order_by_906349()
    ensures
        mpow(7, 57853956009358636109763171259841369977448590444219211167666824479244288nat, modulus()) == 47009375709878424687795209168006564057444627941356163587161684439552631655798nat,
{
    lemma_mpow_first(7, modulus());
    lemma_pow_order_by_906349_part0();
    lemma_pow_order_by_906349_part1();
    lemma_pow_order_by_906349_part2();
    lemma_pow_order_by_906349_part3();
    lemma_pow_order_by_906349_part4();
    lemma_pow_order_by_906349_part5();
    lemma_pow_order_by_906349_part6();
    lemma_pow_order_by_906349_part7();
    lemma_pow_order_by_906349_part8();
    lemma_pow_order_by_906349_part9();
    lemma_pow_order_by_906349_part10();
    lemma_pow_order_by_906349_part11();
    lemma_pow_order_by_906349_part12();
    lemma_pow_order_by_906349_part13();
    lemma_pow_order_by_906349_part14();
}

/// Squarings 1 to 16 of the power below.
#[verifier::spinoff_prover]
#[verifier::rlimit(50)]
proof fn lemma_pow_order_by_2508409_part0()
    requires
        mpow(7, 1, modulus()) == 7,
    ensures
        mpow(7, 99247, modulus()) == 12133286482983897501667476406587554911769144846880544660648650568559256913966nat,
{
    lemma_mpow_next(7, 1, 7, 1, 343, modulus());
    lemma_mpow_next(7, 3, 343, 0, 117649, modulus());
    lemma_mpow_next(7, 6, 117649, 0, 13841287201, modulus());
    lemma_mpow_next(7, 12, 13841287201, 0, 191581231380566414401nat, modulus());
    lemma_mpow_next(7, 24, 191581231380566414401nat, 0, 36703368217294125441230211032033660188801nat, modulus());
    lemma_mpow_next(7, 48, 36703368217294125441230211032033660188801nat, 0, 7169370109588224514666326067242483218629163598934389574923453452029754494118nat, modulus());
    lemma_mpow_next(7, 96, 7169370109588224514666326067242483218629163598934389574923453452029754494118nat, 1, 12822504896825417961639400263676994172652002439768660762268658397554309250559nat, modulus());
    lemma_mpow_next(7, 193, 12822504896825417961639400263676994172652002439768660762268658397554309250559nat, 1, 36868852427815108372387420103283837124387904892593226998902320009257618868249nat, modulus());
    lemma_mpow_next(7, 387, 36868852427815108372387420103283837124387904892593226998902320009257618868249nat, 1, 26521015635100624539412482069161716829529880910098896228078944259467036093148nat, modulus());
    lemma_mpow_next(7, 775, 26521015635100624539412482069161716829529880910098896228078944259467036093148nat, 0, 22006541018394088149664166070168393776467963218390582436815097944499394098427nat, modulus());
    lemma_mpow_next(7, 1550, 22006541018394088149664166070168393776467963218390582436815097944499394098427nat, 1, 12078436991546237852757935931602827996821647856914969725951940265075931405690nat, modulus());
    lemma_mpow_next(7, 3101, 12078436991546237852757935931602827996821647856914969725951940265075931405690nat, 0, 23995648410066244344680530181510737719189620961485215219344683173530249306860nat, modulus());
    lemma_mpow_next(7, 6202, 23995648410066244344680530181510737719189620961485215219344683173530249306860nat, 1, 22838473322398641866335603031272368711632577210327249045258599343031315991249nat, modulus());
    lemma_mpow_next(7, 12405, 22838473322398641866335603031272368711632577210327249045258599343031315991249nat, 1, 9304316887891833734578065450129493540849558119804073857044014899786869863950nat, modulus());
    lemma_mpow_next(7, 24811, 9304316887891833734578065450129493540849558119804073857044014899786869863950nat, 1, 25554330664088727825584021365489278246663570957876809707908227101544838757958nat, modulus());
    lemma_mpow_next(7, 49623, 25554330664088727825584021365489278246663570957876809707908227101544838757958nat, 1, 12133286482983897501667476406587554911769144846880544660648650568559256913966nat, modulus());
}

/// Squarings 17 to 32 of the power below.
#[verifier::spinoff_prover]
#[verifier::rlimit(50)]
proof fn lemma_pow_order_by_2508409_part1()
    requires
        mpow(7, 99247, modulus()) == 12133286482983897501667476406587554911769144846880544660648650568559256913966nat,
    ensures
        mpow(7, 6504307158, modulus()) == 33590251414212548030423869894572901142530191443094019561149497087628918370111nat,
{
    lemma_mpow_next(7, 99247, 12133286482983897501667476406587554911769144846880544660648650568559256913966nat, 1, 15127349201057262061351281841342041894722734047571210104301803213117153186493nat, modulus());
    lemma_mpow_next(7, 198495, 15127349201057262061351281841342041894722734047571210104301803213117153186493nat, 1, 43705718991898316118324794543023230924976260168487228523033613056610110304954nat, modulus());
    lemma_mpow_next(7, 396991, 43705718991898316118324794543023230924976260168487228523033613056610110304954nat, 0, 51094969339624164048243338369549299346937383776008358524375704746136911993090nat, modulus());
    lemma_mpow_next(7, 793982, 51094969339624164048243338369549299346937383776008358524375704746136911993090nat, 1, 19450276533951269018062540477717864711293980777214919441007170405332560349670nat, modulus());
    lemma_mpow_next(7, 1587965, 19450276533951269018062540477717864711293980777214919441007170405332560349670nat, 1, 199753632064520622095245844258564986878595361562400019263405430854456070816nat, modulus());
    lemma_mpow_next(7, 3175931, 199753632064520622095245844258564986878595361562400019263405430854456070816nat, 0, 29924421254528473475073047609211251394163521900901198763122983154528903195300nat, modulus());
    lemma_mpow_next(7, 6351862, 29924421254528473475073047609211251394163521900901198763122983154528903195300nat, 0, 47638813303044139799884599534809418197448046529238513731631836678066121034320nat, modulus());
    lemma_mpow_next(7, 12703724, 47638813303044139799884599534809418197448046529238513731631836678066121034320nat, 1, 8656585134055416221587607026577781904075293184677551661987554668052306152591nat, modulus());
    lemma_mpow_next(7, 25407449, 8656585134055416221587607026577781904075293184677551661987554668052306152591nat, 1, 15743039828305663151580435043414817459527225554149488708547655985626959253079nat, modulus());
    lemma_mpow_next(7, 50814899, 15743039828305663151580435043414817459527225554149488708547655985626959253079nat, 1, 11520966629781762998778110646204394144595032281909429254130470482312682867697nat, modulus());
    lemma_mpow_next(7, 101629799, 11520966629781762998778110646204394144595032281909429254130470482312682867697nat, 0, 45597664308033956884947851781217962413669187357280881390711829540942865572158nat, modulus());
    lemma_mpow_next(7, 203259598, 45597664308033956884947851781217962413669187357280881390711829540942865572158nat, 1, 4800582084719244144159087147098123606163118965946788074756703809327466837640nat, modulus());
    lemma_mpow_next(7, 406519197, 4800582084719244144159087147098123606163118965946788074756703809327466837640nat, 0, 32184545333198769253004177785073315374520369370916230824234759288814629773248nat, modulus());
    lemma_mpow_next(7, 813038394, 32184545333198769253004177785073315374520369370916230824234759288814629773248nat, 1, 24251396130714595462884779427064607084647212307266848019018053008566555504177nat, modulus());
    lemma_mpow_next(7, 1626076789, 24251396130714595462884779427064607084647212307266848019018053008566555504177nat, 1, 49930802458278811357737453235775380602649799134178432872142499809046766735970nat, modulus());
    lemma_mpow_next(7, 3252153579, 49930802458278811357737453235775380602649799134178432872142499809046766735970nat, 0, 33590251414212548030423869894572901142530191443094019561149497087628918370111nat, modulus());
}

/// Squarings 33 to 48 of the power below.
#[verifier::spinoff_prover]
#[verifier::rlimit(50)]
proof fn lemma_pow_order_by_2508409_part2()
    requires
        mpow(7, 6504307158, modulus()) == 33590251414212548030423869894572901142530191443094019561149497087628918370111nat,
    ensures
        mpow(7, 426266273965469, modulus()) == 7839917903317224898108577884907099972254361436951624803909380021099743203380nat,
{
    lemma_mpow_next(7, 6504307158, 33590251414212548030423869894572901142530191443094019561149497087628918370111nat, 1, 39112672916156787417665129024059499790691302692881908126145965396093194869178nat, modulus());
    lemma_mpow_next(7, 13008614317, 39112672916156787417665129024059499790691302692881908126145965396093194869178nat, 1, 5356561786936003787622758149809898217831166282282457360352972602840623129402nat, modulus());
    lemma_mpow_next(7, 26017228635, 5356561786936003787622758149809898217831166282282457360352972602840623129402nat, 1, 40899938275659008528310579376908064314168996594758797178132395536440655155746nat, modulus());
    lemma_mpow_next(7, 52034457271, 40899938275659008528310579376908064314168996594758797178132395536440655155746nat, 0, 29980202973215082294223818022448725474123300048778058156897799577307316440906nat, modulus());
    lemma_mpow_next(7, 104068914542, 29980202973215082294223818022448725474123300048778058156897799577307316440906nat, 0, 41362229083601718430208222031286240821666128890160714189595900121275316108756nat, modulus());
    lemma_mpow_next(7, 208137829084, 41362229083601718430208222031286240821666128890160714189595900121275316108756nat, 1, 11658205335825522582919601516111552949632918352305763407959990915691490584209nat, modulus());
    lemma_mpow_next(7, 416275658169, 11658205335825522582919601516111552949632918352305763407959990915691490584209nat, 0, 21979536000835549987370321839908095918022185609187340680567949035056378799191nat, modulus());
    lemma_mpow_next(7, 832551316338, 21979536000835549987370321839908095918022185609187340680567949035056378799191nat, 1, 15017838588661405194353130539610027055524575967566446085863933351444921278033nat, modulus());
    lemma_mpow_next(7, 1665102632677, 15017838588661405194353130539610027055524575967566446085863933351444921278033nat, 1, 15401044678646417849295268513859496314236565435648798845042559438263675537717nat, modulus());
    lemma_mpow_next(7, 3330205265355, 15401044678646417849295268513859496314236565435648798845042559438263675537717nat, 0, 40044447330595303113460616008493477700658144854186528923074576713020776687385nat, modulus());
    lemma_mpow_next(7, 6660410530710, 40044447330595303113460616008493477700658144854186528923074576713020776687385nat, 0, 20963315169625694468736297550545478046767654039877265055565861757755099913024nat, modulus());
    lemma_mpow_next(7, 13320821061420, 20963315169625694468736297550545478046767654039877265055565861757755099913024nat, 1, 17813668262002104640155928111435880737184620521312033187347140726680078815347nat, modulus());
    lemma_mpow_next(7, 26641642122841, 17813668262002104640155928111435880737184620521312033187347140726680078815347nat, 1, 9709178103853664385237852172949859250209050187053763975682194261319529359662nat, modulus());
    lemma_mpow_next(7, 53283284245683, 9709178103853664385237852172949859250209050187053763975682194261319529359662nat, 1, 20929703267679990003617208308145566684718202880324492048031732987847650085831nat, modulus());
    lemma_mpow_next(7, 106566568491367, 20929703267679990003617208308145566684718202880324492048031732987847650085831nat, 0, 18766986381977203822516280877403566751468978415099268381382837003029323114443nat, modulus());
    lemma_mpow_next(7, 213133136982734, 18766986381977203822516280877403566751468978415099268381382837003029323114443nat, 1, 7839917903317224898108577884907099972254361436951624803909380021099743203380nat, modulus());
}

/// Squarings 49 to 64 of the power below.
#[verifier::spinoff_prover]
#[verifier::rlimit(50)]
proof fn lemma_pow_order_by_2508409_part3()
    requires
        mpow(7, 426266273965469, modulus()) == 7839917903317224898108577884907099972254361436951624803909380021099743203380nat,
    ensures
        mpow(7, 27935786530601012654nat, modulus()) == 19173956365154419622450321255842882222108802190893276591179117931954545305917nat,
{
    lemma_mpow_next(7, 426266273965469, 7839917903317224898108577884907099972254361436951624803909380021099743203380nat, 1, 51289379998657081149881235278442809844094023359707687102643633600288808347383nat, modulus());
    lemma_mpow_next(7, 852532547930939, 51289379998657081149881235278442809844094023359707687102643633600288808347383nat, 0, 4017548369589222957349820450731772407824852049209524589363463748178428194601nat, modulus());
    lemma_mpow_next(7, 1705065095861878, 4017548369589222957349820450731772407824852049209524589363463748178428194601nat, 0, 5207262006227355860033674417521196324761697218052276506459566310046224130745nat, modulus());
    lemma_mpow_next(7, 3410130191723756, 5207262006227355860033674417521196324761697218052276506459566310046224130745nat, 0, 36685642853102575875590733931141233372435700125806029370945970936174463151909nat, modulus());
    lemma_mpow_next(7, 6820260383447512, 36685642853102575875590733931141233372435700125806029370945970936174463151909nat, 1, 8188612354964829150727402721430729301943925067820193454814364815725215015314nat, modulus());
    lemma_mpow_next(7, 13640520766895025, 8188612354964829150727402721430729301943925067820193454814364815725215015314nat, 1, 50100724689883235532590767637770965371954986129532418015187082516273481396181nat, modulus());
    lemma_mpow_next(7, 27281041533790051, 50100724689883235532590767637770965371954986129532418015187082516273481396181nat, 0, 30394324169707253401304039251396711713067201369373377679583438089440585875727nat, modulus());
    lemma_mpow_next(7, 54562083067580102, 30394324169707253401304039251396711713067201369373377679583438089440585875727nat, 1, 35278107948317104643104974956190964750943241722346824550220408295165417050024nat, modulus());
    lemma_mpow_next(7, 109124166135160205, 35278107948317104643104974956190964750943241722346824550220408295165417050024nat, 1, 30561762725852661573416502751825637660973807547264967883384034719582877073685nat, modulus());
    lemma_mpow_next(7, 218248332270320411, 30561762725852661573416502751825637660973807547264967883384034719582877073685nat, 0, 156749546090658557239541223071232795217662996161973696384451288731951885865nat, modulus());
    lemma_mpow_next(7, 436496664540640822, 156749546090658557239541223071232795217662996161973696384451288731951885865nat, 1, 7832199608314422083432700167634067289853825812511357809214229975790842987996nat, modulus());
    lemma_mpow_next(7, 872993329081281645, 7832199608314422083432700167634067289853825812511357809214229975790842987996nat, 0, 37239378780091447323344791360277616452758394928551847146158015143994809025999nat, modulus());
    lemma_mpow_next(7, 1745986658162563290nat, 37239378780091447323344791360277616452758394928551847146158015143994809025999nat, 1, 36224787749099086588017846875351796135091077860477094399785473394757614105660nat, modulus());
    lemma_mpow_next(7, 3491973316325126581nat, 36224787749099086588017846875351796135091077860477094399785473394757614105660nat, 1, 48764399209148266282979270639207953810672534603708099656875153400989660064607nat, modulus());
    lemma_mpow_next(7, 6983946632650253163nat, 48764399209148266282979270639207953810672534603708099656875153400989660064607nat, 1, 22097145136469717308961202593112945083482821256737773186219479412710243984430nat, modulus());
    lemma_mpow_next(7, 13967893265300506327nat, 22097145136469717308961202593112945083482821256737773186219479412710243984430nat, 0, 19173956365154419622450321255842882222108802190893276591179117931954545305917nat, modulus());
}

/// Squarings 65 to 80 of the power below.
#[verifier::spinoff_prover]
#[verifier::rlimit(50)]
proof fn lemma_pow_order_by_2508409_part4()
    requires
        mpow(7, 27935786530601012654nat, modulus()) == 19173956365154419622450321255842882222108802190893276591179117931954545305917nat,
    ensures
        mpow(7, 1830799706069467965320057nat, modulus()) == 27080042283062542209598943223533313432179739469020303878449199318522348370182nat,
{
    lemma_mpow_next(7, 27935786530601012654nat, 19173956365154419622450321255842882222108802190893276591179117931954545305917nat, 0, 7661601799330026109635343162655224827497385959074505514204647880195540381387nat, modulus());
    lemma_mpow_next(7, 55871573061202025308nat, 7661601799330026109635343162655224827497385959074505514204647880195540381387nat, 1, 45882812254508121239480793923007698375604731596446897993897969370902655429354nat, modulus());
    lemma_mpow_next(7, 111743146122404050617nat, 45882812254508121239480793923007698375604731596446897993897969370902655429354nat, 1, 39496346476527903071472800947252036288875636648867663064288017021096289680300nat, modulus());
    lemma_mpow_next(7, 223486292244808101235nat, 39496346476527903071472800947252036288875636648867663064288017021096289680300nat, 0, 28213911330371312949977709434523324545693624368138318575453095320242722915270nat, modulus());
    lemma_mpow_next(7, 446972584489616202470nat, 28213911330371312949977709434523324545693624368138318575453095320242722915270nat, 1, 35866474991433761042425776064105548394014753171327810082790251283998088077137nat, modulus());
    lemma_mpow_next(7, 893945168979232404941nat, 35866474991433761042425776064105548394014753171327810082790251283998088077137nat, 0, 38444948778215060280400137524753268906634139787505991581093632310970684110167nat, modulus());
    lemma_mpow_next(7, 1787890337958464809882nat, 38444948778215060280400137524753268906634139787505991581093632310970684110167nat, 1, 10310813192602072124157507518919233526597552156857239098370175468806565145670nat, modulus());
    lemma_mpow_next(7, 3575780675916929619765nat, 10310813192602072124157507518919233526597552156857239098370175468806565145670nat, 1, 31173024584770163164076107107274917009885940461776680887082248401794347677277nat, modulus());
    lemma_mpow_next(7, 7151561351833859239531nat, 31173024584770163164076107107274917009885940461776680887082248401794347677277nat, 0, 30115340130963653029290390428859344633803339700291302587960224069388350923523nat, modulus());
    lemma_mpow_next(7, 14303122703667718479062nat, 30115340130963653029290390428859344633803339700291302587960224069388350923523nat, 1, 12859814525765250805495884366556926700549917801949573008562232186730058981333nat, modulus());
    lemma_mpow_next(7, 28606245407335436958125nat, 12859814525765250805495884366556926700549917801949573008562232186730058981333nat, 1, 4014453120152562870343067983655075795471645042851195269579045187727038273947nat, modulus());
    lemma_mpow_next(7, 57212490814670873916251nat, 4014453120152562870343067983655075795471645042851195269579045187727038273947nat, 1, 21617606225822991310626852462087300980937183586033303035414872742681196202910nat, modulus());
    lemma_mpow_next(7, 114424981629341747832503nat, 21617606225822991310626852462087300980937183586033303035414872742681196202910nat, 1, 92673491887773320632914635554378279373512101322610856539796343828247579533nat, modulus());
    lemma_mpow_next(7, 228849963258683495665007nat, 92673491887773320632914635554378279373512101322610856539796343828247579533nat, 0, 35783350868204612372755086388428767508977421690882266974269847363295920694508nat, modulus());
    lemma_mpow_next(7, 457699926517366991330014nat, 35783350868204612372755086388428767508977421690882266974269847363295920694508nat, 0, 26610319258170243608096114444617052130967502145597118082383753987769866705230nat, modulus());
    lemma_mpow_next(7, 915399853034733982660028nat, 26610319258170243608096114444617052130967502145597118082383753987769866705230nat, 1, 27080042283062542209598943223533313432179739469020303878449199318522348370182nat, modulus());
}

/// Squarings 81 to 96 of the power below.
#[verifier::spinoff_prover]
#[verifier::rlimit(50)]
proof fn lemma_pow_order_by_2508409_part5()
    requires
        mpow(7, 1830799706069467965320057nat, modulus()) == 27080042283062542209598943223533313432179739469020303878449199318522348370182nat,
    ensures
        mpow(7, 119983289536968652575215313993nat, modulus()) == 25820506401069996154292541238072546001455184194037379595622632612596022206811nat,
{
    lemma_mpow_next(7, 1830799706069467965320057nat, 27080042283062542209598943223533313432179739469020303878449199318522348370182nat, 1, 43647334187502111793905357150354745027956288965495242828456880061832791603506nat, modulus());
    lemma_mpow_next(7, 3661599412138935930640115nat, 43647334187502111793905357150354745027956288965495242828456880061832791603506nat, 1, 22065141221475498783854322370053056504835742792525285695259692865036402668275nat, modulus());
    lemma_mpow_next(7, 7323198824277871861280231nat, 22065141221475498783854322370053056504835742792525285695259692865036402668275nat, 1, 16098332367051146300191859603371793104552219439267420410708461517594254881377nat, modulus());
    lemma_mpow_next(7, 14646397648555743722560463nat, 16098332367051146300191859603371793104552219439267420410708461517594254881377nat, 0, 25831633764375217302103436413013566575750817727834845421590219712643324940557nat, modulus());
    lemma_mpow_next(7, 29292795297111487445120926nat, 25831633764375217302103436413013566575750817727834845421590219712643324940557nat, 0, 10079405911921830225872146644795478151969975936778109478045717286145021313817nat, modulus());
    lemma_mpow_next(7, 58585590594222974890241852nat, 10079405911921830225872146644795478151969975936778109478045717286145021313817nat, 1, 50127963223349176527804220697342674691107525625933312572671571826651962491915nat, modulus());
    lemma_mpow_next(7, 117171181188445949780483705nat, 50127963223349176527804220697342674691107525625933312572671571826651962491915nat, 0, 17321894874727536057849844667388429498680998009532301676847819778796288642873nat, modulus());
    lemma_mpow_next(7, 234342362376891899560967410nat, 17321894874727536057849844667388429498680998009532301676847819778796288642873nat, 0, 43066003757285374286883997803246259177842927163862866949650891332727101390983nat, modulus());
    lemma_mpow_next(7, 468684724753783799121934820nat, 43066003757285374286883997803246259177842927163862866949650891332727101390983nat, 0, 27756973129809701757758711205568799722184356243756478782557496515063377922270nat, modulus());
    lemma_mpow_next(7, 937369449507567598243869640nat, 27756973129809701757758711205568799722184356243756478782557496515063377922270nat, 1, 29101478883492103088972475468694083315056284521110229115188911903294529076786nat, modulus());
    lemma_mpow_next(7, 1874738899015135196487739281nat, 29101478883492103088972475468694083315056284521110229115188911903294529076786nat, 0, 50946098453794904097950311722055440357750934232759385852162752055599864194890nat, modulus());
    lemma_mpow_next(7, 3749477798030270392975478562nat, 50946098453794904097950311722055440357750934232759385852162752055599864194890nat, 0, 16096560044168077417206117005337396298596855695181256816862073017182175630440nat, modulus());
    lemma_mpow_next(7, 7498955596060540785950957124nat, 16096560044168077417206117005337396298596855695181256816862073017182175630440nat, 1, 52422811518403460880199363209220277752210855821752844375508101239299210433871nat, modulus());
    lemma_mpow_next(7, 14997911192121081571901914249nat, 52422811518403460880199363209220277752210855821752844375508101239299210433871nat, 0, 31446247096184342211313504318271446195892409758043194203790291106297517339431nat, modulus());
    lemma_mpow_next(7, 29995822384242163143803828498nat, 31446247096184342211313504318271446195892409758043194203790291106297517339431nat, 0, 2437643436198111679074376196435867045398491494931884201253163872812484469543nat, modulus());
    lemma_mpow_next(7, 59991644768484326287607656996nat, 2437643436198111679074376196435867045398491494931884201253163872812484469543nat, 1, 25820506401069996154292541238072546001455184194037379595622632612596022206811nat, modulus());
}

/// Squarings 97 to 112 of the power below.
#[verifier::spinoff_prover]
#[verifier::rlimit(50)]
proof fn lemma_pow_order_by_2508409_part6()
    requires
        mpow(7, 119983289536968652575215313993nat, modulus()) == 25820506401069996154292541238072546001455184194037379595622632612596022206811nat,
    ensures
        mpow(7, 7863224863094777615169310817910235nat, modulus()) == 8061791554870092681104378292431007812147723732770083772240909489754022612046nat,
{
    lemma_mpow_next(7, 119983289536968652575215313993nat, 25820506401069996154292541238072546001455184194037379595622632612596022206811nat, 1, 24245897250390111620486324473684771260977087534443427391364292101294971968707nat, modulus());
    lemma_mpow_next(7, 239966579073937305150430627987nat, 24245897250390111620486324473684771260977087534443427391364292101294971968707nat, 1, 18984662386491104020804773056271113928554348791135628293398375607887688460409nat, modulus());
    lemma_mpow_next(7, 479933158147874610300861255975nat, 18984662386491104020804773056271113928554348791135628293398375607887688460409nat, 1, 10019344803920353700497791532220954987135583333430128946184012473803165534692nat, modulus());
    lemma_mpow_next(7, 959866316295749220601722511951nat, 10019344803920353700497791532220954987135583333430128946184012473803165534692nat, 1, 23178795329612203085208174658984436970113737953071716587316130481688392519716nat, modulus());
    lemma_mpow_next(7, 1919732632591498441203445023903nat, 23178795329612203085208174658984436970113737953071716587316130481688392519716nat, 1, 40521194303753627263840579708781341018290505915486358962110309601614005264075nat, modulus());
    lemma_mpow_next(7, 3839465265182996882406890047807nat, 40521194303753627263840579708781341018290505915486358962110309601614005264075nat, 1, 44345179027213069202386293442067237502250676563948178754019988390186710220669nat, modulus());
    lemma_mpow_next(7, 7678930530365993764813780095615nat, 44345179027213069202386293442067237502250676563948178754019988390186710220669nat, 0, 49330895311894587602546665588656789152822122370223969488039504918119669190611nat, modulus());
    lemma_mpow_next(7, 15357861060731987529627560191230nat, 49330895311894587602546665588656789152822122370223969488039504918119669190611nat, 1, 8210620872310966280284042559238035731337826161608718323767318406124430218916nat, modulus());
    lemma_mpow_next(7, 30715722121463975059255120382461nat, 8210620872310966280284042559238035731337826161608718323767318406124430218916nat, 1, 22021143704752157705902611153621671667873738413429933755579558049395119723680nat, modulus());
    lemma_mpow_next(7, 61431444242927950118510240764923nat, 22021143704752157705902611153621671667873738413429933755579558049395119723680nat, 1, 47540224822133811066810597723535644776495346994451680856676721251668672570320nat, modulus());
    lemma_mpow_next(7, 122862888485855900237020481529847nat, 47540224822133811066810597723535644776495346994451680856676721251668672570320nat, 0, 2914660880519938433128594914355624647891488292623795635366152505325146599754nat, modulus());
    lemma_mpow_next(7, 245725776971711800474040963059694nat, 2914660880519938433128594914355624647891488292623795635366152505325146599754nat, 1, 1316601740326186750485813025159219130858379378808745219641017042332509908350nat, modulus());
    lemma_mpow_next(7, 491451553943423600948081926119389nat, 1316601740326186750485813025159219130858379378808745219641017042332509908350nat, 1, 49062463836781347674276561736715638038087498804896771205545755042147096896061nat, modulus());
    lemma_mpow_next(7, 982903107886847201896163852238779nat, 49062463836781347674276561736715638038087498804896771205545755042147096896061nat, 0, 6773476796274111765434894517063682483908338713437078561703955850446012749714nat, modulus());
    lemma_mpow_next(7, 1965806215773694403792327704477558nat, 6773476796274111765434894517063682483908338713437078561703955850446012749714nat, 1, 20505036118094630365202845941806424573523771880639000948597718487442101225303nat, modulus());
    lemma_mpow_next(7, 3931612431547388807584655408955117nat, 20505036118094630365202845941806424573523771880639000948597718487442101225303nat, 1, 8061791554870092681104378292431007812147723732770083772240909489754022612046nat, modulus());
}

/// Squarings 113 to 128 of the power below.
#[verifier::spinoff_prover]
#[verifier::rlimit(50)]
proof fn lemma_pow_order_by_2508409_part7()
    requires
        mpow(7, 7863224863094777615169310817910235nat, modulus()) == 8061791554870092681104378292431007812147723732770083772240909489754022612046nat,
    ensures
        mpow(7, 515324304627779345787735953762565173187nat, modulus()) == 8570680243151832807478046977951867512410745441194435402287108214482221135908nat,
{
    lemma_mpow_next(7, 7863224863094777615169310817910235nat, 8061791554870092681104378292431007812147723732770083772240909489754022612046nat, 0, 38751449502064313790923256600896714319676914376074261675791659646138857072216nat, modulus());
    lemma_mpow_next(7, 15726449726189555230338621635820470nat, 38751449502064313790923256600896714319676914376074261675791659646138857072216nat, 0, 14568027757892716294453342922316187324268519251479436020193576496582298139329nat, modulus());
    lemma_mpow_next(7, 31452899452379110460677243271640940nat, 14568027757892716294453342922316187324268519251479436020193576496582298139329nat, 1, 2182858926349203907824780747277496430804821144714278401008170387852034856653nat, modulus());
    lemma_mpow_next(7, 62905798904758220921354486543281881nat, 2182858926349203907824780747277496430804821144714278401008170387852034856653nat, 0, 2805043988363912167652530761708623852377191831212516095989495256609673824297nat, modulus());
    lemma_mpow_next(7, 125811597809516441842708973086563762nat, 2805043988363912167652530761708623852377191831212516095989495256609673824297nat, 1, 48870381672991988075543181695627751060189798920577708673482808764249744205839nat, modulus());
    lemma_mpow_next(7, 251623195619032883685417946173127525nat, 48870381672991988075543181695627751060189798920577708673482808764249744205839nat, 1, 7865791360265433046424091100960389145441079852350547925039991154270448470008nat, modulus());
    lemma_mpow_next(7, 503246391238065767370835892346255051nat, 7865791360265433046424091100960389145441079852350547925039991154270448470008nat, 1, 13001899005524730758371735460505126605517390009672611196354929625435785349921nat, modulus());
    lemma_mpow_next(7, 1006492782476131534741671784692510103nat, 13001899005524730758371735460505126605517390009672611196354929625435785349921nat, 1, 24417492668483026369080448465044436245385763795840867280884562775288864787043nat, modulus());
    lemma_mpow_next(7, 2012985564952263069483343569385020207nat, 24417492668483026369080448465044436245385763795840867280884562775288864787043nat, 1, 11377894147290710208048143062352760271239805630564008265081473393812319965842nat, modulus());
    lemma_mpow_next(7, 4025971129904526138966687138770040415nat, 11377894147290710208048143062352760271239805630564008265081473393812319965842nat, 1, 48685455200808723597778053979441850545045835700265473238176707380404739041137nat, modulus());
    lemma_mpow_next(7, 8051942259809052277933374277540080831nat, 48685455200808723597778053979441850545045835700265473238176707380404739041137nat, 0, 3649501135809800866928332283689392139017026174164055608028568403392533518915nat, modulus());
    lemma_mpow_next(7, 16103884519618104555866748555080161662nat, 3649501135809800866928332283689392139017026174164055608028568403392533518915nat, 0, 37686424525284915315108077611242125714363039590724760417184874635341965144280nat, modulus());
    lemma_mpow_next(7, 32207769039236209111733497110160323324nat, 37686424525284915315108077611242125714363039590724760417184874635341965144280nat, 0, 34847555006828810262409318606945804696798875548582709780442458516862427797116nat, modulus());
    lemma_mpow_next(7, 64415538078472418223466994220320646648nat, 34847555006828810262409318606945804696798875548582709780442458516862427797116nat, 0, 743323766996739377308384931364787446247979713622154098563988087422263099423nat, modulus());
    lemma_mpow_next(7, 128831076156944836446933988440641293296nat, 743323766996739377308384931364787446247979713622154098563988087422263099423nat, 1, 45885820236157318821101064190277947922022852955556996023107710290866188417624nat, modulus());
    lemma_mpow_next(7, 257662152313889672893867976881282586593nat, 45885820236157318821101064190277947922022852955556996023107710290866188417624nat, 1, 8570680243151832807478046977951867512410745441194435402287108214482221135908nat, modulus());
}

/// Squarings 129 to 144 of the power below.
#[verifier::spinoff_prover]
#[verifier::rlimit(50)]
proof fn lemma_pow_order_by_2508409_part8()
    requires
        mpow(7, 515324304627779345787735953762565173187nat, modulus()) == 8570680243151832807478046977951867512410745441194435402287108214482221135908nat,
    ensures
        mpow(7, 33772293628086147205545063465783471190008872nat, modulus()) == 38132364990376043410511493726910602181055708702224709522342614192376929081569nat,
{
    lemma_mpow_next(7, 515324304627779345787735953762565173187nat, 8570680243151832807478046977951867512410745441194435402287108214482221135908nat, 0, 10996488745532604143375217664784359878299927636590408735118348065729618112329nat, modulus());
    lemma_mpow_next(7, 1030648609255558691575471907525130346374nat, 10996488745532604143375217664784359878299927636590408735118348065729618112329nat, 1, 20275905558395110841104368348803205181664244803094598149169494151985294749214nat, modulus());
    lemma_mpow_next(7, 2061297218511117383150943815050260692749nat, 20275905558395110841104368348803205181664244803094598149169494151985294749214nat, 1, 7084769971033990835399215005003437171600793946788319284958431203425964944663nat, modulus());
    lemma_mpow_next(7, 4122594437022234766301887630100521385499nat, 7084769971033990835399215005003437171600793946788319284958431203425964944663nat, 0, 29137483751659271139531414504823138435573589914186530533428276202415292957479nat, modulus());
    lemma_mpow_next(7, 8245188874044469532603775260201042770998nat, 29137483751659271139531414504823138435573589914186530533428276202415292957479nat, 0, 41530018435794288544217982577068658684756474565288086412883386688807603851014nat, modulus());
    lemma_mpow_next(7, 16490377748088939065207550520402085541996nat, 41530018435794288544217982577068658684756474565288086412883386688807603851014nat, 1, 50624511997367210368536152839778023664560140903477105468658592497215979304492nat, modulus());
    lemma_mpow_next(7, 32980755496177878130415101040804171083993nat, 50624511997367210368536152839778023664560140903477105468658592497215979304492nat, 0, 45256534005006201675884659387850927012507781878358750252020308412981913506037nat, modulus());
    lemma_mpow_next(7, 65961510992355756260830202081608342167986nat, 45256534005006201675884659387850927012507781878358750252020308412981913506037nat, 0, 27353476519191971859718143653262257938202221910433609669489964779145119686970nat, modulus());
    lemma_mpow_next(7, 131923021984711512521660404163216684335972nat, 27353476519191971859718143653262257938202221910433609669489964779145119686970nat, 0, 30877495131575825739953534370613889417535459478767056711133181989056795780818nat, modulus());
    lemma_mpow_next(7, 263846043969423025043320808326433368671944nat, 30877495131575825739953534370613889417535459478767056711133181989056795780818nat, 0, 31717840501533371097634180488585961330076555825749765222917742808330448456215nat, modulus());
    lemma_mpow_next(7, 527692087938846050086641616652866737343888nat, 31717840501533371097634180488585961330076555825749765222917742808330448456215nat, 1, 35207293766901335370961431961374162782633120296681974285343404815937372086532nat, modulus());
    lemma_mpow_next(7, 1055384175877692100173283233305733474687777nat, 35207293766901335370961431961374162782633120296681974285343404815937372086532nat, 0, 44802908718659919875501742353515646876640066057474921142581636637498563919327nat, modulus());
    lemma_mpow_next(7, 2110768351755384200346566466611466949375554nat, 44802908718659919875501742353515646876640066057474921142581636637498563919327nat, 1, 14750755883725554455232586822825695007814480621786389555366718957575803844767nat, modulus());
    lemma_mpow_next(7, 4221536703510768400693132933222933898751109nat, 14750755883725554455232586822825695007814480621786389555366718957575803844767nat, 0, 15470190455591096054917913807711897326365776617109850788411922261701481847151nat, modulus());
    lemma_mpow_next(7, 8443073407021536801386265866445867797502218nat, 15470190455591096054917913807711897326365776617109850788411922261701481847151nat, 0, 9349636355805662834276973450887391462630604215460876267182975309405691135847nat, modulus());
    lemma_mpow_next(7, 16886146814043073602772531732891735595004436nat, 9349636355805662834276973450887391462630604215460876267182975309405691135847nat, 0, 38132364990376043410511493726910602181055708702224709522342614192376929081569nat, modulus());
}

/// Squarings 145 to 160 of the power below.
#[verifier::spinoff_prover]
#[verifier::rlimit(50)]
proof fn lemma_pow_order_by_2508409_part9()
    requires
        mpow(7, 33772293628086147205545063465783471190008872nat, modulus()) == 38132364990376043410511493726910602181055708702224709522342614192376929081569nat,
    ensures
        mpow(7, 2213301035210253743262601279293585567908421498280nat, modulus()) == 42311373840413370742472554471011898887663723888434348697274079960072967801651nat,
{
    lemma_mpow_next(7, 33772293628086147205545063465783471190008872nat, 38132364990376043410511493726910602181055708702224709522342614192376929081569nat, 1, 15671980182530308726560799872254808602198751387762761548262651342989573633659nat, modulus());
    lemma_mpow_next(7, 67544587256172294411090126931566942380017745nat, 15671980182530308726560799872254808602198751387762761548262651342989573633659nat, 1, 9147128963568227815856228638053524404294585415914467133153261847451739016527nat, modulus());
    lemma_mpow_next(7, 135089174512344588822180253863133884760035491nat, 9147128963568227815856228638053524404294585415914467133153261847451739016527nat, 1, 15000134290154510009919619077249590275084529030226262757638853824804204269010nat, modulus());
    lemma_mpow_next(7, 270178349024689177644360507726267769520070983nat, 15000134290154510009919619077249590275084529030226262757638853824804204269010nat, 1, 5007427605783597038348226997919373924788833187028729659040883697243189832593nat, modulus());
    lemma_mpow_next(7, 540356698049378355288721015452535539040141967nat, 5007427605783597038348226997919373924788833187028729659040883697243189832593nat, 0, 11364389497198682813701136652244914838668980605056359432728767956349550010009nat, modulus());
    lemma_mpow_next(7, 1080713396098756710577442030905071078080283934nat, 11364389497198682813701136652244914838668980605056359432728767956349550010009nat, 1, 36368021477474731956588492123017640744460381412191910269739893395119387500172nat, modulus());
    lemma_mpow_next(7, 2161426792197513421154884061810142156160567869nat, 36368021477474731956588492123017640744460381412191910269739893395119387500172nat, 0, 33826145186310050534405478696768676569028804969008741721041518712754562529220nat, modulus());
    lemma_mpow_next(7, 4322853584395026842309768123620284312321135738nat, 33826145186310050534405478696768676569028804969008741721041518712754562529220nat, 1, 22726615845218639975670292327855843967869728738751507474586966481799151851125nat, modulus());
    lemma_mpow_next(7, 8645707168790053684619536247240568624642271477nat, 22726615845218639975670292327855843967869728738751507474586966481799151851125nat, 1, 1603774195900477601963712694846477843985962751644171225557815504885912602061nat, modulus());
    lemma_mpow_next(7, 17291414337580107369239072494481137249284542955nat, 1603774195900477601963712694846477843985962751644171225557815504885912602061nat, 0, 28615077434675610848920137279919873943043353847821735768363436728291097182830nat, modulus());
    lemma_mpow_next(7, 34582828675160214738478144988962274498569085910nat, 28615077434675610848920137279919873943043353847821735768363436728291097182830nat, 1, 32445484892609423658717170253801449598968172302980665537242368101831919363453nat, modulus());
    lemma_mpow_next(7, 69165657350320429476956289977924548997138171821nat, 32445484892609423658717170253801449598968172302980665537242368101831919363453nat, 0, 16315921899659963454081034208034888042746398645395847674543138277552829629319nat, modulus());
    lemma_mpow_next(7, 138331314700640858953912579955849097994276343642nat, 16315921899659963454081034208034888042746398645395847674543138277552829629319nat, 1, 12265460265465554052305769755360517593626672128123530696801731945379080548834nat, modulus());
    lemma_mpow_next(7, 276662629401281717907825159911698195988552687285nat, 12265460265465554052305769755360517593626672128123530696801731945379080548834nat, 0, 20230054595321635937133104100070406136442528556233596982902055307972021768976nat, modulus());
    lemma_mpow_next(7, 553325258802563435815650319823396391977105374570nat, 20230054595321635937133104100070406136442528556233596982902055307972021768976nat, 0, 16999249602899775265892964102082635627858556945666076480958226325476084353741nat, modulus());
    lemma_mpow_next(7, 1106650517605126871631300639646792783954210749140nat, 16999249602899775265892964102082635627858556945666076480958226325476084353741nat, 0, 42311373840413370742472554471011898887663723888434348697274079960072967801651nat, modulus());
}

/// Squarings 161 to 176 of the power below.
#[verifier::spinoff_prover]
#[verifier::rlimit(50)]
proof fn lemma_pow_order_by_2508409_part10()
    requires
        mpow(7, 2213301035210253743262601279293585567908421498280nat, modulus()) == 42311373840413370742472554471011898887663723888434348697274079960072967801651nat,
    ensures
        mpow(7, 145050896643539189318457837439784423778446311311291689nat, modulus()) == 39682387250564037902850465113092696187166325761672951125420079782924733408157nat,
{
    lemma_mpow_next(7, 2213301035210253743262601279293585567908421498280nat, 42311373840413370742472554471011898887663723888434348697274079960072967801651nat, 0, 17737803251196548470754621683070654135239273915976063890748615675647924876845nat, modulus());
    lemma_mpow_next(7, 4426602070420507486525202558587171135816842996560nat, 17737803251196548470754621683070654135239273915976063890748615675647924876845nat, 0, 48827233336754311309554485381552614825254173825879248524244954986283822121565nat, modulus());
    lemma_mpow_next(7, 8853204140841014973050405117174342271633685993120nat, 48827233336754311309554485381552614825254173825879248524244954986283822121565nat, 1, 5505893902415916652785311497092960577055128889482882501130207124005450084894nat, modulus());
    lemma_mpow_next(7, 17706408281682029946100810234348684543267371986241nat, 5505893902415916652785311497092960577055128889482882501130207124005450084894nat, 1, 37827345818026198237646949566645385651589664488995317227599406659764355067562nat, modulus());
    lemma_mpow_next(7, 35412816563364059892201620468697369086534743972483nat, 37827345818026198237646949566645385651589664488995317227599406659764355067562nat, 0, 24273821455518360707335607145808642708790100540705421490898686597794103176010nat, modulus());
    lemma_mpow_next(7, 70825633126728119784403240937394738173069487944966nat, 24273821455518360707335607145808642708790100540705421490898686597794103176010nat, 1, 36063473587365383317430202433572127597139031405116602575753080492379154084223nat, modulus());
    lemma_mpow_next(7, 141651266253456239568806481874789476346138975889933nat, 36063473587365383317430202433572127597139031405116602575753080492379154084223nat, 0, 33634523928765364976231708524384663401001032483744449904356339722936945129273nat, modulus());
    lemma_mpow_next(7, 283302532506912479137612963749578952692277951779866nat, 33634523928765364976231708524384663401001032483744449904356339722936945129273nat, 1, 23481626517107655461102729904518541600775419563124057564655694224294698046554nat, modulus());
    lemma_mpow_next(7, 566605065013824958275225927499157905384555903559733nat, 23481626517107655461102729904518541600775419563124057564655694224294698046554nat, 0, 35762342687669122624928495410012777879670988085364927598619851028151793042417nat, modulus());
    lemma_mpow_next(7, 1133210130027649916550451854998315810769111807119466nat, 35762342687669122624928495410012777879670988085364927598619851028151793042417nat, 0, 13107647790098775763997508516122346843130701765999297735804388889778877134272nat, modulus());
    lemma_mpow_next(7, 2266420260055299833100903709996631621538223614238932nat, 13107647790098775763997508516122346843130701765999297735804388889778877134272nat, 1, 16740604833778627829022286844837406288917140516693803990945084334093004922296nat, modulus());
    lemma_mpow_next(7, 4532840520110599666201807419993263243076447228477865nat, 16740604833778627829022286844837406288917140516693803990945084334093004922296nat, 0, 34789048820457937224643113309049485898114079582114635641212798670266992767599nat, modulus());
    lemma_mpow_next(7, 9065681040221199332403614839986526486152894456955730nat, 34789048820457937224643113309049485898114079582114635641212798670266992767599nat, 1, 11447122773215476790683758678508382421920149718004941467744181921897727981545nat, modulus());
    lemma_mpow_next(7, 18131362080442398664807229679973052972305788913911461nat, 11447122773215476790683758678508382421920149718004941467744181921897727981545nat, 0, 44654290736387968647627022994166538041552964839022170142227069478098896854541nat, modulus());
    lemma_mpow_next(7, 36262724160884797329614459359946105944611577827822922nat, 44654290736387968647627022994166538041552964839022170142227069478098896854541nat, 0, 22088319874994830587345264328104072103829564764847682804160515892043317330647nat, modulus());
    lemma_mpow_next(7, 72525448321769594659228918719892211889223155655645844nat, 22088319874994830587345264328104072103829564764847682804160515892043317330647nat, 1, 39682387250564037902850465113092696187166325761672951125420079782924733408157nat, modulus());
}

/// Squarings 177 to 192 of the power below.
#[verifier::spinoff_prover]
#[verifier::rlimit(50)]
proof fn lemma_pow_order_by_2508409_part11()
    requires
        mpow(7, 145050896643539189318457837439784423778446311311291689nat, modulus()) == 39682387250564037902850465113092696187166325761672951125420079782924733408157nat,
    ensures
        mpow(7, 9506055562430984311174452834453711996744257458096812153694nat, modulus()) == 31061127078166652987872898280340290476536257865085712911453148809539531730105nat,
{
    lemma_mpow_next(7, 145050896643539189318457837439784423778446311311291689nat, 39682387250564037902850465113092696187166325761672951125420079782924733408157nat, 0, 228622704489209095941536576519961189227382923981514414732105084445455462755nat, modulus());
    lemma_mpow_next(7, 290101793287078378636915674879568847556892622622583378nat, 228622704489209095941536576519961189227382923981514414732105084445455462755nat, 1, 79141334309710236731807143177262998058596675538101614774199874361759715086nat, modulus());
    lemma_mpow_next(7, 580203586574156757273831349759137695113785245245166757nat, 79141334309710236731807143177262998058596675538101614774199874361759715086nat, 0, 46238665199268341816136642065971746731416980744397327664197699025554051255451nat, modulus());
    lemma_mpow_next(7, 1160407173148313514547662699518275390227570490490333514nat, 46238665199268341816136642065971746731416980744397327664197699025554051255451nat, 1, 27524587387861116729890251391808719605371617070568633253639621577201267231709nat, modulus());
    lemma_mpow_next(7, 2320814346296627029095325399036550780455140980980667029nat, 27524587387861116729890251391808719605371617070568633253639621577201267231709nat, 1, 30397437051098730273157923775244512390785657144676771523230595304074488409342nat, modulus());
    lemma_mpow_next(7, 4641628692593254058190650798073101560910281961961334059nat, 30397437051098730273157923775244512390785657144676771523230595304074488409342nat, 0, 21709044820348412630773157958919381848020897751814991368535544351643072791911nat, modulus());
    lemma_mpow_next(7, 9283257385186508116381301596146203121820563923922668118nat, 21709044820348412630773157958919381848020897751814991368535544351643072791911nat, 1, 48011116271697270724358484443897619077174529404488090422379200600659328412379nat, modulus());
    lemma_mpow_next(7, 18566514770373016232762603192292406243641127847845336237nat, 48011116271697270724358484443897619077174529404488090422379200600659328412379nat, 1, 16571123471481456409365445379461597485032279770064598173009987074591105669427nat, modulus());
    lemma_mpow_next(7, 37133029540746032465525206384584812487282255695690672475nat, 16571123471481456409365445379461597485032279770064598173009987074591105669427nat, 0, 14007139991036315314794110604253840095803315952879128352497747593995375717783nat, modulus());
    lemma_mpow_next(7, 74266059081492064931050412769169624974564511391381344950nat, 14007139991036315314794110604253840095803315952879128352497747593995375717783nat, 1, 17660174001927464024393833800038407185185538363987752711560904900045069989105nat, modulus());
    lemma_mpow_next(7, 148532118162984129862100825538339249949129022782762689901nat, 17660174001927464024393833800038407185185538363987752711560904900045069989105nat, 0, 10381755969482499245699961215353807059169368449426568392532850874281900629571nat, modulus());
    lemma_mpow_next(7, 297064236325968259724201651076678499898258045565525379802nat, 10381755969482499245699961215353807059169368449426568392532850874281900629571nat, 1, 7724566923999368882774404308519340239060527824786469756041534983654053694129nat, modulus());
    lemma_mpow_next(7, 594128472651936519448403302153356999796516091131050759605nat, 7724566923999368882774404308519340239060527824786469756041534983654053694129nat, 1, 42484080936795324731305461334516011251025742753637793338409424528713075860841nat, modulus());
    lemma_mpow_next(7, 1188256945303873038896806604306713999593032182262101519211nat, 42484080936795324731305461334516011251025742753637793338409424528713075860841nat, 1, 21654463338785384492142893509721282792457898588868054603875117969685368891899nat, modulus());
    lemma_mpow_next(7, 2376513890607746077793613208613427999186064364524203038423nat, 21654463338785384492142893509721282792457898588868054603875117969685368891899nat, 1, 39730679638351083726959800771024897337568737411202368862808801917478794613947nat, modulus());
    lemma_mpow_next(7, 4753027781215492155587226417226855998372128729048406076847nat, 39730679638351083726959800771024897337568737411202368862808801917478794613947nat, 0, 31061127078166652987872898280340290476536257865085712911453148809539531730105nat, modulus());
}

/// Squarings 193 to 208 of the power below.
#[verifier::spinoff_prover]
#[verifier::rlimit(50)]
proof fn lemma_pow_order_by_2508409_part12()
    requires
        mpow(7, 9506055562430984311174452834453711996744257458096812153694nat, modulus()) == 31061127078166652987872898280340290476536257865085712911453148809539531730105nat,
    ensures
        mpow(7, 622988857339476987817128940958758469418631656773832681304497024nat, modulus()) == 20014042752898669801444825000478989149728309416749007685191932139805746907987nat,
{
    lemma_mpow_next(7, 9506055562430984311174452834453711996744257458096812153694nat, 31061127078166652987872898280340290476536257865085712911453148809539531730105nat, 0, 3241385640109637366334396405635779097259708172413011831242024140462168519585nat, modulus());
    lemma_mpow_next(7, 19012111124861968622348905668907423993488514916193624307388nat, 3241385640109637366334396405635779097259708172413011831242024140462168519585nat, 0, 13755208678817210329157273780360541377995552019466297798258531100631710733728nat, modulus());
    lemma_mpow_next(7, 38024222249723937244697811337814847986977029832387248614776nat, 13755208678817210329157273780360541377995552019466297798258531100631710733728nat, 0, 41249813593395529814818600954522152093134434376394309553647411024329185785125nat, modulus());
    lemma_mpow_next(7, 76048444499447874489395622675629695973954059664774497229552nat, 41249813593395529814818600954522152093134434376394309553647411024329185785125nat, 1, 39734086382120804236941248451598209165766551949927244513641728820485263761613nat, modulus());
    lemma_mpow_next(7, 152096888998895748978791245351259391947908119329548994459105nat, 39734086382120804236941248451598209165766551949927244513641728820485263761613nat, 1, 39667160298668836361396066620407755402180465481710935453281343695542605613155nat, modulus());
    lemma_mpow_next(7, 304193777997791497957582490702518783895816238659097988918211nat, 39667160298668836361396066620407755402180465481710935453281343695542605613155nat, 0, 25473529144137097552020982361931696881633520495119422991134271717789822268945nat, modulus());
    lemma_mpow_next(7, 608387555995582995915164981405037567791632477318195977836422nat, 25473529144137097552020982361931696881633520495119422991134271717789822268945nat, 1, 22984686812824242346162129813980556113557449241914342004759856846656524769413nat, modulus());
    lemma_mpow_next(7, 1216775111991165991830329962810075135583264954636391955672845nat, 22984686812824242346162129813980556113557449241914342004759856846656524769413nat, 1, 50492969136277398421999647830068012187274628218706659225808444855890218938516nat, modulus());
    lemma_mpow_next(7, 2433550223982331983660659925620150271166529909272783911345691nat, 50492969136277398421999647830068012187274628218706659225808444855890218938516nat, 1, 48273801768139720648999169640998088576255841750985364438519339426189137966196nat, modulus());
    lemma_mpow_next(7, 4867100447964663967321319851240300542333059818545567822691383nat, 48273801768139720648999169640998088576255841750985364438519339426189137966196nat, 0, 29982321884997287148666944439244592121074283502707455341621595343856451465561nat, modulus());
    lemma_mpow_next(7, 9734200895929327934642639702480601084666119637091135645382766nat, 29982321884997287148666944439244592121074283502707455341621595343856451465561nat, 0, 15941936489700647225301354186472006362311872167118315287053080541382681284664nat, modulus());
    lemma_mpow_next(7, 19468401791858655869285279404961202169332239274182271290765532nat, 15941936489700647225301354186472006362311872167118315287053080541382681284664nat, 0, 24859923455857365363242281364690296787033274863274309375300444217404256479336nat, modulus());
    lemma_mpow_next(7, 38936803583717311738570558809922404338664478548364542581531064nat, 24859923455857365363242281364690296787033274863274309375300444217404256479336nat, 0, 44747240810272777938345906362326591658060929257041386931841471374667550247978nat, modulus());
    lemma_mpow_next(7, 77873607167434623477141117619844808677328957096729085163062128nat, 44747240810272777938345906362326591658060929257041386931841471374667550247978nat, 0, 11904254392650539400760628706000562307758052375136653613447151402178029207456nat, modulus());
    lemma_mpow_next(7, 155747214334869246954282235239689617354657914193458170326124256nat, 11904254392650539400760628706000562307758052375136653613447151402178029207456nat, 0, 2130327855787998026287962430783287887720381988554451215876494282076170825484nat, modulus());
    lemma_mpow_next(7, 311494428669738493908564470479379234709315828386916340652248512nat, 2130327855787998026287962430783287887720381988554451215876494282076170825484nat, 0, 20014042752898669801444825000478989149728309416749007685191932139805746907987nat, modulus());
}

/// Squarings 209 to 224 of the power below.
#[verifier::spinoff_prover]
#[verifier::rlimit(50)]
proof fn lemma_pow_order_by_2508409_part13()
    requires
        mpow(7, 622988857339476987817128940958758469418631656773832681304497024nat, modulus()) == 20014042752898669801444825000478989149728309416749007685191932139805746907987nat,
    ensures
        mpow(7, 40828197754599963873583362274673195051819444258329898601971516964864nat, modulus()) == 23183842328875653479545949611022311731266307288927724660705371889469120783390nat,
{
    lemma_mpow_next(7, 622988857339476987817128940958758469418631656773832681304497024nat, 20014042752898669801444825000478989149728309416749007685191932139805746907987nat, 0, 305142215070700232058484742641836634148420909084198012221949311165641330033nat, modulus());
    lemma_mpow_next(7, 1245977714678953975634257881917516938837263313547665362608994048nat, 305142215070700232058484742641836634148420909084198012221949311165641330033nat, 0, 7887623892385530864868667331746832116114013790762218541924038018462413028085nat, modulus());
    lemma_mpow_next(7, 2491955429357907951268515763835033877674526627095330725217988096nat, 7887623892385530864868667331746832116114013790762218541924038018462413028085nat, 0, 24339716367461890727277173419795073099080462223321723403373602624752078058348nat, modulus());
    lemma_mpow_next(7, 4983910858715815902537031527670067755349053254190661450435976192nat, 24339716367461890727277173419795073099080462223321723403373602624752078058348nat, 0, 28710485658269759236016403976960151493402655594794191867163902435668562628495nat, modulus());
    lemma_mpow_next(7, 9967821717431631805074063055340135510698106508381322900871952384nat, 28710485658269759236016403976960151493402655594794191867163902435668562628495nat, 0, 18404766486320130177021606766030446111123432184051690940412493185204437918778nat, modulus());
    lemma_mpow_next(7, 19935643434863263610148126110680271021396213016762645801743904768nat, 18404766486320130177021606766030446111123432184051690940412493185204437918778nat, 0, 9979056916615886583278031124998363109252096374912613547476215858694308023853nat, modulus());
    lemma_mpow_next(7, 39871286869726527220296252221360542042792426033525291603487809536nat, 9979056916615886583278031124998363109252096374912613547476215858694308023853nat, 0, 14188817355587047039947521296863099659618378960957502725809127213642819519227nat, modulus());
    lemma_mpow_next(7, 79742573739453054440592504442721084085584852067050583206975619072nat, 14188817355587047039947521296863099659618378960957502725809127213642819519227nat, 0, 42125100069039503105579559819048688102333836025450278671412945029708966354759nat, modulus());
    lemma_mpow_next(7, 159485147478906108881185008885442168171169704134101166413951238144nat, 42125100069039503105579559819048688102333836025450278671412945029708966354759nat, 0, 36059258949911968462428253157613114620511632973310046875768866494608999530502nat, modulus());
    lemma_mpow_next(7, 318970294957812217762370017770884336342339408268202332827902476288nat, 36059258949911968462428253157613114620511632973310046875768866494608999530502nat, 0, 49340902600366726508803584577545259317544586657648662031747107198896619638242nat, modulus());
    lemma_mpow_next(7, 637940589915624435524740035541768672684678816536404665655804952576nat, 49340902600366726508803584577545259317544586657648662031747107198896619638242nat, 0, 32782166576535870811680513240376371688393544058453001651475909501931800890135nat, modulus());
    lemma_mpow_next(7, 1275881179831248871049480071083537345369357633072809331311609905152nat, 32782166576535870811680513240376371688393544058453001651475909501931800890135nat, 0, 6289392085021799578714503685266420046878335625439790905606220788157993291326nat, modulus());
    lemma_mpow_next(7, 2551762359662497742098960142167074690738715266145618662623219810304nat, 6289392085021799578714503685266420046878335625439790905606220788157993291326nat, 0, 46409829731779560477433612726801381234613936095645041837714745499897411621715nat, modulus());
    lemma_mpow_next(7, 5103524719324995484197920284334149381477430532291237325246439620608nat, 46409829731779560477433612726801381234613936095645041837714745499897411621715nat, 0, 23105116240519494320995846767992409567907399245527998164967777315143930276662nat, modulus());
    lemma_mpow_next(7, 10207049438649990968395840568668298762954861064582474650492879241216nat, 23105116240519494320995846767992409567907399245527998164967777315143930276662nat, 0, 27083086518584632470642022068967689348533524247539745875488635161190876092694nat, modulus());
    lemma_mpow_next(7, 20414098877299981936791681137336597525909722129164949300985758482432nat, 27083086518584632470642022068967689348533524247539745875488635161190876092694nat, 0, 23183842328875653479545949611022311731266307288927724660705371889469120783390nat, modulus());
}

/// Squarings 225 to 233 of the power below.
#[verifier::spinoff_prover]
#[verifier::rlimit(50)]
proof fn lemma_pow_order_by_2508409_part14()
    requires
        mpow(7, 40828197754599963873583362274673195051819444258329898601971516964864nat, modulus()) == 23183842328875653479545949611022311731266307288927724660705371889469120783390nat,
    ensures
        mpow(7, 20904037250355181503274681484632675866531555460264908084209416686010368nat, modulus()) == 3815854618502706066781575637619522226469869671769340391720987388396519592594nat,
{
    lemma_mpow_next(7, 40828197754599963873583362274673195051819444258329898601971516964864nat, 23183842328875653479545949611022311731266307288927724660705371889469120783390nat, 0, 45892058779058465280579517665773042300721891328910532028873977891041750342946nat, modulus());
    lemma_mpow_next(7, 81656395509199927747166724549346390103638888516659797203943033929728nat, 45892058779058465280579517665773042300721891328910532028873977891041750342946nat, 0, 5848877000745606916131302102737612894699629492865476171648394148387993048084nat, modulus());
    lemma_mpow_next(7, 163312791018399855494333449098692780207277777033319594407886067859456nat, 5848877000745606916131302102737612894699629492865476171648394148387993048084nat, 0, 45337558424846959876465718885428964440051428980822247716316023800821102732664nat, modulus());
    lemma_mpow_next(7, 326625582036799710988666898197385560414555554066639188815772135718912nat, 45337558424846959876465718885428964440051428980822247716316023800821102732664nat, 0, 30619247546563970975525187389429893488059736285941442069046116266148801002963nat, modulus());
    lemma_mpow_next(7, 653251164073599421977333796394771120829111108133278377631544271437824nat, 30619247546563970975525187389429893488059736285941442069046116266148801002963nat, 0, 11369207238526677214170893915707862405925656938873909294425367603129360373621nat, modulus());
    lemma_mpow_next(7, 1306502328147198843954667592789542241658222216266556755263088542875648nat, 11369207238526677214170893915707862405925656938873909294425367603129360373621nat, 0, 36532572719185789187856576692643037097604238976315746824252998210386812787376nat, modulus());
    lemma_mpow_next(7, 2613004656294397687909335185579084483316444432533113510526177085751296nat, 36532572719185789187856576692643037097604238976315746824252998210386812787376nat, 0, 51755833155012630130999580338830927901900106246480266377805119487296023291369nat, modulus());
    lemma_mpow_next(7, 5226009312588795375818670371158168966632888865066227021052354171502592nat, 51755833155012630130999580338830927901900106246480266377805119487296023291369nat, 0, 25590086531331809737032439475719652378682087454697416365717329472419166732011nat, modulus());
    lemma_mpow_next(7, 10452018625177590751637340742316337933265777730132454042104708343005184nat, 25590086531331809737032439475719652378682087454697416365717329472419166732011nat, 0, 3815854618502706066781575637619522226469869671769340391720987388396519592594nat, modulus());
}

/// The generator to the power `(n - 1) / 2508409` modulo the field order `n`.
proof fn lemma_pow_order_by_2508409()
    ensures
        mpow(7, 20904037250355181503274681484632675866531555460264908084209416686010368nat, modulus()) == 3815854618502706066781575637619522226469869671769340391720987388396519592594nat,
{
    lemma_mpow_first(7, modulus());
    lemma_pow_order_by_2508409_part0();
    lemma_pow_order_by_2508409_part1();
    lemma_pow_order_by_2508409_part2();
    lemma_pow_order_by_2508409_part3();
    lemma_pow_order_by_2508409_part4();
    lemma_pow_order_by_2508409_part5();
    lemma_pow_order_by_2508409_part6();
    lemma_pow_order_by_2508409_part7();
    lemma_pow_order_by_2508409_part8();
    lemma_pow_order_by_2508409_part9();
    lemma_pow_order_by_2508409_part10();
    lemma_pow_order_by_2508409_part11();
    lemma_pow_order_by_2508409_part12();
    lemma_pow_order_by_2508409_part13();
    lemma_pow_order_by_2508409_part14();
}

/// Squarings 1 to 16 of the power below.
#[verifier::spinoff_prover]
#[verifier::rlimit(50)]
proof fn lemma_pow_order_by_2529403_part0()
    requires
        mpow(7, 1, modulus()) == 7,
    ensures
        mpow(7, 98424, modulus()) == 16768729896427423918366988213810985129023614552327083384703091861756481564151nat,
{
    lemma_mpow_next(7, 1, 7, 1, 343, modulus());
    lemma_mpow_next(7, 3, 343, 0, 117649, modulus());
    lemma_mpow_next(7, 6, 117649, 0, 13841287201, modulus());
    lemma_mpow_next(7, 12, 13841287201, 0, 191581231380566414401nat, modulus());
    lemma_mpow_next(7, 24, 191581231380566414401nat, 0, 36703368217294125441230211032033660188801nat, modulus());
    lemma_mpow_next(7, 48, 36703368217294125441230211032033660188801nat, 0, 7169370109588224514666326067242483218629163598934389574923453452029754494118nat, modulus());
    lemma_mpow_next(7, 96, 7169370109588224514666326067242483218629163598934389574923453452029754494118nat, 0, 16813465035296828417219268754292703692576158205831990915353710828204495945655nat, modulus());
    lemma_mpow_next(7, 192, 16813465035296828417219268754292703692576158205831990915353710828204495945655nat, 0, 36644440289454736539243141112419036945575597529209034013414509473162036507192nat, modulus());
    lemma_mpow_next(7, 384, 36644440289454736539243141112419036945575597529209034013414509473162036507192nat, 0, 43919708938168292404213011752420537284510214693367400843125381204836776443126nat, modulus());
    lemma_mpow_next(7, 768, 43919708938168292404213011752420537284510214693367400843125381204836776443126nat, 1, 39417709222078659990013407249600654664994304021435074132774023618414449211390nat, modulus());
    lemma_mpow_next(7, 1537, 39417709222078659990013407249600654664994304021435074132774023618414449211390nat, 1, 1415940382650675935681143577903528932653009616526999025472418634940442646663nat, modulus());
    lemma_mpow_next(7, 3075, 1415940382650675935681143577903528932653009616526999025472418634940442646663nat, 1, 50044098956456000537706839735060299473020492813255081394165838429461503430118nat, modulus());
    lemma_mpow_next(7, 6151, 50044098956456000537706839735060299473020492813255081394165838429461503430118nat, 1, 5469502416649414633605231959525682713102505927854616637441028784909548225306nat, modulus());
    lemma_mpow_next(7, 12303, 5469502416649414633605231959525682713102505927854616637441028784909548225306nat, 0, 23184555562983541632840601151800241628345040417882469407003193025611541298357nat, modulus());
    lemma_mpow_next(7, 24606, 23184555562983541632840601151800241628345040417882469407003193025611541298357nat, 0, 48412255380198179831130512022268970392223793959677567678993761133195534997156nat, modulus());
    lemma_mpow_next(7, 49212, 48412255380198179831130512022268970392223793959677567678993761133195534997156nat, 0, 16768729896427423918366988213810985129023614552327083384703091861756481564151nat, modulus());
}

/// Squarings 17 to 32 of the power below.
#[verifier::spinoff_prover]
#[verifier::rlimit(50)]
proof fn lemma_pow_order_by_2529403_part1()
    requires
        mpow(7, 98424, modulus()) == 16768729896427423918366988213810985129023614552327083384703091861756481564151nat,
    ensures
        mpow(7, 6450321524, modulus()) == 13012898280942420779097861793898005584847210415245867666657365535801603669333nat,
{
    lemma_mpow_next(7, 98424, 16768729896427423918366988213810985129023614552327083384703091861756481564151nat, 0, 27331040532147724006603042390878444279949332723529914569283969820210330133184nat, modulus());
    lemma_mpow_next(7, 196848, 27331040532147724006603042390878444279949332723529914569283969820210330133184nat, 0, 15067969819767602673597787894797602424136812597850463712681659645013831477914nat, modulus());
    lemma_mpow_next(7, 393696, 15067969819767602673597787894797602424136812597850463712681659645013831477914nat, 0, 31168768774760384779864183991963132341445844520529720923634470256707191818534nat, modulus());
    lemma_mpow_next(7, 787392, 31168768774760384779864183991963132341445844520529720923634470256707191818534nat, 1, 44563616115129033876963979943536534689556049788322297901816020053492348013597nat, modulus());
    lemma_mpow_next(7, 1574785, 44563616115129033876963979943536534689556049788322297901816020053492348013597nat, 1, 46965844957880804629645291473403791493341868253603654670163691011611280511288nat, modulus());
    lemma_mpow_next(7, 3149571, 46965844957880804629645291473403791493341868253603654670163691011611280511288nat, 0, 45146821194681556662098379603160219585260744171435897049140866295259803070231nat, modulus());
    lemma_mpow_next(7, 6299142, 45146821194681556662098379603160219585260744171435897049140866295259803070231nat, 0, 50487027345900752574508236698055964639852060160783484090113540511681884748708nat, modulus());
    lemma_mpow_next(7, 12598284, 50487027345900752574508236698055964639852060160783484090113540511681884748708nat, 0, 19262725662135414896363266494449815823637041193786380397535949054239929842580nat, modulus());
    lemma_mpow_next(7, 25196568, 19262725662135414896363266494449815823637041193786380397535949054239929842580nat, 0, 31826805184049221840094598886218982336009352265547620522479201040927595726006nat, modulus());
    lemma_mpow_next(7, 50393136, 31826805184049221840094598886218982336009352265547620522479201040927595726006nat, 1, 16644612712725721982526425734403543940844295119847930725706102635574626302805nat, modulus());
    lemma_mpow_next(7, 100786273, 16644612712725721982526425734403543940844295119847930725706102635574626302805nat, 1, 50708489696794506862439870491544187432281993987417756801534250435847714441685nat, modulus());
    lemma_mpow_next(7, 201572547, 50708489696794506862439870491544187432281993987417756801534250435847714441685nat, 1, 8978833916485963690746530716098172272484058030362134153373123582069110055333nat, modulus());
    lemma_mpow_next(7, 403145095, 8978833916485963690746530716098172272484058030362134153373123582069110055333nat, 0, 29796240311964888147682728012557720664289720825500514750508228433056663993618nat, modulus());
    lemma_mpow_next(7, 806290190, 29796240311964888147682728012557720664289720825500514750508228433056663993618nat, 1, 45693221774840190281219948981197081412177769069995993797533132450399879888286nat, modulus());
    lemma_mpow_next(7, 1612580381, 45693221774840190281219948981197081412177769069995993797533132450399879888286nat, 0, 45146935950866106759249913273112444318703038017440315141747517281651291116864nat, modulus());
    lemma_mpow_next(7, 3225160762, 45146935950866106759249913273112444318703038017440315141747517281651291116864nat, 0, 13012898280942420779097861793898005584847210415245867666657365535801603669333nat, modulus());
}

/// Squarings 33 to 48 of the power below.
#[verifier::spinoff_prover]
#[verifier::rlimit(50)]
proof fn lemma_pow_order_by_2529403_part2()
    requires
        mpow(7, 6450321524, modulus()) == 13012898280942420779097861793898005584847210415245867666657365535801603669333nat,
    ensures
        mpow(7, 422728271458304, modulus()) == 26596567803743823684468329050891761148403812340380154094267457406288327755519nat,
{
    lemma_mpow_next(7, 6450321524, 13012898280942420779097861793898005584847210415245867666657365535801603669333nat, 1, 8453679319672539182970733550563863921449872013467252574125988683631829494232nat, modulus());
    lemma_mpow_next(7, 12900643049, 8453679319672539182970733550563863921449872013467252574125988683631829494232nat, 1, 26927002009146485247642833332533385288829799552650931926052587443188223600137nat, modulus());
    lemma_mpow_next(7, 25801286099, 26927002009146485247642833332533385288829799552650931926052587443188223600137nat, 1, 5400031947455734040825203404977506058499668138622676549536504212689437599274nat, modulus());
    lemma_mpow_next(7, 51602572199, 5400031947455734040825203404977506058499668138622676549536504212689437599274nat, 1, 47780536404597275284606562240990296646617498509982832080038688532860346776662nat, modulus());
    lemma_mpow_next(7, 103205144399, 47780536404597275284606562240990296646617498509982832080038688532860346776662nat, 0, 43638769529049022981001812017119698004701386486018239928542765475953910342217nat, modulus());
    lemma_mpow_next(7, 206410288798, 43638769529049022981001812017119698004701386486018239928542765475953910342217nat, 0, 22380765222993179670831593556867228266634568179684022445413597334798505730863nat, modulus());
    lemma_mpow_next(7, 412820577596, 22380765222993179670831593556867228266634568179684022445413597334798505730863nat, 0, 20542278099259977044592372465829597739296120024772433734638593302823725426087nat, modulus());
    lemma_mpow_next(7, 825641155192, 20542278099259977044592372465829597739296120024772433734638593302823725426087nat, 0, 46765171293999402481721428588444295392079869560555341846209241907407718293011nat, modulus());
    lemma_mpow_next(7, 1651282310384, 46765171293999402481721428588444295392079869560555341846209241907407718293011nat, 0, 51907279158856986222423294917816698931489588191737685201297929123235615148067nat, modulus());
    lemma_mpow_next(7, 3302564620768, 51907279158856986222423294917816698931489588191737685201297929123235615148067nat, 0, 35469591549739830562900921258459914362715485246598129679503464086802344323160nat, modulus());
    lemma_mpow_next(7, 6605129241536, 35469591549739830562900921258459914362715485246598129679503464086802344323160nat, 0, 1009524836122213158841832186662626398140524603385080090904265397624503144951nat, modulus());
    lemma_mpow_next(7, 13210258483072, 1009524836122213158841832186662626398140524603385080090904265397624503144951nat, 0, 844011375426426254929068307935547857816671564881206185934381379115669614514nat, modulus());
    lemma_mpow_next(7, 26420516966144, 844011375426426254929068307935547857816671564881206185934381379115669614514nat, 0, 6685963563107251148176675612276904636401314203225769530071711688936093289727nat, modulus());
    lemma_mpow_next(7, 52841033932288, 6685963563107251148176675612276904636401314203225769530071711688936093289727nat, 0, 48975637971457720056521203466949037052443215786602097914838006401593312442567nat, modulus());
    lemma_mpow_next(7, 105682067864576, 48975637971457720056521203466949037052443215786602097914838006401593312442567nat, 0, 26635154662360171441581904640014460204041092146063043937339046977679110615624nat, modulus());
    lemma_mpow_next(7, 211364135729152, 26635154662360171441581904640014460204041092146063043937339046977679110615624nat, 0, 26596567803743823684468329050891761148403812340380154094267457406288327755519nat, modulus());
}

/// Squarings 49 to 64 of the power below.
#[verifier::spinoff_prover]
#[verifier::rlimit(50)]
proof fn lemma_pow_order_by_2529403_part3()
    requires
        mpow(7, 422728271458304, modulus()) == 26596567803743823684468329050891761148403812340380154094267457406288327755519nat,
    ensures
        mpow(7, 27703919998291436972nat, modulus()) == 31412739792526173076413961585293600532913816356542535361286586053463144095255nat,
{
    lemma_mpow_next(7, 422728271458304, 26596567803743823684468329050891761148403812340380154094267457406288327755519nat, 0, 20351962243402154366673643893501151019342979242114664062730482642528115940011nat, modulus());
    lemma_mpow_next(7, 845456542916608, 20351962243402154366673643893501151019342979242114664062730482642528115940011nat, 1, 51616654360525908747503786707822025696407195365028711174373658919146608159449nat, modulus());
    lemma_mpow_next(7, 1690913085833217, 51616654360525908747503786707822025696407195365028711174373658919146608159449nat, 1, 2208182401421561685064442219866793380001044260909790686072009115388676160111nat, modulus());
    lemma_mpow_next(7, 3381826171666435, 2208182401421561685064442219866793380001044260909790686072009115388676160111nat, 0, 47259564414407800742170056705890042413977055280977763891034882673717870342662nat, modulus());
    lemma_mpow_next(7, 6763652343332870, 47259564414407800742170056705890042413977055280977763891034882673717870342662nat, 0, 11497139277334030978643627638989497355451709548050856508456538027102421844133nat, modulus());
    lemma_mpow_next(7, 13527304686665740, 11497139277334030978643627638989497355451709548050856508456538027102421844133nat, 1, 16714998939271397436544976662369964116074964226682944647164661146391992910880nat, modulus());
    lemma_mpow_next(7, 27054609373331481, 16714998939271397436544976662369964116074964226682944647164661146391992910880nat, 0, 35293591785370430680103121013802744783676709315896373516278675616166272713500nat, modulus());
    lemma_mpow_next(7, 54109218746662962, 35293591785370430680103121013802744783676709315896373516278675616166272713500nat, 1, 32425802454772161102063810711731825883719364583081984663237457097543323057979nat, modulus());
    lemma_mpow_next(7, 108218437493325925, 32425802454772161102063810711731825883719364583081984663237457097543323057979nat, 1, 8949052427547172569830047522147977582187708819608303206656753890160620308681nat, modulus());
    lemma_mpow_next(7, 216436874986651851, 8949052427547172569830047522147977582187708819608303206656753890160620308681nat, 0, 4277659427564797327467325036682981829629964712327572428905771329452224845335nat, modulus());
    lemma_mpow_next(7, 432873749973303702, 4277659427564797327467325036682981829629964712327572428905771329452224845335nat, 1, 24904303657740920860454303898475810962167219862555569826545584269370205552068nat, modulus());
    lemma_mpow_next(7, 865747499946607405, 24904303657740920860454303898475810962167219862555569826545584269370205552068nat, 0, 12938720439114458016112869886852453722224112281022738768829036946462039109314nat, modulus());
    lemma_mpow_next(7, 1731494999893214810nat, 12938720439114458016112869886852453722224112281022738768829036946462039109314nat, 1, 8299590158655549270695116363986597392396718690701788385454161181421223825791nat, modulus());
    lemma_mpow_next(7, 3462989999786429621nat, 8299590158655549270695116363986597392396718690701788385454161181421223825791nat, 1, 6734221456829326094945820146721983675722318769691528851867009398829236646741nat, modulus());
    lemma_mpow_next(7, 6925979999572859243nat, 6734221456829326094945820146721983675722318769691528851867009398829236646741nat, 0, 24331477904832496178177687534900092810453479483867306531630970204106315203875nat, modulus());
    lemma_mpow_next(7, 13851959999145718486nat, 24331477904832496178177687534900092810453479483867306531630970204106315203875nat, 0, 31412739792526173076413961585293600532913816356542535361286586053463144095255nat, modulus());
}

/// Squarings 65 to 80 of the power below.
#[verifier::spinoff_prover]
#[verifier::rlimit(50)]
proof fn lemma_pow_order_by_2529403_part4()
    requires
        mpow(7, 27703919998291436972nat, modulus()) == 31412739792526173076413961585293600532913816356542535361286586053463144095255nat,
    ensures
        mpow(7, 1815604101008027613401471nat, modulus()) == 26769884624042177558599247094295473505189927095018536878972758555647928663616nat,
{
    lemma_mpow_next(7, 27703919998291436972nat, 31412739792526173076413961585293600532913816356542535361286586053463144095255nat, 0, 13208930233898407640001975301974906429767421544673054274752574444887240371396nat, modulus());
    lemma_mpow_next(7, 55407839996582873944nat, 13208930233898407640001975301974906429767421544673054274752574444887240371396nat, 0, 24075335812670181158229982305615475171658147441545949295856064771732372325967nat, modulus());
    lemma_mpow_next(7, 110815679993165747888nat, 24075335812670181158229982305615475171658147441545949295856064771732372325967nat, 0, 42376277040073550414560658706164909235828468987136470431630417447527315254837nat, modulus());
    lemma_mpow_next(7, 221631359986331495776nat, 42376277040073550414560658706164909235828468987136470431630417447527315254837nat, 1, 39730840054243788572054674039775659488885663054139012127259198922063175598254nat, modulus());
    lemma_mpow_next(7, 443262719972662991553nat, 39730840054243788572054674039775659488885663054139012127259198922063175598254nat, 0, 28915944572841152149530848246872299111465052242863106767710484461290930267146nat, modulus());
    lemma_mpow_next(7, 886525439945325983106nat, 28915944572841152149530848246872299111465052242863106767710484461290930267146nat, 0, 25645701661514478539738460770357431444055656572223247324459187179036354911126nat, modulus());
    lemma_mpow_next(7, 1773050879890651966212nat, 25645701661514478539738460770357431444055656572223247324459187179036354911126nat, 0, 36091103893475036856808898640774017754720799985604208743955512369290408960455nat, modulus());
    lemma_mpow_next(7, 3546101759781303932424nat, 36091103893475036856808898640774017754720799985604208743955512369290408960455nat, 1, 2523243183032742969689255439731535728281872304108809231440886786671746088127nat, modulus());
    lemma_mpow_next(7, 7092203519562607864849nat, 2523243183032742969689255439731535728281872304108809231440886786671746088127nat, 0, 37441602359781970847955888520996205359496747978374951456335993530349434185031nat, modulus());
    lemma_mpow_next(7, 14184407039125215729698nat, 37441602359781970847955888520996205359496747978374951456335993530349434185031nat, 1, 16272497817919189435213897090890415988123148218255995545195429831631122479400nat, modulus());
    lemma_mpow_next(7, 28368814078250431459397nat, 16272497817919189435213897090890415988123148218255995545195429831631122479400nat, 1, 19803685290373220325234225112559960660891017113470654863047188964936065026811nat, modulus());
    lemma_mpow_next(7, 56737628156500862918795nat, 19803685290373220325234225112559960660891017113470654863047188964936065026811nat, 1, 18736764125638684940685102001445834309066821265522358440293442277152579444469nat, modulus());
    lemma_mpow_next(7, 113475256313001725837591nat, 18736764125638684940685102001445834309066821265522358440293442277152579444469nat, 1, 18491390890547810715584636118640415620717239072155405280879947367628487431000nat, modulus());
    lemma_mpow_next(7, 226950512626003451675183nat, 18491390890547810715584636118640415620717239072155405280879947367628487431000nat, 1, 31895800101397729359314150406422165401482281799811139708362902651653246316647nat, modulus());
    lemma_mpow_next(7, 453901025252006903350367nat, 31895800101397729359314150406422165401482281799811139708362902651653246316647nat, 1, 24518514368564310136947234465663890508863748254190479163155594964550156793677nat, modulus());
    lemma_mpow_next(7, 907802050504013806700735nat, 24518514368564310136947234465663890508863748254190479163155594964550156793677nat, 1, 26769884624042177558599247094295473505189927095018536878972758555647928663616nat, modulus());
}

/// Squarings 81 to 96 of the power below.
#[verifier::spinoff_prover]
#[verifier::rlimit(50)]
proof fn lemma_pow_order_by_2529403_part5()
    requires
        mpow(7, 1815604101008027613401471nat, modulus()) == 26769884624042177558599247094295473505189927095018536878972758555647928663616nat,
    ensures
        mpow(7, 118987430363662097671878807196nat, modulus()) == 48913902212754162172510338313931002741120591441850600483309960659242047086101nat,
{
    lemma_mpow_next(7, 1815604101008027613401471nat, 26769884624042177558599247094295473505189927095018536878972758555647928663616nat, 0, 8103724441975548369770777014501967086815718872246375667333289562951340670181nat, modulus());
    lemma_mpow_next(7, 3631208202016055226802942nat, 8103724441975548369770777014501967086815718872246375667333289562951340670181nat, 0, 19166006470903952469133675454485345297482914221503965139322043382083299283272nat, modulus());
    lemma_mpow_next(7, 7262416404032110453605884nat, 19166006470903952469133675454485345297482914221503965139322043382083299283272nat, 0, 39171360461355075783721101274240767521098665069791256664222892587360083443031nat, modulus());
    lemma_mpow_next(7, 14524832808064220907211768nat, 39171360461355075783721101274240767521098665069791256664222892587360083443031nat, 0, 33625768886230151274148244842840563464654147096042231096318260538740782766118nat, modulus());
    lemma_mpow_next(7, 29049665616128441814423536nat, 33625768886230151274148244842840563464654147096042231096318260538740782766118nat, 1, 26148013888581748276011450033173052310121158360855817196116020943422311905656nat, modulus());
    lemma_mpow_next(7, 58099331232256883628847073nat, 26148013888581748276011450033173052310121158360855817196116020943422311905656nat, 1, 41876178845708977454413250131364458714757520562152021285147094637570693103809nat, modulus());
    lemma_mpow_next(7, 116198662464513767257694147nat, 41876178845708977454413250131364458714757520562152021285147094637570693103809nat, 1, 37932001077510355867081556249940894355591721414238781400351201145429714288421nat, modulus());
    lemma_mpow_next(7, 232397324929027534515388295nat, 37932001077510355867081556249940894355591721414238781400351201145429714288421nat, 0, 39073721497250186664203866172089505904433276727950650217347525751703038026606nat, modulus());
    lemma_mpow_next(7, 464794649858055069030776590nat, 39073721497250186664203866172089505904433276727950650217347525751703038026606nat, 1, 25648361068016273002390322458530797430222641547794283311234866012180312575907nat, modulus());
    lemma_mpow_next(7, 929589299716110138061553181nat, 25648361068016273002390322458530797430222641547794283311234866012180312575907nat, 0, 5972443642291324126700438246435531784422794648652220951721272529526404592265nat, modulus());
    lemma_mpow_next(7, 1859178599432220276123106362nat, 5972443642291324126700438246435531784422794648652220951721272529526404592265nat, 0, 38882535703199598623536095405113560962633815985154447011976809878287937978656nat, modulus());
    lemma_mpow_next(7, 3718357198864440552246212724nat, 38882535703199598623536095405113560962633815985154447011976809878287937978656nat, 1, 20801897249129179279267084079094587146862150907213501694574298869727404414967nat, modulus());
    lemma_mpow_next(7, 7436714397728881104492425449nat, 20801897249129179279267084079094587146862150907213501694574298869727404414967nat, 1, 30765036017940812915892549971775677173265619881343852815295009814387230008279nat, modulus());
    lemma_mpow_next(7, 14873428795457762208984850899nat, 30765036017940812915892549971775677173265619881343852815295009814387230008279nat, 1, 45353769230962936501243432115371659488149677949973189535299769834807232480240nat, modulus());
    lemma_mpow_next(7, 29746857590915524417969701799nat, 45353769230962936501243432115371659488149677949973189535299769834807232480240nat, 0, 22500978901647587067170140703196597904800857072701889465365906430834870813924nat, modulus());
    lemma_mpow_next(7, 59493715181831048835939403598nat, 22500978901647587067170140703196597904800857072701889465365906430834870813924nat, 0, 48913902212754162172510338313931002741120591441850600483309960659242047086101nat, modulus());
}

/// Squarings 97 to 112 of the power below.
#[verifier::spinoff_prover]
#[verifier::rlimit(50)]
proof fn lemma_pow_order_by_2529403_part6()
    requires
        mpow(7, 118987430363662097671878807196nat, modulus()) == 48913902212754162172510338313931002741120591441850600483309960659242047086101nat,
    ensures
        mpow(7, 7797960236312959233024249508458476nat, modulus()) == 45233332258371565434148160304745360374335816920611904581170190911405208477325nat,
{
    lemma_mpow_next(7, 118987430363662097671878807196nat, 48913902212754162172510338313931002741120591441850600483309960659242047086101nat, 1, 17056122000620385741012705288176255716578800506565922430608041027707362346157nat, modulus());
    lemma_mpow_next(7, 237974860727324195343757614393nat, 17056122000620385741012705288176255716578800506565922430608041027707362346157nat, 1, 39025735345676544635360800441941221801224483770881996682785866506736345269010nat, modulus());
    lemma_mpow_next(7, 475949721454648390687515228787nat, 39025735345676544635360800441941221801224483770881996682785866506736345269010nat, 1, 6536034633439498146599441814412243551515738872820365640129320778119613761504nat, modulus());
    lemma_mpow_next(7, 951899442909296781375030457575nat, 6536034633439498146599441814412243551515738872820365640129320778119613761504nat, 0, 22394452623887147360922279413418436089449268233991380959182574862913792309601nat, modulus());
    lemma_mpow_next(7, 1903798885818593562750060915150nat, 22394452623887147360922279413418436089449268233991380959182574862913792309601nat, 1, 41895490127969270055941210732510396279070391898912021120269208390327356895100nat, modulus());
    lemma_mpow_next(7, 3807597771637187125500121830301nat, 41895490127969270055941210732510396279070391898912021120269208390327356895100nat, 1, 45959622546915824450249958415115562790508292583482539042048579358660332845407nat, modulus());
    lemma_mpow_next(7, 7615195543274374251000243660603nat, 45959622546915824450249958415115562790508292583482539042048579358660332845407nat, 1, 18820213883267229492548350954119490530151634773378396599226061445751979323104nat, modulus());
    lemma_mpow_next(7, 15230391086548748502000487321207nat, 18820213883267229492548350954119490530151634773378396599226061445751979323104nat, 1, 28269563132656085484509678099418906797018777194195118560848581301264394981532nat, modulus());
    lemma_mpow_next(7, 30460782173097497004000974642415nat, 28269563132656085484509678099418906797018777194195118560848581301264394981532nat, 1, 9046306589851391791083799607422259343801113385148819504846259747739597278214nat, modulus());
    lemma_mpow_next(7, 60921564346194994008001949284831nat, 9046306589851391791083799607422259343801113385148819504846259747739597278214nat, 1, 13012630495035102072715252597011614573586525570556167065412466525923742770335nat, modulus());
    lemma_mpow_next(7, 121843128692389988016003898569663nat, 13012630495035102072715252597011614573586525570556167065412466525923742770335nat, 1, 48761765108794314737576538625494628677183282395229203997723975833773339039784nat, modulus());
    lemma_mpow_next(7, 243686257384779976032007797139327nat, 48761765108794314737576538625494628677183282395229203997723975833773339039784nat, 0, 37540905709256170698249509110546862621993122177229062015842667657884175881284nat, modulus());
    lemma_mpow_next(7, 487372514769559952064015594278654nat, 37540905709256170698249509110546862621993122177229062015842667657884175881284nat, 1, 22045285978938337240178875511395759753656257146140421019848508778274152875458nat, modulus());
    lemma_mpow_next(7, 974745029539119904128031188557309nat, 22045285978938337240178875511395759753656257146140421019848508778274152875458nat, 1, 21766797932517537354332499535825285132092953021470502338752224970572212594267nat, modulus());
    lemma_mpow_next(7, 1949490059078239808256062377114619nat, 21766797932517537354332499535825285132092953021470502338752224970572212594267nat, 0, 28494353045178665707609012225561241323201360908794686053901211989978305446430nat, modulus());
    lemma_mpow_next(7, 3898980118156479616512124754229238nat, 28494353045178665707609012225561241323201360908794686053901211989978305446430nat, 0, 45233332258371565434148160304745360374335816920611904581170190911405208477325nat, modulus());
}

/// Squarings 113 to 128 of the power below.
#[verifier::spinoff_prover]
#[verifier::rlimit(50)]
proof fn lemma_pow_order_by_2529403_part7()
    requires
        mpow(7, 7797960236312959233024249508458476nat, modulus()) == 45233332258371565434148160304745360374335816920611904581170190911405208477325nat,
    ensures
        mpow(7, 511047122047006096295477215786334697756nat, modulus()) == 38432761768598697511000490300787103985452838898495553563299799192540640604157nat,
{
    lemma_mpow_next(7, 7797960236312959233024249508458476nat, 45233332258371565434148160304745360374335816920611904581170190911405208477325nat, 0, 27179902398989246691517087191505517838770598505230867134090720908326733505971nat, modulus());
    lemma_mpow_next(7, 15595920472625918466048499016916952nat, 27179902398989246691517087191505517838770598505230867134090720908326733505971nat, 0, 50211619693915841430863856145267238976009764998561359493757419354199394474180nat, modulus());
    lemma_mpow_next(7, 31191840945251836932096998033833904nat, 50211619693915841430863856145267238976009764998561359493757419354199394474180nat, 1, 51424774062223770446906719549241446047553245488015627297376264213505354737117nat, modulus());
    lemma_mpow_next(7, 62383681890503673864193996067667809nat, 51424774062223770446906719549241446047553245488015627297376264213505354737117nat, 1, 49966198728930859479929547040582460472056250447913431146459296754588476550434nat, modulus());
    lemma_mpow_next(7, 124767363781007347728387992135335619nat, 49966198728930859479929547040582460472056250447913431146459296754588476550434nat, 1, 17536891131757730079521694211747175826133194579955076880879463093621573118765nat, modulus());
    lemma_mpow_next(7, 249534727562014695456775984270671239nat, 17536891131757730079521694211747175826133194579955076880879463093621573118765nat, 0, 25712177674528481825282815734867126148927551668050893591949755920164414065093nat, modulus());
    lemma_mpow_next(7, 499069455124029390913551968541342478nat, 25712177674528481825282815734867126148927551668050893591949755920164414065093nat, 0, 39155929826450711631563201432771059225155341560680514962271569511401291375972nat, modulus());
    lemma_mpow_next(7, 998138910248058781827103937082684956nat, 39155929826450711631563201432771059225155341560680514962271569511401291375972nat, 1, 11255103346209097454516285940825756903505825533384503643465085605867016773908nat, modulus());
    lemma_mpow_next(7, 1996277820496117563654207874165369913nat, 11255103346209097454516285940825756903505825533384503643465085605867016773908nat, 0, 46307179606029923301418835902496336872336317660741945418916829401813842751669nat, modulus());
    lemma_mpow_next(7, 3992555640992235127308415748330739826nat, 46307179606029923301418835902496336872336317660741945418916829401813842751669nat, 0, 41731627368363396027789007839702058201853384650810931799373400699575583926427nat, modulus());
    lemma_mpow_next(7, 7985111281984470254616831496661479652nat, 41731627368363396027789007839702058201853384650810931799373400699575583926427nat, 0, 37624666802417241925695746504294138958659026549929927287414826359578122755537nat, modulus());
    lemma_mpow_next(7, 15970222563968940509233662993322959304nat, 37624666802417241925695746504294138958659026549929927287414826359578122755537nat, 1, 25940262674425660012758123971687235726256634665954132594040731430452428454049nat, modulus());
    lemma_mpow_next(7, 31940445127937881018467325986645918609nat, 25940262674425660012758123971687235726256634665954132594040731430452428454049nat, 1, 3919463412853924354519872775914264659487645157161089697525373816203050051287nat, modulus());
    lemma_mpow_next(7, 63880890255875762036934651973291837219nat, 3919463412853924354519872775914264659487645157161089697525373816203050051287nat, 1, 50228156268499747417625238731792312325080721017668285276847811082579387410906nat, modulus());
    lemma_mpow_next(7, 127761780511751524073869303946583674439nat, 50228156268499747417625238731792312325080721017668285276847811082579387410906nat, 0, 25819813700242112134390987664294073119867797244540361061078317412475319526749nat, modulus());
    lemma_mpow_next(7, 255523561023503048147738607893167348878nat, 25819813700242112134390987664294073119867797244540361061078317412475319526749nat, 0, 38432761768598697511000490300787103985452838898495553563299799192540640604157nat, modulus());
}

/// Squarings 129 to 144 of the power below.
#[verifier::spinoff_prover]
#[verifier::rlimit(50)]
proof fn lemma_pow_order_by_2529403_part8()
    requires
        mpow(7, 511047122047006096295477215786334697756nat, modulus()) == 38432761768598697511000490300787103985452838898495553563299799192540640604157nat,
    ensures
        mpow(7, 33491984190472591526820394813773230752181035nat, modulus()) == 13050341857636464564532567498114558297160772923608249334824586119291486994601nat,
{
    lemma_mpow_next(7, 511047122047006096295477215786334697756nat, 38432761768598697511000490300787103985452838898495553563299799192540640604157nat, 1, 37126608414246769393658291377537977491794341599424514211991242986254264113051nat, modulus());
    lemma_mpow_next(7, 1022094244094012192590954431572669395513nat, 37126608414246769393658291377537977491794341599424514211991242986254264113051nat, 0, 6530411943375301261531397227002462714953970779848614418136238471686162882369nat, modulus());
    lemma_mpow_next(7, 2044188488188024385181908863145338791026nat, 6530411943375301261531397227002462714953970779848614418136238471686162882369nat, 1, 36866074079401420525356510604558727189893733452476246076037708957373471511482nat, modulus());
    lemma_mpow_next(7, 4088376976376048770363817726290677582053nat, 36866074079401420525356510604558727189893733452476246076037708957373471511482nat, 0, 29183087850714137299051471819945847304871911751463238232909211012780075233406nat, modulus());
    lemma_mpow_next(7, 8176753952752097540727635452581355164106nat, 29183087850714137299051471819945847304871911751463238232909211012780075233406nat, 1, 38326777700471458907001185434707672187249981714421272561834936128595374654649nat, modulus());
    lemma_mpow_next(7, 16353507905504195081455270905162710328213nat, 38326777700471458907001185434707672187249981714421272561834936128595374654649nat, 0, 4157303815215786721848875361734560157121229307792968710612421501807632806445nat, modulus());
    lemma_mpow_next(7, 32707015811008390162910541810325420656426nat, 4157303815215786721848875361734560157121229307792968710612421501807632806445nat, 1, 3457301920701443240230731267237590433758345756852488638882199286881791194961nat, modulus());
    lemma_mpow_next(7, 65414031622016780325821083620650841312853nat, 3457301920701443240230731267237590433758345756852488638882199286881791194961nat, 1, 20911041911983705675519796470126114927180319982679828695662010815253992483390nat, modulus());
    lemma_mpow_next(7, 130828063244033560651642167241301682625707nat, 20911041911983705675519796470126114927180319982679828695662010815253992483390nat, 0, 20181746247698045240069363381921991839795726842006697338229193025132496954831nat, modulus());
    lemma_mpow_next(7, 261656126488067121303284334482603365251414nat, 20181746247698045240069363381921991839795726842006697338229193025132496954831nat, 0, 5583940347698423920558900798857262354056860627026959691145014574136919291405nat, modulus());
    lemma_mpow_next(7, 523312252976134242606568668965206730502828nat, 5583940347698423920558900798857262354056860627026959691145014574136919291405nat, 1, 44421589466220051594796885870122967412776469686431423276727041976259716504070nat, modulus());
    lemma_mpow_next(7, 1046624505952268485213137337930413461005657nat, 44421589466220051594796885870122967412776469686431423276727041976259716504070nat, 0, 48813183448299703133809173928101435190406864121996901548595989428614228811663nat, modulus());
    lemma_mpow_next(7, 2093249011904536970426274675860826922011314nat, 48813183448299703133809173928101435190406864121996901548595989428614228811663nat, 1, 36065070644071235611990631903454432230959178677156111193244410882395321668077nat, modulus());
    lemma_mpow_next(7, 4186498023809073940852549351721653844022629nat, 36065070644071235611990631903454432230959178677156111193244410882395321668077nat, 0, 11158972926284666394387629512922694719569246328578341870353091103738868135128nat, modulus());
    lemma_mpow_next(7, 8372996047618147881705098703443307688045258nat, 11158972926284666394387629512922694719569246328578341870353091103738868135128nat, 1, 32599068106410121990288108497969292783659177988679398210308674916837446029832nat, modulus());
    lemma_mpow_next(7, 16745992095236295763410197406886615376090517nat, 32599068106410121990288108497969292783659177988679398210308674916837446029832nat, 1, 13050341857636464564532567498114558297160772923608249334824586119291486994601nat, modulus());
}

/// Squarings 145 to 160 of the power below.
#[verifier::spinoff_prover]
#[verifier::rlimit(50)]
proof fn lemma_pow_order_by_2529403_part9()
    requires
        mpow(7, 33491984190472591526820394813773230752181035nat, modulus()) == 13050341857636464564532567498114558297160772923608249334824586119291486994601nat,
    ensures
        mpow(7, 2194930675906811758301701394515442450574936323741nat, modulus()) == 47238694765485724170948253559472587011390753494456240255511548000846944392245nat,
{
    lemma_mpow_next(7, 33491984190472591526820394813773230752181035nat, 13050341857636464564532567498114558297160772923608249334824586119291486994601nat, 0, 11294612635524819829376850982818651989309474303635796473817064768553135102245nat, modulus());
    lemma_mpow_next(7, 66983968380945183053640789627546461504362070nat, 11294612635524819829376850982818651989309474303635796473817064768553135102245nat, 0, 50645502437258721667604789619951552461384541286130108552529303952056948563307nat, modulus());
    lemma_mpow_next(7, 133967936761890366107281579255092923008724140nat, 50645502437258721667604789619951552461384541286130108552529303952056948563307nat, 1, 51388577827915721355648102760310711439294186356630724763771094444230780190608nat, modulus());
    lemma_mpow_next(7, 267935873523780732214563158510185846017448281nat, 51388577827915721355648102760310711439294186356630724763771094444230780190608nat, 1, 18662838595920401886432940812725526929318503994042909268362476187810028217248nat, modulus());
    lemma_mpow_next(7, 535871747047561464429126317020371692034896563nat, 18662838595920401886432940812725526929318503994042909268362476187810028217248nat, 0, 3417816237085365978941075261213508060164190438267634732930056414821123984551nat, modulus());
    lemma_mpow_next(7, 1071743494095122928858252634040743384069793126nat, 3417816237085365978941075261213508060164190438267634732930056414821123984551nat, 1, 31581278059057514706862568064382489611207794137487944411617189149659897063481nat, modulus());
    lemma_mpow_next(7, 2143486988190245857716505268081486768139586253nat, 31581278059057514706862568064382489611207794137487944411617189149659897063481nat, 1, 34779422422100920238788940872588397742379341435596973003606952460455913467307nat, modulus());
    lemma_mpow_next(7, 4286973976380491715433010536162973536279172507nat, 34779422422100920238788940872588397742379341435596973003606952460455913467307nat, 0, 50714686645301181463161769345383069715879735724723947206672052731156234173501nat, modulus());
    lemma_mpow_next(7, 8573947952760983430866021072325947072558345014nat, 50714686645301181463161769345383069715879735724723947206672052731156234173501nat, 1, 46308303518362481647410181440102457563378979841076812410793076614043313277449nat, modulus());
    lemma_mpow_next(7, 17147895905521966861732042144651894145116690029nat, 46308303518362481647410181440102457563378979841076812410793076614043313277449nat, 0, 1068193214159792055335762915793468637426481303738905292914988359776058216172nat, modulus());
    lemma_mpow_next(7, 34295791811043933723464084289303788290233380058nat, 1068193214159792055335762915793468637426481303738905292914988359776058216172nat, 0, 6372929944622564977969695124996998220206666717334109608694767541043194326029nat, modulus());
    lemma_mpow_next(7, 68591583622087867446928168578607576580466760116nat, 6372929944622564977969695124996998220206666717334109608694767541043194326029nat, 1, 12131384987876038895187315726047456098288252223408941721333595354338600561991nat, modulus());
    lemma_mpow_next(7, 137183167244175734893856337157215153160933520233nat, 12131384987876038895187315726047456098288252223408941721333595354338600561991nat, 1, 14371879547500024902898487398766807580838817584705629368251529632912932114869nat, modulus());
    lemma_mpow_next(7, 274366334488351469787712674314430306321867040467nat, 14371879547500024902898487398766807580838817584705629368251529632912932114869nat, 1, 37666067843210124690277007321883472269536534384553858584541888990830623246267nat, modulus());
    lemma_mpow_next(7, 548732668976702939575425348628860612643734080935nat, 37666067843210124690277007321883472269536534384553858584541888990830623246267nat, 0, 44217292554174260224762224442961362321987740360147893745629928212004594603101nat, modulus());
    lemma_mpow_next(7, 1097465337953405879150850697257721225287468161870nat, 44217292554174260224762224442961362321987740360147893745629928212004594603101nat, 1, 47238694765485724170948253559472587011390753494456240255511548000846944392245nat, modulus());
}

/// Squarings 161 to 176 of the power below.
#[verifier::spinoff_prover]
#[verifier::rlimit(50)]
proof fn lemma_pow_order_by_2529403_part10()
    requires
        mpow(7, 2194930675906811758301701394515442450574936323741nat, modulus()) == 47238694765485724170948253559472587011390753494456240255511548000846944392245nat,
    ensures
        mpow(7, 143846976776228815392060302590964036440879026912692787nat, modulus()) == 17984711221573711515277513084001963235084975782581852002206103399847917901365nat,
{
    lemma_mpow_next(7, 2194930675906811758301701394515442450574936323741nat, 47238694765485724170948253559472587011390753494456240255511548000846944392245nat, 0, 1055352403526009001891082354096243830168358186809817076567821773035291303251nat, modulus());
    lemma_mpow_next(7, 4389861351813623516603402789030884901149872647482nat, 1055352403526009001891082354096243830168358186809817076567821773035291303251nat, 0, 40148521506107839129439009125906708031097150048068912858797085770796473612479nat, modulus());
    lemma_mpow_next(7, 8779722703627247033206805578061769802299745294964nat, 40148521506107839129439009125906708031097150048068912858797085770796473612479nat, 0, 24547132337964710877491088080468108168309767015739403259634195050504333275262nat, modulus());
    lemma_mpow_next(7, 17559445407254494066413611156123539604599490589928nat, 24547132337964710877491088080468108168309767015739403259634195050504333275262nat, 0, 50844750935811383187182285274806651194645869137553137719292528362508041791679nat, modulus());
    lemma_mpow_next(7, 35118890814508988132827222312247079209198981179856nat, 50844750935811383187182285274806651194645869137553137719292528362508041791679nat, 1, 25703867252320203044360251961195445857088253974754189427182178077820103771416nat, modulus());
    lemma_mpow_next(7, 70237781629017976265654444624494158418397962359713nat, 25703867252320203044360251961195445857088253974754189427182178077820103771416nat, 0, 51336723990800814946085757096015760926643924141584267077876629369955017472126nat, modulus());
    lemma_mpow_next(7, 140475563258035952531308889248988316836795924719426nat, 51336723990800814946085757096015760926643924141584267077876629369955017472126nat, 1, 11403197840224218963943085215233815803291635344193067306242317095287491341130nat, modulus());
    lemma_mpow_next(7, 280951126516071905062617778497976633673591849438853nat, 11403197840224218963943085215233815803291635344193067306242317095287491341130nat, 0, 1295106098621668748416334905947100742642523493538524096541870266589545524455nat, modulus());
    lemma_mpow_next(7, 561902253032143810125235556995953267347183698877706nat, 1295106098621668748416334905947100742642523493538524096541870266589545524455nat, 0, 50675991659531455796834873024486872384807787079817260879309638800575917946131nat, modulus());
    lemma_mpow_next(7, 1123804506064287620250471113991906534694367397755412nat, 50675991659531455796834873024486872384807787079817260879309638800575917946131nat, 0, 37656996537328687225900763400961010023916561490494891835296854450776515347922nat, modulus());
    lemma_mpow_next(7, 2247609012128575240500942227983813069388734795510824nat, 37656996537328687225900763400961010023916561490494891835296854450776515347922nat, 1, 24213147666425883914729867116509757345742200334269262685113929879362481959688nat, modulus());
    lemma_mpow_next(7, 4495218024257150481001884455967626138777469591021649nat, 24213147666425883914729867116509757345742200334269262685113929879362481959688nat, 1, 8603098985374130857504260631408530710669753225077758094087072454599014245165nat, modulus());
    lemma_mpow_next(7, 8990436048514300962003768911935252277554939182043299nat, 8603098985374130857504260631408530710669753225077758094087072454599014245165nat, 0, 4478970037042896499462881243449365447569516994881728844662029686495405950445nat, modulus());
    lemma_mpow_next(7, 17980872097028601924007537823870504555109878364086598nat, 4478970037042896499462881243449365447569516994881728844662029686495405950445nat, 0, 24310901773241446366242116285012092340427182770776370105907972093438057927607nat, modulus());
    lemma_mpow_next(7, 35961744194057203848015075647741009110219756728173196nat, 24310901773241446366242116285012092340427182770776370105907972093438057927607nat, 1, 46183703909273312932629626393963919931807384799194576830659081799013403500052nat, modulus());
    lemma_mpow_next(7, 71923488388114407696030151295482018220439513456346393nat, 46183703909273312932629626393963919931807384799194576830659081799013403500052nat, 1, 17984711221573711515277513084001963235084975782581852002206103399847917901365nat, modulus());
}

/// Squarings 177 to 192 of the power below.
#[verifier::spinoff_prover]
#[verifier::rlimit(50)]
proof fn lemma_pow_order_by_2529403_part11()
    requires
        mpow(7, 143846976776228815392060302590964036440879026912692787nat, modulus()) == 17984711221573711515277513084001963235084975782581852002206103399847917901365nat,
    ensures
        mpow(7, 9427155470006931645534063990601419092189447907750234532668nat, modulus()) == 48851973592617960474068652254547785959524694599707222689959555005814422010617nat,
{
    lemma_mpow_next(7, 143846976776228815392060302590964036440879026912692787nat, 17984711221573711515277513084001963235084975782581852002206103399847917901365nat, 1, 24895346327945930810370993353229664709270530198150554847778368894015609091224nat, modulus());
    lemma_mpow_next(7, 287693953552457630784120605181928072881758053825385575nat, 24895346327945930810370993353229664709270530198150554847778368894015609091224nat, 0, 2304211328870778722187978576748710597406498978437714943666446118430650848980nat, modulus());
    lemma_mpow_next(7, 575387907104915261568241210363856145763516107650771150nat, 2304211328870778722187978576748710597406498978437714943666446118430650848980nat, 1, 30238205552047354622830573836172798673580051025018520265220032974343253063296nat, modulus());
    lemma_mpow_next(7, 1150775814209830523136482420727712291527032215301542301nat, 30238205552047354622830573836172798673580051025018520265220032974343253063296nat, 0, 19691320657444254150755961795844497725699429206603870763644077254908996125555nat, modulus());
    lemma_mpow_next(7, 2301551628419661046272964841455424583054064430603084602nat, 19691320657444254150755961795844497725699429206603870763644077254908996125555nat, 1, 5282507512625877340505468017474322583015259332917480329003128499499636186850nat, modulus());
    lemma_mpow_next(7, 4603103256839322092545929682910849166108128861206169205nat, 5282507512625877340505468017474322583015259332917480329003128499499636186850nat, 0, 33154021044396518319513945553627449865392257842273783156319556683935329365308nat, modulus());
    lemma_mpow_next(7, 9206206513678644185091859365821698332216257722412338410nat, 33154021044396518319513945553627449865392257842273783156319556683935329365308nat, 1, 44149765550589995617257800716455308781321945137818507967412053839059964046898nat, modulus());
    lemma_mpow_next(7, 18412413027357288370183718731643396664432515444824676821nat, 44149765550589995617257800716455308781321945137818507967412053839059964046898nat, 1, 17121753868587632303081554470568840405143076956046705743726182331681429824991nat, modulus());
    lemma_mpow_next(7, 36824826054714576740367437463286793328865030889649353643nat, 17121753868587632303081554470568840405143076956046705743726182331681429824991nat, 0, 41891173099871038508058570271376482141283245032212879382097773126145844541186nat, modulus());
    lemma_mpow_next(7, 73649652109429153480734874926573586657730061779298707286nat, 41891173099871038508058570271376482141283245032212879382097773126145844541186nat, 0, 31493328970853453780157220678806931709262428941189472974457625838239577724122nat, modulus());
    lemma_mpow_next(7, 147299304218858306961469749853147173315460123558597414572nat, 31493328970853453780157220678806931709262428941189472974457625838239577724122nat, 1, 7431478121540768702995626405699233898059247484218347511238969610241958715632nat, modulus());
    lemma_mpow_next(7, 294598608437716613922939499706294346630920247117194829145nat, 7431478121540768702995626405699233898059247484218347511238969610241958715632nat, 1, 51078604039371838716239149804008726906305542787939471215098746051832110489016nat, modulus());
    lemma_mpow_next(7, 589197216875433227845878999412588693261840494234389658291nat, 51078604039371838716239149804008726906305542787939471215098746051832110489016nat, 1, 13164200490641495500030324702444552354114377905187176000197672186183554346269nat, modulus());
    lemma_mpow_next(7, 1178394433750866455691757998825177386523680988468779316583nat, 13164200490641495500030324702444552354114377905187176000197672186183554346269nat, 1, 107722015265314154631181504991518594763136980770450545134305195992582073841nat, modulus());
    lemma_mpow_next(7, 2356788867501732911383515997650354773047361976937558633167nat, 107722015265314154631181504991518594763136980770450545134305195992582073841nat, 0, 9469081341342843230657792693589906032785780198308283999349678913567327579736nat, modulus());
    lemma_mpow_next(7, 4713577735003465822767031995300709546094723953875117266334nat, 9469081341342843230657792693589906032785780198308283999349678913567327579736nat, 0, 48851973592617960474068652254547785959524694599707222689959555005814422010617nat, modulus());
}

/// Squarings 193 to 208 of the power below.
#[verifier::spinoff_prover]
#[verifier::rlimit(50)]
proof fn lemma_pow_order_by_2529403_part12()
    requires
        mpow(7, 9427155470006931645534063990601419092189447907750234532668nat, modulus()) == 48851973592617960474068652254547785959524694599707222689959555005814422010617nat,
    ensures
        mpow(7, 617818060882374272321720417688054601625727658082319370332972672nat, modulus()) == 15741419934051616150179817388872967366549796823499716396174538297401117048059nat,
{
    lemma_mpow_next(7, 9427155470006931645534063990601419092189447907750234532668nat, 48851973592617960474068652254547785959524694599707222689959555005814422010617nat, 1, 44006885589906503081593665661852699939668337666010875070732333602730828526031nat, modulus());
    lemma_mpow_next(7, 18854310940013863291068127981202838184378895815500469065337nat, 44006885589906503081593665661852699939668337666010875070732333602730828526031nat, 0, 46634071299392874227822742205311554461216668593911475658370693463140433623260nat, modulus());
    lemma_mpow_next(7, 37708621880027726582136255962405676368757791631000938130674nat, 46634071299392874227822742205311554461216668593911475658370693463140433623260nat, 1, 9491729364964771407417062673843636050146373726463617435599770013248000312456nat, modulus());
    lemma_mpow_next(7, 75417243760055453164272511924811352737515583262001876261349nat, 9491729364964771407417062673843636050146373726463617435599770013248000312456nat, 0, 7489232406839447289540881120509144014577931949876189406628451543135477417029nat, modulus());
    lemma_mpow_next(7, 150834487520110906328545023849622705475031166524003752522698nat, 7489232406839447289540881120509144014577931949876189406628451543135477417029nat, 0, 112023823324598927910816084394719582908559896482442874915200330623877487090nat, modulus());
    lemma_mpow_next(7, 301668975040221812657090047699245410950062333048007505045396nat, 112023823324598927910816084394719582908559896482442874915200330623877487090nat, 1, 40372072374620201939551611457908595343353346696970161228168461175227975860753nat, modulus());
    lemma_mpow_next(7, 603337950080443625314180095398490821900124666096015010090793nat, 40372072374620201939551611457908595343353346696970161228168461175227975860753nat, 1, 602217807882013699401308346909145195833663410374633834510908274019753106855nat, modulus());
    lemma_mpow_next(7, 1206675900160887250628360190796981643800249332192030020181587nat, 602217807882013699401308346909145195833663410374633834510908274019753106855nat, 0, 25092480932360329841726753592912491699151430831576382747847825533296576583402nat, modulus());
    lemma_mpow_next(7, 2413351800321774501256720381593963287600498664384060040363174nat, 25092480932360329841726753592912491699151430831576382747847825533296576583402nat, 1, 16311792806889761758322392158622878721235477082385563816110196982165284086386nat, modulus());
    lemma_mpow_next(7, 4826703600643549002513440763187926575200997328768120080726349nat, 16311792806889761758322392158622878721235477082385563816110196982165284086386nat, 0, 29210508439872308201453809396355625050956860601764379244375926469543149434410nat, modulus());
    lemma_mpow_next(7, 9653407201287098005026881526375853150401994657536240161452698nat, 29210508439872308201453809396355625050956860601764379244375926469543149434410nat, 0, 17880183845996722785960692112175339369130804655661552508376989186515913959337nat, modulus());
    lemma_mpow_next(7, 19306814402574196010053763052751706300803989315072480322905396nat, 17880183845996722785960692112175339369130804655661552508376989186515913959337nat, 0, 46975566736418585976376386530893470736351501820807244282423918340209327722600nat, modulus());
    lemma_mpow_next(7, 38613628805148392020107526105503412601607978630144960645810792nat, 46975566736418585976376386530893470736351501820807244282423918340209327722600nat, 0, 44398990822240114116538585776691285740010117182671716192800581764269980115968nat, modulus());
    lemma_mpow_next(7, 77227257610296784040215052211006825203215957260289921291621584nat, 44398990822240114116538585776691285740010117182671716192800581764269980115968nat, 0, 32491303901727448091225384305014486962069419674301600588712833511909882112480nat, modulus());
    lemma_mpow_next(7, 154454515220593568080430104422013650406431914520579842583243168nat, 32491303901727448091225384305014486962069419674301600588712833511909882112480nat, 0, 29344081093885848347125939246099567399792589410328016386827199819649380879074nat, modulus());
    lemma_mpow_next(7, 308909030441187136160860208844027300812863829041159685166486336nat, 29344081093885848347125939246099567399792589410328016386827199819649380879074nat, 0, 15741419934051616150179817388872967366549796823499716396174538297401117048059nat, modulus());
}

/// Squarings 209 to 224 of the power below.
#[verifier::spinoff_prover]
#[verifier::rlimit(50)]
proof fn lemma_pow_order_by_2529403_part13()
    requires
        mpow(7, 617818060882374272321720417688054601625727658082319370332972672nat, modulus()) == 15741419934051616150179817388872967366549796823499716396174538297401117048059nat,
    ensures
        mpow(7, 40489324437987280310876269293604346372143687800082882254141697032192nat, modulus()) == 14148015780103733242613131048210370352011572840721638318275116531625360007906nat,
{
    lemma_mpow_next(7, 617818060882374272321720417688054601625727658082319370332972672nat, 15741419934051616150179817388872967366549796823499716396174538297401117048059nat, 0, 41445701386063327279694476797645181378987083348430306955202578902173401592967nat, modulus());
    lemma_mpow_next(7, 1235636121764748544643440835376109203251455316164638740665945344nat, 41445701386063327279694476797645181378987083348430306955202578902173401592967nat, 0, 17178523716973790774136095070005284322947339486676133041119757310389576800619nat, modulus());
    lemma_mpow_next(7, 2471272243529497089286881670752218406502910632329277481331890688nat, 17178523716973790774136095070005284322947339486676133041119757310389576800619nat, 0, 10145822577563451168723391876713280398424492543431584295820584956944826455491nat, modulus());
    lemma_mpow_next(7, 4942544487058994178573763341504436813005821264658554962663781376nat, 10145822577563451168723391876713280398424492543431584295820584956944826455491nat, 0, 15666539954267365227266471790020989873825633975213864113875141942182368393002nat, modulus());
    lemma_mpow_next(7, 9885088974117988357147526683008873626011642529317109925327562752nat, 15666539954267365227266471790020989873825633975213864113875141942182368393002nat, 0, 41467918244324637880609113547780577146735982561633406899128527319125454351397nat, modulus());
    lemma_mpow_next(7, 19770177948235976714295053366017747252023285058634219850655125504nat, 41467918244324637880609113547780577146735982561633406899128527319125454351397nat, 0, 29063373727099669270418236397033384096008604264319644283176373456018237103213nat, modulus());
    lemma_mpow_next(7, 39540355896471953428590106732035494504046570117268439701310251008nat, 29063373727099669270418236397033384096008604264319644283176373456018237103213nat, 0, 24441299929976655636417671651926785463355672023459944658414808901419024944600nat, modulus());
    lemma_mpow_next(7, 79080711792943906857180213464070989008093140234536879402620502016nat, 24441299929976655636417671651926785463355672023459944658414808901419024944600nat, 0, 5293979085447501990350439769203558348343732300105138945955131135299542156157nat, modulus());
    lemma_mpow_next(7, 158161423585887813714360426928141978016186280469073758805241004032nat, 5293979085447501990350439769203558348343732300105138945955131135299542156157nat, 0, 37067021480714789385089060516170734229122221809335439137069577237258764292355nat, modulus());
    lemma_mpow_next(7, 316322847171775627428720853856283956032372560938147517610482008064nat, 37067021480714789385089060516170734229122221809335439137069577237258764292355nat, 0, 52145449129984700107630358230142419154006872199855681029615134577337528527535nat, modulus());
    lemma_mpow_next(7, 632645694343551254857441707712567912064745121876295035220964016128nat, 52145449129984700107630358230142419154006872199855681029615134577337528527535nat, 0, 46639069606054783932473241060225664131347876928178810588027100325112713050391nat, modulus());
    lemma_mpow_next(7, 1265291388687102509714883415425135824129490243752590070441928032256nat, 46639069606054783932473241060225664131347876928178810588027100325112713050391nat, 0, 40026715254126828545957619939886474929548194247896533187405056267883418243566nat, modulus());
    lemma_mpow_next(7, 2530582777374205019429766830850271648258980487505180140883856064512nat, 40026715254126828545957619939886474929548194247896533187405056267883418243566nat, 0, 38312253328980024914283083800430910366475018366776375133801554141901327848666nat, modulus());
    lemma_mpow_next(7, 5061165554748410038859533661700543296517960975010360281767712129024nat, 38312253328980024914283083800430910366475018366776375133801554141901327848666nat, 0, 12478899782857929971000512161096888455329685143507940442423394732538817480604nat, modulus());
    lemma_mpow_next(7, 10122331109496820077719067323401086593035921950020720563535424258048nat, 12478899782857929971000512161096888455329685143507940442423394732538817480604nat, 0, 46455273693312958755614465400986765751928605453935286931930903616172322816911nat, modulus());
    lemma_mpow_next(7, 20244662218993640155438134646802173186071843900041441127070848516096nat, 46455273693312958755614465400986765751928605453935286931930903616172322816911nat, 0, 14148015780103733242613131048210370352011572840721638318275116531625360007906nat, modulus());
}

/// Squarings 225 to 233 of the power below.
#[verifier::spinoff_prover]
#[verifier::rlimit(50)]
proof fn lemma_pow_order_by_2529403_part14()
    requires
        mpow(7, 40489324437987280310876269293604346372143687800082882254141697032192nat, modulus()) == 14148015780103733242613131048210370352011572840721638318275116531625360007906nat,
    ensures
        mpow(7, 20730534112249487519168649878325425342537568153642435714120548880482304nat, modulus()) == 49551106890066900544454285625746392760007334600837347914792012465621494065871nat,
{
    lemma_mpow_next(7, 40489324437987280310876269293604346372143687800082882254141697032192nat, 14148015780103733242613131048210370352011572840721638318275116531625360007906nat, 0, 39595977455259518103566383612591282564354225882435721501939368401451474208747nat, modulus());
    lemma_mpow_next(7, 80978648875974560621752538587208692744287375600165764508283394064384nat, 39595977455259518103566383612591282564354225882435721501939368401451474208747nat, 0, 41466434650738579957454038802545261996020294884181329306888696189007645155491nat, modulus());
    lemma_mpow_next(7, 161957297751949121243505077174417385488574751200331529016566788128768nat, 41466434650738579957454038802545261996020294884181329306888696189007645155491nat, 0, 6657210857428249854134766223960078355467016386165657534987773855072881375441nat, modulus());
    lemma_mpow_next(7, 323914595503898242487010154348834770977149502400663058033133576257536nat, 6657210857428249854134766223960078355467016386165657534987773855072881375441nat, 0, 45010534725989893462652315584290686088431725384207676906758029131912600088163nat, modulus());
    lemma_mpow_next(7, 647829191007796484974020308697669541954299004801326116066267152515072nat, 45010534725989893462652315584290686088431725384207676906758029131912600088163nat, 0, 2458857656015910060801264797007897914410099869994421892891615135524489912552nat, modulus());
    lemma_mpow_next(7, 1295658382015592969948040617395339083908598009602652232132534305030144nat, 2458857656015910060801264797007897914410099869994421892891615135524489912552nat, 0, 51065108347615372374682819842980778507986805483891800834342663283526196440190nat, modulus());
    lemma_mpow_next(7, 2591316764031185939896081234790678167817196019205304464265068610060288nat, 51065108347615372374682819842980778507986805483891800834342663283526196440190nat, 0, 24566239051828625475052426095879579006814228204695786668641429475913284739943nat, modulus());
    lemma_mpow_next(7, 5182633528062371879792162469581356335634392038410608928530137220120576nat, 24566239051828625475052426095879579006814228204695786668641429475913284739943nat, 0, 12160731623700004223845878336176743927125407676474313907977814377109675046590nat, modulus());
    lemma_mpow_next(7, 10365267056124743759584324939162712671268784076821217857060274440241152nat, 12160731623700004223845878336176743927125407676474313907977814377109675046590nat, 0, 49551106890066900544454285625746392760007334600837347914792012465621494065871nat, modulus());
}

/// The generator to the power `(n - 1) / 2529403` modulo the field order `n`.
proof fn lemma_pow_order_by_2529403()
    ensures
        mpow(7, 20730534112249487519168649878325425342537568153642435714120548880482304nat, modulus()) == 49551106890066900544454285625746392760007334600837347914792012465621494065871nat,
{
    lemma_mpow_first(7, modulus());
    lemma_pow_order_by_2529403_part0();
    lemma_pow_order_by_2529403_part1();
    lemma_pow_order_by_2529403_part2();
    lemma_pow_order_by_2529403_part3();
    lemma_pow_order_by_2529403_part4();
    lemma_pow_order_by_2529403_part5();
    lemma_pow_order_by_2529403_part6();
    lemma_pow_order_by_2529403_part7();
    lemma_pow_order_by_2529403_part8();
    lemma_pow_order_by_2529403_part9();
    lemma_pow_order_by_2529403_part10();
    lemma_pow_order_by_2529403_part11();
    lemma_pow_order_by_2529403_part12();
    lemma_pow_order_by_2529403_part13();
    lemma_pow_order_by_2529403_part14();
}

/// Squarings 1 to 16 of the power below.
#[verifier::spinoff_prover]
#[verifier::rlimit(50)]
proof fn lemma_pow_order_by_52437899_part0()
    requires
        mpow(7, 1, modulus()) == 7,
    ensures
        mpow(7, 75961, modulus()) == 51607353329320419047980261787234296137126719245513724120577077927745089949528nat,
{
    lemma_mpow_next(7, 1, 7, 0, 49, modulus());
    lemma_mpow_next(7, 2, 49, 0, 2401, modulus());
    lemma_mpow_next(7, 4, 2401, 1, 40353607, modulus());
    lemma_mpow_next(7, 9, 40353607, 0, 1628413597910449, modulus());
    lemma_mpow_next(7, 18, 1628413597910449, 1, 18562115921017574302453163671207nat, modulus());
    lemma_mpow_next(7, 37, 18562115921017574302453163671207nat, 0, 344552147465294110719732986332367243247925798357929806000836849nat, modulus());
    lemma_mpow_next(7, 74, 344552147465294110719732986332367243247925798357929806000836849nat, 0, 11389256878112697449176539281268487147340344949760628920234703396584389385806nat, modulus());
    lemma_mpow_next(7, 148, 11389256878112697449176539281268487147340344949760628920234703396584389385806nat, 0, 38125394411190456660924319136189303120756087236895287915627579933642731715275nat, modulus());
    lemma_mpow_next(7, 296, 38125394411190456660924319136189303120756087236895287915627579933642731715275nat, 1, 24867627800568254027239839923495560495792621706355237700470719230773515072261nat, modulus());
    lemma_mpow_next(7, 593, 24867627800568254027239839923495560495792621706355237700470719230773515072261nat, 0, 23616196574669074948896418660476045082690889956024284081075096210604106088844nat, modulus());
    lemma_mpow_next(7, 1186, 23616196574669074948896418660476045082690889956024284081075096210604106088844nat, 1, 5470460759254826094491726408440331839780362966064069842692900125580729060397nat, modulus());
    lemma_mpow_next(7, 2373, 5470460759254826094491726408440331839780362966064069842692900125580729060397nat, 1, 41257261749274174000848289131163340219493300747710572545771754407793690910844nat, modulus());
    lemma_mpow_next(7, 4747, 41257261749274174000848289131163340219493300747710572545771754407793690910844nat, 1, 41353997467742004648460447975924485654913163816701721144241775033600555341932nat, modulus());
    lemma_mpow_next(7, 9495, 41353997467742004648460447975924485654913163816701721144241775033600555341932nat, 0, 43298853123416108859309889466664173713399143130478380614581468348650118151009nat, modulus());
    lemma_mpow_next(7, 18990, 43298853123416108859309889466664173713399143130478380614581468348650118151009nat, 0, 51535409753239255506485080953389527840661767864336432208837517571062442181015nat, modulus());
    lemma_mpow_next(7, 37980, 51535409753239255506485080953389527840661767864336432208837517571062442181015nat, 1, 51607353329320419047980261787234296137126719245513724120577077927745089949528nat, modulus());
}

/// Squarings 17 to 32 of the power below.
#[verifier::spinoff_prover]
#[verifier::rlimit(50)]
proof fn lemma_pow_order_by_52437899_part1()
    requires
        mpow(7, 75961, modulus()) == 51607353329320419047980261787234296137126719245513724120577077927745089949528nat,
    ensures
        mpow(7, 4978220081, modulus()) == 15304806915016079469975076294828884090223874397743765148210210844012631671088nat,
{
    lemma_mpow_next(7, 75961, 51607353329320419047980261787234296137126719245513724120577077927745089949528nat, 1, 25129815776908919828539563217156905172372061776530888588930679935144379564887nat, modulus());
    lemma_mpow_next(7, 151923, 25129815776908919828539563217156905172372061776530888588930679935144379564887nat, 0, 32142303170071971169529720587822415692645980531986208257438125422340954179212nat, modulus());
    lemma_mpow_next(7, 303846, 32142303170071971169529720587822415692645980531986208257438125422340954179212nat, 0, 13696339124331741502775713960227006060193700900639365755002466426854499379406nat, modulus());
    lemma_mpow_next(7, 607692, 13696339124331741502775713960227006060193700900639365755002466426854499379406nat, 1, 32786141457626691956165567606466346684460048037614899576730000443632526516308nat, modulus());
    lemma_mpow_next(7, 1215385, 32786141457626691956165567606466346684460048037614899576730000443632526516308nat, 1, 39755531920829096641378167805660766530432680610325002922038774874094649861535nat, modulus());
    lemma_mpow_next(7, 2430771, 39755531920829096641378167805660766530432680610325002922038774874094649861535nat, 1, 47531838213034224520922861236165438145080194919171209350854421283229621349894nat, modulus());
    lemma_mpow_next(7, 4861543, 47531838213034224520922861236165438145080194919171209350854421283229621349894nat, 0, 4983013180426862703851104400307497022955171679421751698273159764701553871938nat, modulus());
    lemma_mpow_next(7, 9723086, 4983013180426862703851104400307497022955171679421751698273159764701553871938nat, 0, 3718521327407677255466492624748610720441929403128805056533674949011770812619nat, modulus());
    lemma_mpow_next(7, 19446172, 3718521327407677255466492624748610720441929403128805056533674949011770812619nat, 0, 28461454847048695208921399041110826720784413539325519301188005722847752360767nat, modulus());
    lemma_mpow_next(7, 38892344, 28461454847048695208921399041110826720784413539325519301188005722847752360767nat, 0, 23204431381014909474351431239856756069082208913300832159898468624810710320185nat, modulus());
    lemma_mpow_next(7, 77784688, 23204431381014909474351431239856756069082208913300832159898468624810710320185nat, 1, 29406941297922296780157330317195850394751445281426298127534220195092521130042nat, modulus());
    lemma_mpow_next(7, 155569377, 29406941297922296780157330317195850394751445281426298127534220195092521130042nat, 1, 48405706281646760439914779246511760402454964187001602129938935543587787268844nat, modulus());
    lemma_mpow_next(7, 311138755, 48405706281646760439914779246511760402454964187001602129938935543587787268844nat, 0, 26221211998269266327565630252339775427386211111480844887568496369222897151995nat, modulus());
    lemma_mpow_next(7, 622277510, 26221211998269266327565630252339775427386211111480844887568496369222897151995nat, 0, 43438379386481879289510934353730767823528992204989968241565890593807802839623nat, modulus());
    lemma_mpow_next(7, 1244555020, 43438379386481879289510934353730767823528992204989968241565890593807802839623nat, 0, 11622769374769016843726692469775553239834465601810715733785951996311330985782nat, modulus());
    lemma_mpow_next(7, 2489110040, 11622769374769016843726692469775553239834465601810715733785951996311330985782nat, 1, 15304806915016079469975076294828884090223874397743765148210210844012631671088nat, modulus());
}

/// Squarings 33 to 48 of the power below.
#[verifier::spinoff_prover]
#[verifier::rlimit(50)]
proof fn lemma_pow_order_by_52437899_part2()
    requires
        mpow(7, 4978220081, modulus()) == 15304806915016079469975076294828884090223874397743765148210210844012631671088nat,
    ensures
        mpow(7, 326252631292172, modulus()) == 42449048995255786090796470562220790376268128930284777465531898018966001527317nat,
{
    lemma_mpow_next(7, 4978220081, 15304806915016079469975076294828884090223874397743765148210210844012631671088nat, 1, 38025980646350054749641230762180054152330072574759292251463621277896146031184nat, modulus());
    lemma_mpow_next(7, 9956440163, 38025980646350054749641230762180054152330072574759292251463621277896146031184nat, 1, 664062996952704717380260110962141715623947638727318713639504501267695324413nat, modulus());
    lemma_mpow_next(7, 19912880327, 664062996952704717380260110962141715623947638727318713639504501267695324413nat, 1, 28680256444756107344503078664278400537935127622920062554158108723766249838326nat, modulus());
    lemma_mpow_next(7, 39825760655, 28680256444756107344503078664278400537935127622920062554158108723766249838326nat, 1, 2592224324195122532972283550676412586155651506365710608578796018563288831283nat, modulus());
    lemma_mpow_next(7, 79651521311, 2592224324195122532972283550676412586155651506365710608578796018563288831283nat, 1, 37307192989399682400825225988902482357858023025563625760843922736317216384573nat, modulus());
    lemma_mpow_next(7, 159303042623, 37307192989399682400825225988902482357858023025563625760843922736317216384573nat, 0, 14249724901487651312305468619076778140320392703120918878752212318866386367198nat, modulus());
    lemma_mpow_next(7, 318606085246, 14249724901487651312305468619076778140320392703120918878752212318866386367198nat, 0, 11017283198301177341853833031395207553024957057766223780225617754900186358682nat, modulus());
    lemma_mpow_next(7, 637212170492, 11017283198301177341853833031395207553024957057766223780225617754900186358682nat, 1, 5426479930402368125687002274904577146992830523292983866387789351505463049613nat, modulus());
    lemma_mpow_next(7, 1274424340985, 5426479930402368125687002274904577146992830523292983866387789351505463049613nat, 0, 39349278008500091343286697812298885504821746709520185989138111287462693577336nat, modulus());
    lemma_mpow_next(7, 2548848681970, 39349278008500091343286697812298885504821746709520185989138111287462693577336nat, 0, 18951935738180767430061425241192713329924210214656481012123281868093490875376nat, modulus());
    lemma_mpow_next(7, 5097697363940, 18951935738180767430061425241192713329924210214656481012123281868093490875376nat, 0, 32182929974922449855840802198237709523234330870915004594384368316492824719228nat, modulus());
    lemma_mpow_next(7, 10195394727880, 32182929974922449855840802198237709523234330870915004594384368316492824719228nat, 0, 48497485497772296116221443679092683924802323174698956136876334098848120444183nat, modulus());
    lemma_mpow_next(7, 20390789455760, 48497485497772296116221443679092683924802323174698956136876334098848120444183nat, 1, 7842571266514767012750005584786393651489911843808957900471453686251146316930nat, modulus());
    lemma_mpow_next(7, 40781578911521, 7842571266514767012750005584786393651489911843808957900471453686251146316930nat, 1, 52192607295543645591730921079400854721790732435109077683005235881842372170766nat, modulus());
    lemma_mpow_next(7, 81563157823043, 52192607295543645591730921079400854721790732435109077683005235881842372170766nat, 0, 15653646419836695682329242971541022360917919898120615818938565132337735656248nat, modulus());
    lemma_mpow_next(7, 163126315646086, 15653646419836695682329242971541022360917919898120615818938565132337735656248nat, 0, 42449048995255786090796470562220790376268128930284777465531898018966001527317nat, modulus());
}

/// Squarings 49 to 64 of the power below.
#[verifier::spinoff_prover]
#[verifier::rlimit(50)]
proof fn lemma_pow_order_by_52437899_part3()
    requires
        mpow(7, 326252631292172, modulus()) == 42449048995255786090796470562220790376268128930284777465531898018966001527317nat,
    ensures
        mpow(7, 21381292444363830992nat, modulus()) == 12743490391911496744203304524859367273265445641820889728653849988447965223200nat,
{
    lemma_mpow_next(7, 326252631292172, 42449048995255786090796470562220790376268128930284777465531898018966001527317nat, 1, 45334312440517977818620303573950993957041988835105972407219886412378158895642nat, modulus());
    lemma_mpow_next(7, 652505262584345, 45334312440517977818620303573950993957041988835105972407219886412378158895642nat, 0, 27876128964103123042148199349567241191752419620621594398653822733995326074842nat, modulus());
    lemma_mpow_next(7, 1305010525168690, 27876128964103123042148199349567241191752419620621594398653822733995326074842nat, 1, 5441893689628417668451490964721131400362532917841142181127377132262383538424nat, modulus());
    lemma_mpow_next(7, 2610021050337381, 5441893689628417668451490964721131400362532917841142181127377132262383538424nat, 1, 30171664634907716647001896526117558559561009931085376200135458163366899578202nat, modulus());
    lemma_mpow_next(7, 5220042100674763, 30171664634907716647001896526117558559561009931085376200135458163366899578202nat, 0, 26754573920644064831487911663315813355740776502489722642333665008146143144884nat, modulus());
    lemma_mpow_next(7, 10440084201349526, 26754573920644064831487911663315813355740776502489722642333665008146143144884nat, 1, 49220080631734822982943423036881732201635745283180835909059766284138263845886nat, modulus());
    lemma_mpow_next(7, 20880168402699053, 49220080631734822982943423036881732201635745283180835909059766284138263845886nat, 1, 48130382458761261161101215257044224531918271083025269793556209165057795072828nat, modulus());
    lemma_mpow_next(7, 41760336805398107, 48130382458761261161101215257044224531918271083025269793556209165057795072828nat, 0, 46051969440034981311936573186605007409816356731466523353001152203056037781255nat, modulus());
    lemma_mpow_next(7, 83520673610796214, 46051969440034981311936573186605007409816356731466523353001152203056037781255nat, 1, 48114412492753540408817207549225227629153322068115930297193972401501514926778nat, modulus());
    lemma_mpow_next(7, 167041347221592429, 48114412492753540408817207549225227629153322068115930297193972401501514926778nat, 1, 19248636581458871209913179113719030424338965432059972791791557089009133189612nat, modulus());
    lemma_mpow_next(7, 334082694443184859, 19248636581458871209913179113719030424338965432059972791791557089009133189612nat, 0, 46737400479404459721369771350769238026287110282907156043752062576815784305286nat, modulus());
    lemma_mpow_next(7, 668165388886369718, 46737400479404459721369771350769238026287110282907156043752062576815784305286nat, 1, 9599684214084938037678034240593895523487564235976569390223313476816377695922nat, modulus());
    lemma_mpow_next(7, 1336330777772739437nat, 9599684214084938037678034240593895523487564235976569390223313476816377695922nat, 0, 25909937709174175204352873416412214789732335637139810574374675413953859415563nat, modulus());
    lemma_mpow_next(7, 2672661555545478874nat, 25909937709174175204352873416412214789732335637139810574374675413953859415563nat, 0, 30822417626168550460345146375103567815871532166909112436127933458525632040311nat, modulus());
    lemma_mpow_next(7, 5345323111090957748nat, 30822417626168550460345146375103567815871532166909112436127933458525632040311nat, 0, 18174158107524839214149928392695224920164701419046947077273606404982166953377nat, modulus());
    lemma_mpow_next(7, 10690646222181915496nat, 18174158107524839214149928392695224920164701419046947077273606404982166953377nat, 0, 12743490391911496744203304524859367273265445641820889728653849988447965223200nat, modulus());
}

/// Squarings 65 to 80 of the power below.
#[verifier::spinoff_prover]
#[verifier::rlimit(50)]
proof fn lemma_pow_order_by_52437899_part4()
    requires
        mpow(7, 21381292444363830992nat, modulus()) == 12743490391911496744203304524859367273265445641820889728653849988447965223200nat,
    ensures
        mpow(7, 1401244381633828027906463nat, modulus()) == 33611021440539553387239136756584741250262310372188258450849307211360412909667nat,
{
    lemma_mpow_next(7, 21381292444363830992nat, 12743490391911496744203304524859367273265445641820889728653849988447965223200nat, 0, 11747295004764036809553869735591841330425691057621279889548126681212760794443nat, modulus());
    lemma_mpow_next(7, 42762584888727661984nat, 11747295004764036809553869735591841330425691057621279889548126681212760794443nat, 0, 13368713853407745894532661324419817330443772518511243034653848028268195138568nat, modulus());
    lemma_mpow_next(7, 85525169777455323968nat, 13368713853407745894532661324419817330443772518511243034653848028268195138568nat, 1, 19244843357651969525857003048907880465472350592861785307826363319257027896131nat, modulus());
    lemma_mpow_next(7, 171050339554910647937nat, 19244843357651969525857003048907880465472350592861785307826363319257027896131nat, 1, 12578441899129326362193157965259401283152938607880055226620257089078660631926nat, modulus());
    lemma_mpow_next(7, 342100679109821295875nat, 12578441899129326362193157965259401283152938607880055226620257089078660631926nat, 1, 11019574492516947193449308765423773267102240391252694230425533764470253452566nat, modulus());
    lemma_mpow_next(7, 684201358219642591751nat, 11019574492516947193449308765423773267102240391252694230425533764470253452566nat, 0, 39532712216904482966052600528026621876418825431071812385947809062545360508587nat, modulus());
    lemma_mpow_next(7, 1368402716439285183502nat, 39532712216904482966052600528026621876418825431071812385947809062545360508587nat, 0, 12328848764932835128942159519019690068807613149283375184231917054281668509561nat, modulus());
    lemma_mpow_next(7, 2736805432878570367004nat, 12328848764932835128942159519019690068807613149283375184231917054281668509561nat, 1, 24627555328803245463399085250942842329724727617228182611545045662511596011548nat, modulus());
    lemma_mpow_next(7, 5473610865757140734009nat, 24627555328803245463399085250942842329724727617228182611545045662511596011548nat, 1, 15725359144777827822185833244926377142382240397735656248501444279978917401455nat, modulus());
    lemma_mpow_next(7, 10947221731514281468019nat, 15725359144777827822185833244926377142382240397735656248501444279978917401455nat, 0, 19439446581329887002000066936674593220245902552141714616963936636855598918918nat, modulus());
    lemma_mpow_next(7, 21894443463028562936038nat, 19439446581329887002000066936674593220245902552141714616963936636855598918918nat, 0, 2853645195182919712070459343986356994147908208060406866008266921549837262020nat, modulus());
    lemma_mpow_next(7, 43788886926057125872076nat, 2853645195182919712070459343986356994147908208060406866008266921549837262020nat, 1, 1301737285733740654802834742352694858344329883286843069461121004231946513786nat, modulus());
    lemma_mpow_next(7, 87577773852114251744153nat, 1301737285733740654802834742352694858344329883286843069461121004231946513786nat, 1, 15062742745868871663485375625397498450902436247556907176057603663607575786053nat, modulus());
    lemma_mpow_next(7, 175155547704228503488307nat, 15062742745868871663485375625397498450902436247556907176057603663607575786053nat, 1, 37706490343705650489619034750988852104471918551720261053591125848946368018646nat, modulus());
    lemma_mpow_next(7, 350311095408457006976615nat, 37706490343705650489619034750988852104471918551720261053591125848946368018646nat, 1, 40919094473783972543574474698435098361477454691629125114905891298367114223960nat, modulus());
    lemma_mpow_next(7, 700622190816914013953231nat, 40919094473783972543574474698435098361477454691629125114905891298367114223960nat, 1, 33611021440539553387239136756584741250262310372188258450849307211360412909667nat, modulus());
}

/// Squarings 81 to 96 of the power below.
#[verifier::spinoff_prover]
#[verifier::rlimit(50)]
proof fn lemma_pow_order_by_52437899_part5()
    requires
        mpow(7, 1401244381633828027906463nat, modulus()) == 33611021440539553387239136756584741250262310372188258450849307211360412909667nat,
    ensures
        mpow(7, 91831951794754553636878020779nat, modulus()) == 46226554179228648228927538317473765785595776815702476895399838369087325302312nat,
{
    lemma_mpow_next(7, 1401244381633828027906463nat, 33611021440539553387239136756584741250262310372188258450849307211360412909667nat, 1, 5328177621736321103953122657357690596038348408378012705950881479569827562656nat, modulus());
    lemma_mpow_next(7, 2802488763267656055812927nat, 5328177621736321103953122657357690596038348408378012705950881479569827562656nat, 1, 1070569911854954309823457844458805352816413940609549247532068980691481827982nat, modulus());
    lemma_mpow_next(7, 5604977526535312111625855nat, 1070569911854954309823457844458805352816413940609549247532068980691481827982nat, 1, 49299247849795977599092792643736774548162361366063299244064619713228037938311nat, modulus());
    lemma_mpow_next(7, 11209955053070624223251711nat, 49299247849795977599092792643736774548162361366063299244064619713228037938311nat, 1, 18516312661988380482169508858207322080610025230479075817694863467312879842956nat, modulus());
    lemma_mpow_next(7, 22419910106141248446503423nat, 18516312661988380482169508858207322080610025230479075817694863467312879842956nat, 0, 6193130621061567983776390418721202276906613295602795477256562683826922907502nat, modulus());
    lemma_mpow_next(7, 44839820212282496893006846nat, 6193130621061567983776390418721202276906613295602795477256562683826922907502nat, 0, 51304802462339382541398371540096374303936315410526184789323451090346907364070nat, modulus());
    lemma_mpow_next(7, 89679640424564993786013692nat, 51304802462339382541398371540096374303936315410526184789323451090346907364070nat, 0, 39617159553884269560944656580960782752379012128539125226412747330371632058125nat, modulus());
    lemma_mpow_next(7, 179359280849129987572027384nat, 39617159553884269560944656580960782752379012128539125226412747330371632058125nat, 0, 24689853056183947439411548145742040680761788901271990159889844002676073272877nat, modulus());
    lemma_mpow_next(7, 358718561698259975144054768nat, 24689853056183947439411548145742040680761788901271990159889844002676073272877nat, 1, 10243085194536640198228159472068131201375115192619463166583777159559293773336nat, modulus());
    lemma_mpow_next(7, 717437123396519950288109537nat, 10243085194536640198228159472068131201375115192619463166583777159559293773336nat, 0, 4251864476238711908758317242833115591989550670130649926449303571101677065485nat, modulus());
    lemma_mpow_next(7, 1434874246793039900576219074nat, 4251864476238711908758317242833115591989550670130649926449303571101677065485nat, 1, 14598628909047620505669424319331348754730047389212502171063857465500687853339nat, modulus());
    lemma_mpow_next(7, 2869748493586079801152438149nat, 14598628909047620505669424319331348754730047389212502171063857465500687853339nat, 0, 32432994748767568707323652460868479053449103100314569814863645271495100568002nat, modulus());
    lemma_mpow_next(7, 5739496987172159602304876298nat, 32432994748767568707323652460868479053449103100314569814863645271495100568002nat, 1, 17818356692392423846809257317466284362850015848338168541694086997580704258418nat, modulus());
    lemma_mpow_next(7, 11478993974344319204609752597nat, 17818356692392423846809257317466284362850015848338168541694086997580704258418nat, 0, 33590356719353052124660097019900964880967421651755933639453276971110904075010nat, modulus());
    lemma_mpow_next(7, 22957987948688638409219505194nat, 33590356719353052124660097019900964880967421651755933639453276971110904075010nat, 1, 10472851804505458572597400740558478746312140405716313354116720782253987959774nat, modulus());
    lemma_mpow_next(7, 45915975897377276818439010389nat, 10472851804505458572597400740558478746312140405716313354116720782253987959774nat, 1, 46226554179228648228927538317473765785595776815702476895399838369087325302312nat, modulus());
}

/// Squarings 97 to 112 of the power below.
#[verifier::spinoff_prover]
#[verifier::rlimit(50)]
proof fn lemma_pow_order_by_52437899_part6()
    requires
        mpow(7, 91831951794754553636878020779nat, modulus()) == 46226554179228648228927538317473765785595776815702476895399838369087325302312nat,
    ensures
        mpow(7, 6018298792821034427146437969818247nat, modulus()) == 747966698244236163511747141048482083417171261523089281006963894267465615011nat,
{
    lemma_mpow_next(7, 91831951794754553636878020779nat, 46226554179228648228927538317473765785595776815702476895399838369087325302312nat, 1, 8364305681339451705397353888357278681751530422846683593435077337588443566942nat, modulus());
    lemma_mpow_next(7, 183663903589509107273756041559nat, 8364305681339451705397353888357278681751530422846683593435077337588443566942nat, 0, 52024342615259578813684735069700744293646396261367560906556483570940965097157nat, modulus());
    lemma_mpow_next(7, 367327807179018214547512083118nat, 52024342615259578813684735069700744293646396261367560906556483570940965097157nat, 1, 49707691160437969706408675417037363563039621029650878875229041905407007852023nat, modulus());
    lemma_mpow_next(7, 734655614358036429095024166237nat, 49707691160437969706408675417037363563039621029650878875229041905407007852023nat, 1, 30434200942370910099953276410612125197010268377081531429942079097395511847747nat, modulus());
    lemma_mpow_next(7, 1469311228716072858190048332475nat, 30434200942370910099953276410612125197010268377081531429942079097395511847747nat, 0, 43362365404431640825631345199484875372032644347380403471420603259176275025720nat, modulus());
    lemma_mpow_next(7, 2938622457432145716380096664950nat, 43362365404431640825631345199484875372032644347380403471420603259176275025720nat, 0, 3524595831928937896679226259315919286331267680701548925804233710499270107152nat, modulus());
    lemma_mpow_next(7, 5877244914864291432760193329900nat, 3524595831928937896679226259315919286331267680701548925804233710499270107152nat, 1, 8439739626217749562930206544131412348406149147328014252086964405330112554291nat, modulus());
    lemma_mpow_next(7, 11754489829728582865520386659801nat, 8439739626217749562930206544131412348406149147328014252086964405330112554291nat, 0, 45260534722182478287068222209918560009927756119950051807433096236333286698114nat, modulus());
    lemma_mpow_next(7, 23508979659457165731040773319602nat, 45260534722182478287068222209918560009927756119950051807433096236333286698114nat, 1, 37162154366694962247049858118847384408778528767272775233184688465687040600080nat, modulus());
    lemma_mpow_next(7, 47017959318914331462081546639205nat, 37162154366694962247049858118847384408778528767272775233184688465687040600080nat, 0, 48448205507789644686320876984953988736120392677983390543445405783643173033995nat, modulus());
    lemma_mpow_next(7, 94035918637828662924163093278410nat, 48448205507789644686320876984953988736120392677983390543445405783643173033995nat, 0, 20618932846616361819753677875494796352793165095367571834999574343264015072190nat, modulus());
    lemma_mpow_next(7, 188071837275657325848326186556820nat, 20618932846616361819753677875494796352793165095367571834999574343264015072190nat, 0, 32923083970544976920545202209488610612805397166458154458587367079140777407526nat, modulus());
    lemma_mpow_next(7, 376143674551314651696652373113640nat, 32923083970544976920545202209488610612805397166458154458587367079140777407526nat, 0, 16678573346707465079284024667770355261418323363094905778884852807862512412933nat, modulus());
    lemma_mpow_next(7, 752287349102629303393304746227280nat, 16678573346707465079284024667770355261418323363094905778884852807862512412933nat, 1, 43734858154716037271553906655828576295430918509657165180589007099704434071086nat, modulus());
    lemma_mpow_next(7, 1504574698205258606786609492454561nat, 43734858154716037271553906655828576295430918509657165180589007099704434071086nat, 1, 21978685393352390234965711266304105778714897151834237221328169506276288304771nat, modulus());
    lemma_mpow_next(7, 3009149396410517213573218984909123nat, 21978685393352390234965711266304105778714897151834237221328169506276288304771nat, 1, 747966698244236163511747141048482083417171261523089281006963894267465615011nat, modulus());
}

/// Squarings 113 to 128 of the power below.
#[verifier::spinoff_prover]
#[verifier::rlimit(50)]
proof fn lemma_pow_order_by_52437899_part7()
    requires
        mpow(7, 6018298792821034427146437969818247nat, modulus()) == 747966698244236163511747141048482083417171261523089281006963894267465615011nat,
    ensures
        mpow(7, 394415229686319312217468958790008682387nat, modulus()) == 3140157120405741735936082389847680991963215300954349925826457989277001450967nat,
{
    lemma_mpow_next(7, 6018298792821034427146437969818247nat, 747966698244236163511747141048482083417171261523089281006963894267465615011nat, 1, 487337062347573650213080599189124163120242522538986058525221268321556142662nat, modulus());
    lemma_mpow_next(7, 12036597585642068854292875939636495nat, 487337062347573650213080599189124163120242522538986058525221268321556142662nat, 0, 16674278616251567775026837092879549480444547509235853721315593133334191071539nat, modulus());
    lemma_mpow_next(7, 24073195171284137708585751879272990nat, 16674278616251567775026837092879549480444547509235853721315593133334191071539nat, 1, 42784097738984840211694441787345467650089909160319542368466864369080455803512nat, modulus());
    lemma_mpow_next(7, 48146390342568275417171503758545981nat, 42784097738984840211694441787345467650089909160319542368466864369080455803512nat, 1, 15796950965898333297980215421825856546740839263701643969230928423573916799277nat, modulus());
    lemma_mpow_next(7, 96292780685136550834343007517091963nat, 15796950965898333297980215421825856546740839263701643969230928423573916799277nat, 0, 34370259163493558641500433715776166098992040835169271870890425007596508141715nat, modulus());
    lemma_mpow_next(7, 192585561370273101668686015034183926nat, 34370259163493558641500433715776166098992040835169271870890425007596508141715nat, 1, 2775789598889746794512575513332580315303479430388384160059906748779176920370nat, modulus());
    lemma_mpow_next(7, 385171122740546203337372030068367853nat, 2775789598889746794512575513332580315303479430388384160059906748779176920370nat, 1, 45904328353639310376867527418990119544597732765469498829876645110900662045821nat, modulus());
    lemma_mpow_next(7, 770342245481092406674744060136735707nat, 45904328353639310376867527418990119544597732765469498829876645110900662045821nat, 1, 19217246682959898635630280780378743811498978613323407304479328193458674768032nat, modulus());
    lemma_mpow_next(7, 1540684490962184813349488120273471415nat, 19217246682959898635630280780378743811498978613323407304479328193458674768032nat, 1, 50355225089831453891035062405669933824251711771732340745093179583976251710038nat, modulus());
    lemma_mpow_next(7, 3081368981924369626698976240546942831nat, 50355225089831453891035062405669933824251711771732340745093179583976251710038nat, 0, 4302425497509412997755167759505297369456563096188387572749207854159455773980nat, modulus());
    lemma_mpow_next(7, 6162737963848739253397952481093885662nat, 4302425497509412997755167759505297369456563096188387572749207854159455773980nat, 0, 52247572191938751666039348181909153276297054625812051047941552796701604168573nat, modulus());
    lemma_mpow_next(7, 12325475927697478506795904962187771324nat, 52247572191938751666039348181909153276297054625812051047941552796701604168573nat, 1, 11254530945540246766431672118977574252973203447918161500314945082344625709891nat, modulus());
    lemma_mpow_next(7, 24650951855394957013591809924375542649nat, 11254530945540246766431672118977574252973203447918161500314945082344625709891nat, 0, 36458965193094998952612461660907594666750989838355770491917203263662323180731nat, modulus());
    lemma_mpow_next(7, 49301903710789914027183619848751085298nat, 36458965193094998952612461660907594666750989838355770491917203263662323180731nat, 0, 16552536132823459351704550530372066824791897279260547319077184680545404631087nat, modulus());
    lemma_mpow_next(7, 98603807421579828054367239697502170596nat, 16552536132823459351704550530372066824791897279260547319077184680545404631087nat, 1, 20583358567264782077715983769565922673672774980532013747492157321450604512291nat, modulus());
    lemma_mpow_next(7, 197207614843159656108734479395004341193nat, 20583358567264782077715983769565922673672774980532013747492157321450604512291nat, 1, 3140157120405741735936082389847680991963215300954349925826457989277001450967nat, modulus());
}

/// Squarings 129 to 144 of the power below.
#[verifier::spinoff_prover]
#[verifier::rlimit(50)]
proof fn lemma_pow_order_by_52437899_part8()
    requires
        mpow(7, 394415229686319312217468958790008682387nat, modulus()) == 3140157120405741735936082389847680991963215300954349925826457989277001450967nat,
    ensures
        mpow(7, 25848396492722622445484045683262009008944913nat, modulus()) == 14770639471526384045157168445507895570805017046761807699163231907315698815385nat,
{
    lemma_mpow_next(7, 394415229686319312217468958790008682387nat, 3140157120405741735936082389847680991963215300954349925826457989277001450967nat, 0, 2503184438483100874099341403772748701524986464493013379241940769688437782238nat, modulus());
    lemma_mpow_next(7, 788830459372638624434937917580017364774nat, 2503184438483100874099341403772748701524986464493013379241940769688437782238nat, 1, 26506599544047628196300021978128908790607204834764971777811229244500214485742nat, modulus());
    lemma_mpow_next(7, 1577660918745277248869875835160034729549nat, 26506599544047628196300021978128908790607204834764971777811229244500214485742nat, 1, 326564472433706950548702204134395452813174992266282579783622045675611993492nat, modulus());
    lemma_mpow_next(7, 3155321837490554497739751670320069459099nat, 326564472433706950548702204134395452813174992266282579783622045675611993492nat, 1, 6344361170228824143508178886741056384466070099386571011559121154874728896454nat, modulus());
    lemma_mpow_next(7, 6310643674981108995479503340640138918199nat, 6344361170228824143508178886741056384466070099386571011559121154874728896454nat, 0, 14187037005900182932678859130446539652454789801767411627577563883958983592560nat, modulus());
    lemma_mpow_next(7, 12621287349962217990959006681280277836398nat, 14187037005900182932678859130446539652454789801767411627577563883958983592560nat, 1, 31825287543037468011464215561594259689892317666095264961539778101515707029750nat, modulus());
    lemma_mpow_next(7, 25242574699924435981918013362560555672797nat, 31825287543037468011464215561594259689892317666095264961539778101515707029750nat, 1, 5600368531937317748828153760669212917124024073054652082395539751654647313262nat, modulus());
    lemma_mpow_next(7, 50485149399848871963836026725121111345595nat, 5600368531937317748828153760669212917124024073054652082395539751654647313262nat, 1, 15120445967469905385506565400056021492066645591761293920339737675640134288844nat, modulus());
    lemma_mpow_next(7, 100970298799697743927672053450242222691191nat, 15120445967469905385506565400056021492066645591761293920339737675640134288844nat, 0, 50007473295441571854003985044263499104854874670474302115201331517550443529676nat, modulus());
    lemma_mpow_next(7, 201940597599395487855344106900484445382382nat, 50007473295441571854003985044263499104854874670474302115201331517550443529676nat, 0, 16987443947440896823268067206266737683046412419953740815938760885885201671711nat, modulus());
    lemma_mpow_next(7, 403881195198790975710688213800968890764764nat, 16987443947440896823268067206266737683046412419953740815938760885885201671711nat, 0, 5265686735549993108396571016703279319922518834640723981538196417889646251959nat, modulus());
    lemma_mpow_next(7, 807762390397581951421376427601937781529528nat, 5265686735549993108396571016703279319922518834640723981538196417889646251959nat, 1, 15254838529887689949413769213147538928008037017786288482301147426919086349825nat, modulus());
    lemma_mpow_next(7, 1615524780795163902842752855203875563059057nat, 15254838529887689949413769213147538928008037017786288482301147426919086349825nat, 0, 35149772562799923087444333490787326923476502757216513942570026564546864354514nat, modulus());
    lemma_mpow_next(7, 3231049561590327805685505710407751126118114nat, 35149772562799923087444333490787326923476502757216513942570026564546864354514nat, 0, 10437953688512557748126131869559687951460257307245568834036490861978551609144nat, modulus());
    lemma_mpow_next(7, 6462099123180655611371011420815502252236228nat, 10437953688512557748126131869559687951460257307245568834036490861978551609144nat, 0, 33995780838491439943130595335722553123167904870523663761143358298730797509340nat, modulus());
    lemma_mpow_next(7, 12924198246361311222742022841631004504472456nat, 33995780838491439943130595335722553123167904870523663761143358298730797509340nat, 1, 14770639471526384045157168445507895570805017046761807699163231907315698815385nat, modulus());
}

/// Squarings 145 to 160 of the power below.
#[verifier::spinoff_prover]
#[verifier::rlimit(50)]
proof fn lemma_pow_order_by_52437899_part9()
    requires
        mpow(7, 25848396492722622445484045683262009008944913nat, modulus()) == 14770639471526384045157168445507895570805017046761807699163231907315698815385nat,
    ensures
        mpow(7, 1694000512547069784587242417898259022410213853023nat, modulus()) == 46581207009145404028577564083589255688991596195937047650102383775480319768484nat,
{
    lemma_mpow_next(7, 25848396492722622445484045683262009008944913nat, 14770639471526384045157168445507895570805017046761807699163231907315698815385nat, 1, 15146456405728460379430956246138433359673839027980204343468336307500758885111nat, modulus());
    lemma_mpow_next(7, 51696792985445244890968091366524018017889827nat, 15146456405728460379430956246138433359673839027980204343468336307500758885111nat, 0, 22382724196483840267600601101299252284209202757391319348295773127404993642515nat, modulus());
    lemma_mpow_next(7, 103393585970890489781936182733048036035779654nat, 22382724196483840267600601101299252284209202757391319348295773127404993642515nat, 0, 5908355417590742793116398226695910602754797646040354039756970300546182217576nat, modulus());
    lemma_mpow_next(7, 206787171941780979563872365466096072071559308nat, 5908355417590742793116398226695910602754797646040354039756970300546182217576nat, 0, 49269096846253924147538427840169659965328445905600491217452695633645791265963nat, modulus());
    lemma_mpow_next(7, 413574343883561959127744730932192144143118616nat, 49269096846253924147538427840169659965328445905600491217452695633645791265963nat, 0, 43834768652132049224759306553056353344693693842662275190408035501659437885332nat, modulus());
    lemma_mpow_next(7, 827148687767123918255489461864384288286237232nat, 43834768652132049224759306553056353344693693842662275190408035501659437885332nat, 1, 37811129093299423930351198808500712143438199203699770126868202041487803501147nat, modulus());
    lemma_mpow_next(7, 1654297375534247836510978923728768576572474465nat, 37811129093299423930351198808500712143438199203699770126868202041487803501147nat, 1, 7287578642089940482045557915414603704532747728583138273021107848256912881662nat, modulus());
    lemma_mpow_next(7, 3308594751068495673021957847457537153144948931nat, 7287578642089940482045557915414603704532747728583138273021107848256912881662nat, 1, 28229322644436259192498908200379222154745769591465217480713299156295157728816nat, modulus());
    lemma_mpow_next(7, 6617189502136991346043915694915074306289897863nat, 28229322644436259192498908200379222154745769591465217480713299156295157728816nat, 0, 50421638485769167916777799326651337808980357764952244490848044218850499800748nat, modulus());
    lemma_mpow_next(7, 13234379004273982692087831389830148612579795726nat, 50421638485769167916777799326651337808980357764952244490848044218850499800748nat, 1, 33033659032296371909645241137433044016237754713585474253658247927012584455348nat, modulus());
    lemma_mpow_next(7, 26468758008547965384175662779660297225159591453nat, 33033659032296371909645241137433044016237754713585474253658247927012584455348nat, 0, 18277301413502965500815877621672181799904417050206374329738147684115162763949nat, modulus());
    lemma_mpow_next(7, 52937516017095930768351325559320594450319182906nat, 18277301413502965500815877621672181799904417050206374329738147684115162763949nat, 1, 39489453993050279057301203692290905512946540014704294664692243608353324264468nat, modulus());
    lemma_mpow_next(7, 105875032034191861536702651118641188900638365813nat, 39489453993050279057301203692290905512946540014704294664692243608353324264468nat, 1, 34890379161367208594973645416134643847275406099263567764106385207087184470816nat, modulus());
    lemma_mpow_next(7, 211750064068383723073405302237282377801276731627nat, 34890379161367208594973645416134643847275406099263567764106385207087184470816nat, 1, 36094830086533484986555813074192939096983784318961443657015110485255417801752nat, modulus());
    lemma_mpow_next(7, 423500128136767446146810604474564755602553463255nat, 36094830086533484986555813074192939096983784318961443657015110485255417801752nat, 1, 39052843464468971713188357264116680039382402592617908204654749643629002715460nat, modulus());
    lemma_mpow_next(7, 847000256273534892293621208949129511205106926511nat, 39052843464468971713188357264116680039382402592617908204654749643629002715460nat, 1, 46581207009145404028577564083589255688991596195937047650102383775480319768484nat, modulus());
}

/// Squarings 161 to 176 of the power below.
#[verifier::spinoff_prover]
#[verifier::rlimit(50)]
proof fn lemma_pow_order_by_52437899_part10()
    requires
        mpow(7, 1694000512547069784587242417898259022410213853023nat, modulus()) == 46581207009145404028577564083589255688991596195937047650102383775480319768484nat,
    ensures
        mpow(7, 111018017590284765402709519099380303292675775071780316nat, modulus()) == 37211487363007653288813557024740952518952621546960627865831446625359901408131nat,
{
    lemma_mpow_next(7, 1694000512547069784587242417898259022410213853023nat, 46581207009145404028577564083589255688991596195937047650102383775480319768484nat, 1, 39345795573293642687827107810836752756650451589616221021707792778525562264618nat, modulus());
    lemma_mpow_next(7, 3388001025094139569174484835796518044820427706047nat, 39345795573293642687827107810836752756650451589616221021707792778525562264618nat, 1, 35149607552185765529723940499400438649437476480710154669924140871038829674657nat, modulus());
    lemma_mpow_next(7, 6776002050188279138348969671593036089640855412095nat, 35149607552185765529723940499400438649437476480710154669924140871038829674657nat, 1, 49753327133845476801239446522229704661584594450548679068354482776321456577554nat, modulus());
    lemma_mpow_next(7, 13552004100376558276697939343186072179281710824191nat, 49753327133845476801239446522229704661584594450548679068354482776321456577554nat, 1, 17269171622035386012881499082262946219443035937153409348068538680967426947887nat, modulus());
    lemma_mpow_next(7, 27104008200753116553395878686372144358563421648383nat, 17269171622035386012881499082262946219443035937153409348068538680967426947887nat, 1, 41662134352788098167991669928315520714507222425660967438838052624451443314240nat, modulus());
    lemma_mpow_next(7, 54208016401506233106791757372744288717126843296767nat, 41662134352788098167991669928315520714507222425660967438838052624451443314240nat, 1, 14424697536315611702879046394169265318493416368587240912955359603092062416224nat, modulus());
    lemma_mpow_next(7, 108416032803012466213583514745488577434253686593535nat, 14424697536315611702879046394169265318493416368587240912955359603092062416224nat, 0, 4185563973529381375268239793772921823989920265705437959712054298469377447816nat, modulus());
    lemma_mpow_next(7, 216832065606024932427167029490977154868507373187070nat, 4185563973529381375268239793772921823989920265705437959712054298469377447816nat, 1, 31892490038667311094899402618559559911148902066282678789579575909082979299134nat, modulus());
    lemma_mpow_next(7, 433664131212049864854334058981954309737014746374141nat, 31892490038667311094899402618559559911148902066282678789579575909082979299134nat, 1, 26829583851990235611470774977922989903332072073767523253248976957697966881547nat, modulus());
    lemma_mpow_next(7, 867328262424099729708668117963908619474029492748283nat, 26829583851990235611470774977922989903332072073767523253248976957697966881547nat, 1, 30522463325835783869006314020411608885144288658312824703591949953245384062879nat, modulus());
    lemma_mpow_next(7, 1734656524848199459417336235927817238948058985496567nat, 30522463325835783869006314020411608885144288658312824703591949953245384062879nat, 0, 13191805010119872474810385043810603810893204159763691944663548385973356292125nat, modulus());
    lemma_mpow_next(7, 3469313049696398918834672471855634477896117970993134nat, 13191805010119872474810385043810603810893204159763691944663548385973356292125nat, 1, 14912670281208696273530988716046104814882971304899141814371838543205802853838nat, modulus());
    lemma_mpow_next(7, 6938626099392797837669344943711268955792235941986269nat, 14912670281208696273530988716046104814882971304899141814371838543205802853838nat, 1, 2450660383664424706075809252894481665997908055557131807459893108626979527768nat, modulus());
    lemma_mpow_next(7, 13877252198785595675338689887422537911584471883972539nat, 2450660383664424706075809252894481665997908055557131807459893108626979527768nat, 1, 42087793577450999844532984489872388840859448913261360936249141655063990418812nat, modulus());
    lemma_mpow_next(7, 27754504397571191350677379774845075823168943767945079nat, 42087793577450999844532984489872388840859448913261360936249141655063990418812nat, 0, 7558421627541441339225529257953058491404102706962820708285697228445955251290nat, modulus());
    lemma_mpow_next(7, 55509008795142382701354759549690151646337887535890158nat, 7558421627541441339225529257953058491404102706962820708285697228445955251290nat, 0, 37211487363007653288813557024740952518952621546960627865831446625359901408131nat, modulus());
}

/// Squarings 177 to 192 of the power below.
#[verifier::spinoff_prover]
#[verifier::rlimit(50)]
proof fn lemma_pow_order_by_52437899_part11()
    requires
        mpow(7, 111018017590284765402709519099380303292675775071780316nat, modulus()) == 37211487363007653288813557024740952518952621546960627865831446625359901408131nat,
    ensures
        mpow(7, 7275676800796902385431971043696987556588799595104194842782nat, modulus()) == 50145552984440285331312834147753502170818954730795697004468507485710040912783nat,
{
    lemma_mpow_next(7, 111018017590284765402709519099380303292675775071780316nat, 37211487363007653288813557024740952518952621546960627865831446625359901408131nat, 1, 18082331447417567289636525827268240787007676652526281858524092230802557696965nat, modulus());
    lemma_mpow_next(7, 222036035180569530805419038198760606585351550143560633nat, 18082331447417567289636525827268240787007676652526281858524092230802557696965nat, 1, 30722573846913943245962406714979356943665252653562102914057172113252084232998nat, modulus());
    lemma_mpow_next(7, 444072070361139061610838076397521213170703100287121267nat, 30722573846913943245962406714979356943665252653562102914057172113252084232998nat, 0, 26202704836242252925211383459976195835318992995692816354174216719048631058183nat, modulus());
    lemma_mpow_next(7, 888144140722278123221676152795042426341406200574242534nat, 26202704836242252925211383459976195835318992995692816354174216719048631058183nat, 1, 42321907215050405326479610511546600466033148130207648223062660468973306411126nat, modulus());
    lemma_mpow_next(7, 1776288281444556246443352305590084852682812401148485069nat, 42321907215050405326479610511546600466033148130207648223062660468973306411126nat, 0, 47929727200265711748626707766764366431692277454215976292385242344015276033376nat, modulus());
    lemma_mpow_next(7, 3552576562889112492886704611180169705365624802296970138nat, 47929727200265711748626707766764366431692277454215976292385242344015276033376nat, 0, 14081998786214127669356958423559119905532545628231375964673957962562896681308nat, modulus());
    lemma_mpow_next(7, 7105153125778224985773409222360339410731249604593940276nat, 14081998786214127669356958423559119905532545628231375964673957962562896681308nat, 0, 49815155034966606719651500723125763577034568479272159771520583010407848548848nat, modulus());
    lemma_mpow_next(7, 14210306251556449971546818444720678821462499209187880552nat, 49815155034966606719651500723125763577034568479272159771520583010407848548848nat, 0, 36341478848019497921897844772068487416603768285401507732052567312248423984077nat, modulus());
    lemma_mpow_next(7, 28420612503112899943093636889441357642924998418375761104nat, 36341478848019497921897844772068487416603768285401507732052567312248423984077nat, 1, 43870072321660032254228034657793808600985439578865518257063364700365358115058nat, modulus());
    lemma_mpow_next(7, 56841225006225799886187273778882715285849996836751522209nat, 43870072321660032254228034657793808600985439578865518257063364700365358115058nat, 0, 5849794121681308212377348024242721051680829837409560963050022155362628983607nat, modulus());
    lemma_mpow_next(7, 113682450012451599772374547557765430571699993673503044418nat, 5849794121681308212377348024242721051680829837409560963050022155362628983607nat, 0, 22916761108706123294682850212429645424091937237261117173448184666825113537218nat, modulus());
    lemma_mpow_next(7, 227364900024903199544749095115530861143399987347006088836nat, 22916761108706123294682850212429645424091937237261117173448184666825113537218nat, 1, 6815819858657960774223735563527392661746770125345475994053525880231635804164nat, modulus());
    lemma_mpow_next(7, 454729800049806399089498190231061722286799974694012177673nat, 6815819858657960774223735563527392661746770125345475994053525880231635804164nat, 1, 10348892641394993036763204736693252539937116808359076506828868552056761699649nat, modulus());
    lemma_mpow_next(7, 909459600099612798178996380462123444573599949388024355347nat, 10348892641394993036763204736693252539937116808359076506828868552056761699649nat, 1, 15750284498159989031998744396873646880838921569135361013123047752060347884398nat, modulus());
    lemma_mpow_next(7, 1818919200199225596357992760924246889147199898776048710695nat, 15750284498159989031998744396873646880838921569135361013123047752060347884398nat, 1, 45884535285508462349538235113409008085821924924746582320942719257101523761182nat, modulus());
    lemma_mpow_next(7, 3637838400398451192715985521848493778294399797552097421391nat, 45884535285508462349538235113409008085821924924746582320942719257101523761182nat, 0, 50145552984440285331312834147753502170818954730795697004468507485710040912783nat, modulus());
}

/// Squarings 193 to 208 of the power below.
#[verifier::spinoff_prover]
#[verifier::rlimit(50)]
proof fn lemma_pow_order_by_52437899_part12()
    requires
        mpow(7, 7275676800796902385431971043696987556588799595104194842782nat, modulus()) == 50145552984440285331312834147753502170818954730795697004468507485710040912783nat,
    ensures
        mpow(7, 476818754817025794731669654319725776508603570264748513216620544nat, modulus()) == 2716211028056319918892534913596565152483903332358017898717668274156390873101nat,
{
    lemma_mpow_next(7, 7275676800796902385431971043696987556588799595104194842782nat, 50145552984440285331312834147753502170818954730795697004468507485710040912783nat, 1, 44735982895072257736099040061826089978470791352056589042083027028325943296117nat, modulus());
    lemma_mpow_next(7, 14551353601593804770863942087393975113177599190208389685565nat, 44735982895072257736099040061826089978470791352056589042083027028325943296117nat, 1, 15830687357455100810806208506597849506195910233160838044825166008873704602678nat, modulus());
    lemma_mpow_next(7, 29102707203187609541727884174787950226355198380416779371131nat, 15830687357455100810806208506597849506195910233160838044825166008873704602678nat, 1, 16213588778098902946398634623638782083162186437330005474566969598528041478524nat, modulus());
    lemma_mpow_next(7, 58205414406375219083455768349575900452710396760833558742263nat, 16213588778098902946398634623638782083162186437330005474566969598528041478524nat, 0, 29326140109544687751286769525574838035538860941227382160578538631052612410655nat, modulus());
    lemma_mpow_next(7, 116410828812750438166911536699151800905420793521667117484526nat, 29326140109544687751286769525574838035538860941227382160578538631052612410655nat, 1, 19592516726703694956409639364037504385675716453971980562874766211139150113774nat, modulus());
    lemma_mpow_next(7, 232821657625500876333823073398303601810841587043334234969053nat, 19592516726703694956409639364037504385675716453971980562874766211139150113774nat, 0, 43148816429651092594824685799508191206994469620761746890471767329899303250724nat, modulus());
    lemma_mpow_next(7, 465643315251001752667646146796607203621683174086668469938106nat, 43148816429651092594824685799508191206994469620761746890471767329899303250724nat, 0, 49364652619717146164024141264946957068977169096643963879895536977424739479828nat, modulus());
    lemma_mpow_next(7, 931286630502003505335292293593214407243366348173336939876212nat, 49364652619717146164024141264946957068977169096643963879895536977424739479828nat, 0, 11046958899941193507625391610553224918770523930615481527501962235533317912654nat, modulus());
    lemma_mpow_next(7, 1862573261004007010670584587186428814486732696346673879752424nat, 11046958899941193507625391610553224918770523930615481527501962235533317912654nat, 0, 31601259288146208766746347812396678613946769761794055195773082188500253860188nat, modulus());
    lemma_mpow_next(7, 3725146522008014021341169174372857628973465392693347759504848nat, 31601259288146208766746347812396678613946769761794055195773082188500253860188nat, 0, 46273313709437014648413289391807937962952799719825158890547690338075089240771nat, modulus());
    lemma_mpow_next(7, 7450293044016028042682338348745715257946930785386695519009696nat, 46273313709437014648413289391807937962952799719825158890547690338075089240771nat, 0, 6880788834541625622407344369519822298532229105510118149562478352710511626813nat, modulus());
    lemma_mpow_next(7, 14900586088032056085364676697491430515893861570773391038019392nat, 6880788834541625622407344369519822298532229105510118149562478352710511626813nat, 0, 31841770058828358160169839865970901648834604373790184375254927781121339663804nat, modulus());
    lemma_mpow_next(7, 29801172176064112170729353394982861031787723141546782076038784nat, 31841770058828358160169839865970901648834604373790184375254927781121339663804nat, 0, 36701027123823182183695092704385742887293974217317746241979014964811679264904nat, modulus());
    lemma_mpow_next(7, 59602344352128224341458706789965722063575446283093564152077568nat, 36701027123823182183695092704385742887293974217317746241979014964811679264904nat, 0, 51636501576895553661935153761963385641749105021597907346688671361483896157185nat, modulus());
    lemma_mpow_next(7, 119204688704256448682917413579931444127150892566187128304155136nat, 51636501576895553661935153761963385641749105021597907346688671361483896157185nat, 0, 6960469480319255268653930681649457722719494962223005006541636136464674749471nat, modulus());
    lemma_mpow_next(7, 238409377408512897365834827159862888254301785132374256608310272nat, 6960469480319255268653930681649457722719494962223005006541636136464674749471nat, 0, 2716211028056319918892534913596565152483903332358017898717668274156390873101nat, modulus());
}

/// Squarings 209 to 224 of the power below.
#[verifier::spinoff_prover]
#[verifier::rlimit(50)]
proof fn lemma_pow_order_by_52437899_part13()
    requires
        mpow(7, 476818754817025794731669654319725776508603570264748513216620544nat, modulus()) == 2716211028056319918892534913596565152483903332358017898717668274156390873101nat,
    ensures
        mpow(7, 31248793915688602483534702465497548489267843580870558562164443971584nat, modulus()) == 42258370029709322664317088247067370243966977509619774273105534269402644666340nat,
{
    lemma_mpow_next(7, 476818754817025794731669654319725776508603570264748513216620544nat, 2716211028056319918892534913596565152483903332358017898717668274156390873101nat, 0, 22636982716344502202651056432906232960823016276892656191190880416672075339751nat, modulus());
    lemma_mpow_next(7, 953637509634051589463339308639451553017207140529497026433241088nat, 22636982716344502202651056432906232960823016276892656191190880416672075339751nat, 0, 49497415671883965113153698774145954984483571991910725763236917451491518916957nat, modulus());
    lemma_mpow_next(7, 1907275019268103178926678617278903106034414281058994052866482176nat, 49497415671883965113153698774145954984483571991910725763236917451491518916957nat, 0, 36815930574941259488495965991984437195513048106561336598104440406471110961758nat, modulus());
    lemma_mpow_next(7, 3814550038536206357853357234557806212068828562117988105732964352nat, 36815930574941259488495965991984437195513048106561336598104440406471110961758nat, 0, 2687654398787033862886142705286656749088024058772650297766803615942877630806nat, modulus());
    lemma_mpow_next(7, 7629100077072412715706714469115612424137657124235976211465928704nat, 2687654398787033862886142705286656749088024058772650297766803615942877630806nat, 0, 51733629964366149437661049001473202201064711175602896992167551233761800820039nat, modulus());
    lemma_mpow_next(7, 15258200154144825431413428938231224848275314248471952422931857408nat, 51733629964366149437661049001473202201064711175602896992167551233761800820039nat, 0, 44405030269439019842471100806664542434334940297537694732278987017137427310058nat, modulus());
    lemma_mpow_next(7, 30516400308289650862826857876462449696550628496943904845863714816nat, 44405030269439019842471100806664542434334940297537694732278987017137427310058nat, 0, 10747736106667444948722228070109557449035854513665901355948949552201963034870nat, modulus());
    lemma_mpow_next(7, 61032800616579301725653715752924899393101256993887809691727429632nat, 10747736106667444948722228070109557449035854513665901355948949552201963034870nat, 0, 28603605964302878255857375052439585958858645659080649956483579166372983407315nat, modulus());
    lemma_mpow_next(7, 122065601233158603451307431505849798786202513987775619383454859264nat, 28603605964302878255857375052439585958858645659080649956483579166372983407315nat, 0, 21108540188642049294334163569179422423325958179227012525318917780240312160609nat, modulus());
    lemma_mpow_next(7, 244131202466317206902614863011699597572405027975551238766909718528nat, 21108540188642049294334163569179422423325958179227012525318917780240312160609nat, 0, 4242745963119143218906012467360038316321884396357127778937462842735177159656nat, modulus());
    lemma_mpow_next(7, 488262404932634413805229726023399195144810055951102477533819437056nat, 4242745963119143218906012467360038316321884396357127778937462842735177159656nat, 0, 50155477920034820062004238680782911202962605825203030020552982338139697457083nat, modulus());
    lemma_mpow_next(7, 976524809865268827610459452046798390289620111902204955067638874112nat, 50155477920034820062004238680782911202962605825203030020552982338139697457083nat, 0, 23508088227827627981721891159492002564947015405606116099165039152056010163230nat, modulus());
    lemma_mpow_next(7, 1953049619730537655220918904093596780579240223804409910135277748224nat, 23508088227827627981721891159492002564947015405606116099165039152056010163230nat, 0, 7849464005793564196327186249897222859245737491733969482828078659431981978600nat, modulus());
    lemma_mpow_next(7, 3906099239461075310441837808187193561158480447608819820270555496448nat, 7849464005793564196327186249897222859245737491733969482828078659431981978600nat, 0, 40732692080999279037916348250727472696766834517657827616764525012093914820418nat, modulus());
    lemma_mpow_next(7, 7812198478922150620883675616374387122316960895217639640541110992896nat, 40732692080999279037916348250727472696766834517657827616764525012093914820418nat, 0, 44549056115405320769504674750509942160330424750179756311261625898161486886004nat, modulus());
    lemma_mpow_next(7, 15624396957844301241767351232748774244633921790435279281082221985792nat, 44549056115405320769504674750509942160330424750179756311261625898161486886004nat, 0, 42258370029709322664317088247067370243966977509619774273105534269402644666340nat, modulus());
}

/// Squarings 225 to 229 of the power below.
#[verifier::spinoff_prover]
#[verifier::rlimit(50)]
proof fn lemma_pow_order_by_52437899_part14()
    requires
        mpow(7, 31248793915688602483534702465497548489267843580870558562164443971584nat, modulus()) == 42258370029709322664317088247067370243966977509619774273105534269402644666340nat,
    ensures
        mpow(7, 999961405302035279473110478895921551656570994587857873989262207090688nat, modulus()) == 28145752697189822412174329949576985284591506457805936680525074633201440824164nat,
{
    lemma_mpow_next(7, 31248793915688602483534702465497548489267843580870558562164443971584nat, 42258370029709322664317088247067370243966977509619774273105534269402644666340nat, 0, 18109721104039116366318138576442738593204241154554551269672464332303407282000nat, modulus());
    lemma_mpow_next(7, 62497587831377204967069404930995096978535687161741117124328887943168nat, 18109721104039116366318138576442738593204241154554551269672464332303407282000nat, 0, 37466122312203068132531290866436792488147103534920184029711854272137790918759nat, modulus());
    lemma_mpow_next(7, 124995175662754409934138809861990193957071374323482234248657775886336nat, 37466122312203068132531290866436792488147103534920184029711854272137790918759nat, 0, 38420424043097866186591319696548417960141810582787146853409541154798133687560nat, modulus());
    lemma_mpow_next(7, 249990351325508819868277619723980387914142748646964468497315551772672nat, 38420424043097866186591319696548417960141810582787146853409541154798133687560nat, 0, 47758923738718878210001593810091747939268927539984154475431261725382179320327nat, modulus());
    lemma_mpow_next(7, 499980702651017639736555239447960775828285497293928936994631103545344nat, 47758923738718878210001593810091747939268927539984154475431261725382179320327nat, 0, 28145752697189822412174329949576985284591506457805936680525074633201440824164nat, modulus());
}

/// The generator to the power `(n - 1) / 52437899` modulo the field order `n`.
proof fn lemma_pow_order_by_52437899()
    ensures
        mpow(7, 999961405302035279473110478895921551656570994587857873989262207090688nat, modulus()) == 28145752697189822412174329949576985284591506457805936680525074633201440824164nat,
{
    lemma_mpow_first(7, modulus());
    lemma_pow_order_by_52437899_part0();
    lemma_pow_order_by_52437899_part1();
    lemma_pow_order_by_52437899_part2();
    lemma_pow_order_by_52437899_part3();
    lemma_pow_order_by_52437899_part4();
    lemma_pow_order_by_52437899_part5();
    lemma_pow_order_by_52437899_part6();
    lemma_pow_order_by_52437899_part7();
    lemma_pow_order_by_52437899_part8();
    lemma_pow_order_by_52437899_part9();
    lemma_pow_order_by_52437899_part10();
    lemma_pow_order_by_52437899_part11();
    lemma_pow_order_by_52437899_part12();
    lemma_pow_order_by_52437899_part13();
    lemma_pow_order_by_52437899_part14();
}

/// Squarings 1 to 16 of the power below.
#[verifier::spinoff_prover]
#[verifier::rlimit(50)]
proof fn lemma_pow_order_by_254760293_part0()
    requires
        mpow(7, 1, modulus()) == 7,
    ensures
        mpow(7, 125082, modulus()) == 5061938241379475636880460053856829782363180618275643463551851726998594747252nat,
{
    lemma_mpow_next(7, 1, 7, 1, 343, modulus());
    lemma_mpow_next(7, 3, 343, 1, 823543, modulus());
    lemma_mpow_next(7, 7, 823543, 1, 4747561509943, modulus());
    lemma_mpow_next(7, 15, 4747561509943, 0, 22539340290692258087863249nat, modulus());
    lemma_mpow_next(7, 30, 22539340290692258087863249nat, 1, 3556153025177363557255317383565515512407041673852007nat, modulus());
    lemma_mpow_next(7, 61, 3556153025177363557255317383565515512407041673852007nat, 0, 49725386197816015422920504974654025674771489253115740477843940119274812823028nat, modulus());
    lemma_mpow_next(7, 122, 49725386197816015422920504974654025674771489253115740477843940119274812823028nat, 0, 5737662677202401557743835956213640436441277178128601579674570577325592611255nat, modulus());
    lemma_mpow_next(7, 244, 5737662677202401557743835956213640436441277178128601579674570577325592611255nat, 0, 9109296177507064594894646705597638880049092880215836748061225907952023049213nat, modulus());
    lemma_mpow_next(7, 488, 9109296177507064594894646705597638880049092880215836748061225907952023049213nat, 1, 26495381345066705389166012934195944961782327851395758809957429982357943863885nat, modulus());
    lemma_mpow_next(7, 977, 26495381345066705389166012934195944961782327851395758809957429982357943863885nat, 0, 37120945338165774274601948809231274115284930484490199923771976130567659051448nat, modulus());
    lemma_mpow_next(7, 1954, 37120945338165774274601948809231274115284930484490199923771976130567659051448nat, 0, 24398272194626835318099930394495475027064327623488033668367055887075536602851nat, modulus());
    lemma_mpow_next(7, 3908, 24398272194626835318099930394495475027064327623488033668367055887075536602851nat, 1, 45923610280786311555916826966086687957255811754494097876334523663289597124125nat, modulus());
    lemma_mpow_next(7, 7817, 45923610280786311555916826966086687957255811754494097876334523663289597124125nat, 1, 4915687424171545984608290150353325535031504922146118586407961234935976393487nat, modulus());
    lemma_mpow_next(7, 15635, 4915687424171545984608290150353325535031504922146118586407961234935976393487nat, 0, 27178852719600043897260071164995146269800164126897130764546933627626728243702nat, modulus());
    lemma_mpow_next(7, 31270, 27178852719600043897260071164995146269800164126897130764546933627626728243702nat, 1, 1974272691952977531480777568337763675855195941220798669382781871280917736365nat, modulus());
    lemma_mpow_next(7, 62541, 1974272691952977531480777568337763675855195941220798669382781871280917736365nat, 0, 5061938241379475636880460053856829782363180618275643463551851726998594747252nat, modulus());
}

/// Squarings 17 to 32 of the power below.
#[verifier::spinoff_prover]
#[verifier::rlimit(50)]
proof fn lemma_pow_order_by_254760293_part1()
    requires
        mpow(7, 125082, modulus()) == 5061938241379475636880460053856829782363180618275643463551851726998594747252nat,
    ensures
        mpow(7, 8197428218, modulus()) == 20049598627915897529788913348533044027989833827107636710213788158979713552988nat,
{
    lemma_mpow_next(7, 125082, 5061938241379475636880460053856829782363180618275643463551851726998594747252nat, 1, 47950664452001568387310336732418867303321568382467619184797025942573143555487nat, modulus());
    lemma_mpow_next(7, 250165, 47950664452001568387310336732418867303321568382467619184797025942573143555487nat, 1, 18433967054429444225570675846538317382187785601761955469098952116797418844137nat, modulus());
    lemma_mpow_next(7, 500331, 18433967054429444225570675846538317382187785601761955469098952116797418844137nat, 0, 31455042107112448501802089746532811372943302771123658324545180448584011291989nat, modulus());
    lemma_mpow_next(7, 1000662, 31455042107112448501802089746532811372943302771123658324545180448584011291989nat, 1, 18769256628898462572149053248732762131211291139442158672335478535519486722554nat, modulus());
    lemma_mpow_next(7, 2001325, 18769256628898462572149053248732762131211291139442158672335478535519486722554nat, 0, 33398801093147293460328664433408175938985417212543336147626950671444068865496nat, modulus());
    lemma_mpow_next(7, 4002650, 33398801093147293460328664433408175938985417212543336147626950671444068865496nat, 0, 41291489876078154710964756208984789904969863916478831696249260856578694707808nat, modulus());
    lemma_mpow_next(7, 8005300, 41291489876078154710964756208984789904969863916478831696249260856578694707808nat, 1, 42155893894133402177165868542389520380741190767085840779741785337611630432218nat, modulus());
    lemma_mpow_next(7, 16010601, 42155893894133402177165868542389520380741190767085840779741785337611630432218nat, 1, 16390106969178711634037689412073024844330379347536414597054336122223866073399nat, modulus());
    lemma_mpow_next(7, 32021203, 16390106969178711634037689412073024844330379347536414597054336122223866073399nat, 1, 11047138362269342855676197987174588523612120008439538399766028171297379830152nat, modulus());
    lemma_mpow_next(7, 64042407, 11047138362269342855676197987174588523612120008439538399766028171297379830152nat, 1, 23068643135623974700398198994960257867114438102999886675543476280858026279761nat, modulus());
    lemma_mpow_next(7, 128084815, 23068643135623974700398198994960257867114438102999886675543476280858026279761nat, 1, 34251016868323712991708153430145592735943771089342559862316154328570725537927nat, modulus());
    lemma_mpow_next(7, 256169631, 34251016868323712991708153430145592735943771089342559862316154328570725537927nat, 1, 33508133049613945959412084507004084522723881820693016780922799764378100092223nat, modulus());
    lemma_mpow_next(7, 512339263, 33508133049613945959412084507004084522723881820693016780922799764378100092223nat, 1, 45641481265416965685681313796847127519809514886081979564331938014240938285628nat, modulus());
    lemma_mpow_next(7, 1024678527, 45641481265416965685681313796847127519809514886081979564331938014240938285628nat, 0, 37405460325957557551363006973270399100966263908358517894835937015598463173899nat, modulus());
    lemma_mpow_next(7, 2049357054, 37405460325957557551363006973270399100966263908358517894835937015598463173899nat, 1, 18032300450579053217613585752567054733821209268371513388573347079613970884703nat, modulus());
    lemma_mpow_next(7, 4098714109, 18032300450579053217613585752567054733821209268371513388573347079613970884703nat, 0, 20049598627915897529788913348533044027989833827107636710213788158979713552988nat, modulus());
}

/// Squarings 33 to 48 of the power below.
#[verifier::spinoff_prover]
#[verifier::rlimit(50)]
proof fn lemma_pow_order_by_254760293_part2()
    requires
        mpow(7, 8197428218, modulus()) == 20049598627915897529788913348533044027989833827107636710213788158979713552988nat,
    ensures
        mpow(7, 537226655746802, modulus()) == 19970299493429461145513718573742463649155832405379426887972059596911070772684nat,
{
    lemma_mpow_next(7, 8197428218, 20049598627915897529788913348533044027989833827107636710213788158979713552988nat, 1, 13993928368960507740943258379167555079438721548433042740038310194864003999979nat, modulus());
    lemma_mpow_next(7, 16394856437, 13993928368960507740943258379167555079438721548433042740038310194864003999979nat, 1, 22974085355627704574252045422483162736415149254201618770088674754241355456457nat, modulus());
    lemma_mpow_next(7, 32789712875, 22974085355627704574252045422483162736415149254201618770088674754241355456457nat, 0, 43251647906300225874417248603701327245345017358479835378432019953502256199116nat, modulus());
    lemma_mpow_next(7, 65579425750, 43251647906300225874417248603701327245345017358479835378432019953502256199116nat, 0, 48844610595773848943326258390706506040614698863195616540364081036629887631484nat, modulus());
    lemma_mpow_next(7, 131158851500, 48844610595773848943326258390706506040614698863195616540364081036629887631484nat, 1, 25430663769485209720811394886558700193010271369723962396552502416856140605792nat, modulus());
    lemma_mpow_next(7, 262317703001, 25430663769485209720811394886558700193010271369723962396552502416856140605792nat, 0, 50296887451506155853171501271521284958629946436997801150277756264170180835766nat, modulus());
    lemma_mpow_next(7, 524635406002, 50296887451506155853171501271521284958629946436997801150277756264170180835766nat, 1, 35373800168828595629942732351505329702793417844485207766855395689405215828233nat, modulus());
    lemma_mpow_next(7, 1049270812005, 35373800168828595629942732351505329702793417844485207766855395689405215828233nat, 0, 2029857484614461847378815032978224713902779947884046858828511803149833666056nat, modulus());
    lemma_mpow_next(7, 2098541624010, 2029857484614461847378815032978224713902779947884046858828511803149833666056nat, 1, 37243225857013243466585444201001297282917514814959718584647374017321698295407nat, modulus());
    lemma_mpow_next(7, 4197083248021, 37243225857013243466585444201001297282917514814959718584647374017321698295407nat, 1, 40327780171049170522933410914316554099654846338942455167406995425140789542514nat, modulus());
    lemma_mpow_next(7, 8394166496043, 40327780171049170522933410914316554099654846338942455167406995425140789542514nat, 1, 30046310404635666362467125065761402551048894799846133537829131025622647918111nat, modulus());
    lemma_mpow_next(7, 16788332992087, 30046310404635666362467125065761402551048894799846133537829131025622647918111nat, 1, 17767527161836166694857922168458211955694775289653874631412686105465641830849nat, modulus());
    lemma_mpow_next(7, 33576665984175, 17767527161836166694857922168458211955694775289653874631412686105465641830849nat, 0, 20212593089657504982370792809052489809685992102899622989348198003876122694983nat, modulus());
    lemma_mpow_next(7, 67153331968350, 20212593089657504982370792809052489809685992102899622989348198003876122694983nat, 0, 23774186244038979367774308088960000883526715527146834416533263255301135222583nat, modulus());
    lemma_mpow_next(7, 134306663936700, 23774186244038979367774308088960000883526715527146834416533263255301135222583nat, 1, 51373398691108126890708023318936681874692510208032861294539674000978924792440nat, modulus());
    lemma_mpow_next(7, 268613327873401, 51373398691108126890708023318936681874692510208032861294539674000978924792440nat, 0, 19970299493429461145513718573742463649155832405379426887972059596911070772684nat, modulus());
}

/// Squarings 49 to 64 of the power below.
#[verifier::spinoff_prover]
#[verifier::rlimit(50)]
proof fn lemma_pow_order_by_254760293_part3()
    requires
        mpow(7, 537226655746802, modulus()) == 19970299493429461145513718573742463649155832405379426887972059596911070772684nat,
    ensures
        mpow(7, 35207686111022448504nat, modulus()) == 24988123289270115746724366705942423304956724529996141538886360855759431479172nat,
{
    lemma_mpow_next(7, 537226655746802, 19970299493429461145513718573742463649155832405379426887972059596911070772684nat, 0, 34659509867994400263071948425333663193676343134201599788020891250722808941215nat, modulus());
    lemma_mpow_next(7, 1074453311493604, 34659509867994400263071948425333663193676343134201599788020891250722808941215nat, 1, 35461816365046419497339120424065018039825214811137369372165878628077324986510nat, modulus());
    lemma_mpow_next(7, 2148906622987209, 35461816365046419497339120424065018039825214811137369372165878628077324986510nat, 1, 21077911573471540168655707208944870687470611539030507223508917777834833089051nat, modulus());
    lemma_mpow_next(7, 4297813245974419, 21077911573471540168655707208944870687470611539030507223508917777834833089051nat, 1, 46877203722175692206079189681214261312252061610234344425529299685249717234571nat, modulus());
    lemma_mpow_next(7, 8595626491948839, 46877203722175692206079189681214261312252061610234344425529299685249717234571nat, 1, 16937852117824636338314304067989179971484992961123286510608936599958783062077nat, modulus());
    lemma_mpow_next(7, 17191252983897679, 16937852117824636338314304067989179971484992961123286510608936599958783062077nat, 1, 5222347138844694154051289364511923933944494495110811537143530200846616842618nat, modulus());
    lemma_mpow_next(7, 34382505967795359, 5222347138844694154051289364511923933944494495110811537143530200846616842618nat, 1, 24339497700651582560556215300752020217226667307967453310604526526786307372650nat, modulus());
    lemma_mpow_next(7, 68765011935590719, 24339497700651582560556215300752020217226667307967453310604526526786307372650nat, 1, 48315277892796301343177242391890170067059793317096539073475580484166636966226nat, modulus());
    lemma_mpow_next(7, 137530023871181439, 48315277892796301343177242391890170067059793317096539073475580484166636966226nat, 0, 24225930697757543426319225428326860765488036232869146913023554411991198020768nat, modulus());
    lemma_mpow_next(7, 275060047742362878, 24225930697757543426319225428326860765488036232869146913023554411991198020768nat, 1, 25881188565881987460857202103879916674033356500256906912448541551140188961178nat, modulus());
    lemma_mpow_next(7, 550120095484725757, 25881188565881987460857202103879916674033356500256906912448541551140188961178nat, 1, 14952202074496534330914473753014234782637421115956157390378555940919474082820nat, modulus());
    lemma_mpow_next(7, 1100240190969451515nat, 14952202074496534330914473753014234782637421115956157390378555940919474082820nat, 1, 48452308952328011036486614621122075685044584204961098281775978988936113422507nat, modulus());
    lemma_mpow_next(7, 2200480381938903031nat, 48452308952328011036486614621122075685044584204961098281775978988936113422507nat, 1, 15121380539557971174359901179129719552302250819044029969459368196611042485160nat, modulus());
    lemma_mpow_next(7, 4400960763877806063nat, 15121380539557971174359901179129719552302250819044029969459368196611042485160nat, 0, 35243673124137810760772134705488394757313480662727922056636083956090712071335nat, modulus());
    lemma_mpow_next(7, 8801921527755612126nat, 35243673124137810760772134705488394757313480662727922056636083956090712071335nat, 0, 48639322428983595690859372178514016884934177243370796027480963037166760563884nat, modulus());
    lemma_mpow_next(7, 17603843055511224252nat, 48639322428983595690859372178514016884934177243370796027480963037166760563884nat, 0, 24988123289270115746724366705942423304956724529996141538886360855759431479172nat, modulus());
}

/// Squarings 65 to 80 of the power below.
#[verifier::spinoff_prover]
#[verifier::rlimit(50)]
proof fn lemma_pow_order_by_254760293_part4()
    requires
        mpow(7, 35207686111022448504nat, modulus()) == 24988123289270115746724366705942423304956724529996141538886360855759431479172nat,
    ensures
        mpow(7, 2307370916971967185191715nat, modulus()) == 33517947632671165531370946877822221050967816036139570005024336189456523644876nat,
{
    lemma_mpow_next(7, 35207686111022448504nat, 24988123289270115746724366705942423304956724529996141538886360855759431479172nat, 1, 12519232260295252011914527385258059063194989798490454414375151791531385695808nat, modulus());
    lemma_mpow_next(7, 70415372222044897009nat, 12519232260295252011914527385258059063194989798490454414375151791531385695808nat, 0, 31632822073611886656390564178027752486569856365717858459224197243763915666813nat, modulus());
    lemma_mpow_next(7, 140830744444089794018nat, 31632822073611886656390564178027752486569856365717858459224197243763915666813nat, 0, 23638347834449352381157160285311376685111136607237521814112686619046913955273nat, modulus());
    lemma_mpow_next(7, 281661488888179588036nat, 23638347834449352381157160285311376685111136607237521814112686619046913955273nat, 0, 46140250609822459143183724867705640406682178743114313817032779769664166812327nat, modulus());
    lemma_mpow_next(7, 563322977776359176072nat, 46140250609822459143183724867705640406682178743114313817032779769664166812327nat, 0, 34330671492847825899680958280132154763622885497032815366248771073865500042286nat, modulus());
    lemma_mpow_next(7, 1126645955552718352144nat, 34330671492847825899680958280132154763622885497032815366248771073865500042286nat, 0, 51053065025507941863578243316242027573074706327660798046101217984004627456147nat, modulus());
    lemma_mpow_next(7, 2253291911105436704288nat, 51053065025507941863578243316242027573074706327660798046101217984004627456147nat, 1, 21993358708687280495814868410486839794939494972820325934601333301837935632463nat, modulus());
    lemma_mpow_next(7, 4506583822210873408577nat, 21993358708687280495814868410486839794939494972820325934601333301837935632463nat, 1, 2672227125264648540116316980806200292168140570807080575730370673887782956646nat, modulus());
    lemma_mpow_next(7, 9013167644421746817155nat, 2672227125264648540116316980806200292168140570807080575730370673887782956646nat, 0, 15431870683175228144823906967234340346452960316296557761440008162059739678887nat, modulus());
    lemma_mpow_next(7, 18026335288843493634310nat, 15431870683175228144823906967234340346452960316296557761440008162059739678887nat, 0, 117922408272753205043199836600129684124794441679647270862758301471388893891nat, modulus());
    lemma_mpow_next(7, 36052670577686987268620nat, 117922408272753205043199836600129684124794441679647270862758301471388893891nat, 1, 40390941114509616881997914472620665861967026587401442944382786077233371457982nat, modulus());
    lemma_mpow_next(7, 72105341155373974537241nat, 40390941114509616881997914472620665861967026587401442944382786077233371457982nat, 0, 34015802376064534136932566623026493153441309851549984712085116243934035669961nat, modulus());
    lemma_mpow_next(7, 144210682310747949074482nat, 34015802376064534136932566623026493153441309851549984712085116243934035669961nat, 0, 17547196941010152641281219068870632210245217212960150540911053209298988096130nat, modulus());
    lemma_mpow_next(7, 288421364621495898148964nat, 17547196941010152641281219068870632210245217212960150540911053209298988096130nat, 0, 20259156384777077237114942559628521504884004029213907395605226560427048790105nat, modulus());
    lemma_mpow_next(7, 576842729242991796297928nat, 20259156384777077237114942559628521504884004029213907395605226560427048790105nat, 1, 7079329609629865286316403064067948087705470246018867046835318531711639139970nat, modulus());
    lemma_mpow_next(7, 1153685458485983592595857nat, 7079329609629865286316403064067948087705470246018867046835318531711639139970nat, 1, 33517947632671165531370946877822221050967816036139570005024336189456523644876nat, modulus());
}

/// Squarings 81 to 96 of the power below.
#[verifier::spinoff_prover]
#[verifier::rlimit(50)]
proof fn lemma_pow_order_by_254760293_part5()
    requires
        mpow(7, 2307370916971967185191715nat, modulus()) == 33517947632671165531370946877822221050967816036139570005024336189456523644876nat,
    ensures
        mpow(7, 151215860414674841448724266586nat, modulus()) == 26707209853624439761106342853100836845525450955942601540310449994277621885409nat,
{
    lemma_mpow_next(7, 2307370916971967185191715nat, 33517947632671165531370946877822221050967816036139570005024336189456523644876nat, 0, 27346785062381147830821648919581582465288044747746908178254575757888419535016nat, modulus());
    lemma_mpow_next(7, 4614741833943934370383430nat, 27346785062381147830821648919581582465288044747746908178254575757888419535016nat, 1, 4522243753474607670605930605233135692487412677447573433257015203233013854938nat, modulus());
    lemma_mpow_next(7, 9229483667887868740766861nat, 4522243753474607670605930605233135692487412677447573433257015203233013854938nat, 1, 5852455549857455938557933586060316990733378188490298099236135729962291612285nat, modulus());
    lemma_mpow_next(7, 18458967335775737481533723nat, 5852455549857455938557933586060316990733378188490298099236135729962291612285nat, 1, 39182269306335856512414957152266720566313473462934560095600390374760161342746nat, modulus());
    lemma_mpow_next(7, 36917934671551474963067447nat, 39182269306335856512414957152266720566313473462934560095600390374760161342746nat, 1, 6656284858200391878388372693748306861247310679173158492272828480637968868723nat, modulus());
    lemma_mpow_next(7, 73835869343102949926134895nat, 6656284858200391878388372693748306861247310679173158492272828480637968868723nat, 1, 23253218799910965080112713668834744439249598772059748733170610344201992585517nat, modulus());
    lemma_mpow_next(7, 147671738686205899852269791nat, 23253218799910965080112713668834744439249598772059748733170610344201992585517nat, 1, 33841935331642866589375158740419521340845517677108671168071203254120789266964nat, modulus());
    lemma_mpow_next(7, 295343477372411799704539583nat, 33841935331642866589375158740419521340845517677108671168071203254120789266964nat, 0, 9343358754954345971493411587059190345609177182588570931760948726587836866964nat, modulus());
    lemma_mpow_next(7, 590686954744823599409079166nat, 9343358754954345971493411587059190345609177182588570931760948726587836866964nat, 0, 30197166944760577116830051380141161068245530117320133271345481772431683686725nat, modulus());
    lemma_mpow_next(7, 1181373909489647198818158332nat, 30197166944760577116830051380141161068245530117320133271345481772431683686725nat, 1, 24043040148528548214959056248099447676855238611564600673616333916277617732928nat, modulus());
    lemma_mpow_next(7, 2362747818979294397636316665nat, 24043040148528548214959056248099447676855238611564600673616333916277617732928nat, 0, 14766734579851420629583063833524982461886887470789737558793902307559510429541nat, modulus());
    lemma_mpow_next(7, 4725495637958588795272633330nat, 14766734579851420629583063833524982461886887470789737558793902307559510429541nat, 1, 25873125145449605356252326118819383052975305100297372875488125615189075176611nat, modulus());
    lemma_mpow_next(7, 9450991275917177590545266661nat, 25873125145449605356252326118819383052975305100297372875488125615189075176611nat, 1, 45754713601959933638963009698776952342599906096796237853516592958237975781675nat, modulus());
    lemma_mpow_next(7, 18901982551834355181090533323nat, 45754713601959933638963009698776952342599906096796237853516592958237975781675nat, 0, 38610025518602779677003262556099276861206897353975421616353478372748248623864nat, modulus());
    lemma_mpow_next(7, 37803965103668710362181066646nat, 38610025518602779677003262556099276861206897353975421616353478372748248623864nat, 1, 20003377208167867388762892471101749822608896324914772885781930466388721383423nat, modulus());
    lemma_mpow_next(7, 75607930207337420724362133293nat, 20003377208167867388762892471101749822608896324914772885781930466388721383423nat, 0, 26707209853624439761106342853100836845525450955942601540310449994277621885409nat, modulus());
}

/// Squarings 97 to 112 of the power below.
#[verifier::spinoff_prover]
#[verifier::rlimit(50)]
proof fn lemma_pow_order_by_254760293_part6()
    requires
        mpow(7, 151215860414674841448724266586nat, modulus()) == 26707209853624439761106342853100836845525450955942601540310449994277621885409nat,
    ensures
        mpow(7, 9910082628136130409183593534997051nat, modulus()) == 8631522015572279678418028098011795057159185838636823058579923936096853768910nat,
{
    lemma_mpow_next(7, 151215860414674841448724266586nat, 26707209853624439761106342853100836845525450955942601540310449994277621885409nat, 0, 20656088136570974690770538328292294740810654473154139412397430758344576520758nat, modulus());
    lemma_mpow_next(7, 302431720829349682897448533172nat, 20656088136570974690770538328292294740810654473154139412397430758344576520758nat, 1, 36093314391984650377985783737737332908912527774738529820810887650510323942726nat, modulus());
    lemma_mpow_next(7, 604863441658699365794897066345nat, 36093314391984650377985783737737332908912527774738529820810887650510323942726nat, 0, 7625220081343197182723922544081217250161072138720394429602527586591489342664nat, modulus());
    lemma_mpow_next(7, 1209726883317398731589794132690nat, 7625220081343197182723922544081217250161072138720394429602527586591489342664nat, 0, 11356691585757768919379714786108138396989048819741818806908382687900545571272nat, modulus());
    lemma_mpow_next(7, 2419453766634797463179588265380nat, 11356691585757768919379714786108138396989048819741818806908382687900545571272nat, 0, 50553246916061994281437350215274198377119210439789179049186101973141111431169nat, modulus());
    lemma_mpow_next(7, 4838907533269594926359176530760nat, 50553246916061994281437350215274198377119210439789179049186101973141111431169nat, 0, 41633800186375915546685940753714108986202877949448069721521279458147265977703nat, modulus());
    lemma_mpow_next(7, 9677815066539189852718353061520nat, 41633800186375915546685940753714108986202877949448069721521279458147265977703nat, 1, 34064430506948504666130741199220658064608835898797810070697804565192040133154nat, modulus());
    lemma_mpow_next(7, 19355630133078379705436706123041nat, 34064430506948504666130741199220658064608835898797810070697804565192040133154nat, 0, 28072221669047747585020761097395890252935811653934975267363938685484476309452nat, modulus());
    lemma_mpow_next(7, 38711260266156759410873412246082nat, 28072221669047747585020761097395890252935811653934975267363938685484476309452nat, 0, 27445618142934330876447161377699782850627049961661969740495798719620239050260nat, modulus());
    lemma_mpow_next(7, 77422520532313518821746824492164nat, 27445618142934330876447161377699782850627049961661969740495798719620239050260nat, 0, 26195142839372646674860643890218351428452323928781334239559720288341231073755nat, modulus());
    lemma_mpow_next(7, 154845041064627037643493648984328nat, 26195142839372646674860643890218351428452323928781334239559720288341231073755nat, 1, 29796749098235788563246945335031875138211669773864014503459224718748166798509nat, modulus());
    lemma_mpow_next(7, 309690082129254075286987297968657nat, 29796749098235788563246945335031875138211669773864014503459224718748166798509nat, 1, 9824361936949808769654274796765033409166944981716168637941702612180748412955nat, modulus());
    lemma_mpow_next(7, 619380164258508150573974595937315nat, 9824361936949808769654274796765033409166944981716168637941702612180748412955nat, 1, 41435921042989184233459735315307588446245078363938686737999653767818185079661nat, modulus());
    lemma_mpow_next(7, 1238760328517016301147949191874631nat, 41435921042989184233459735315307588446245078363938686737999653767818185079661nat, 0, 16014551348778003770011458693241810633077701591246652872434963743610807429967nat, modulus());
    lemma_mpow_next(7, 2477520657034032602295898383749262nat, 16014551348778003770011458693241810633077701591246652872434963743610807429967nat, 1, 26420167415762246850975518718045646607064352102268574318910417054877438081763nat, modulus());
    lemma_mpow_next(7, 4955041314068065204591796767498525nat, 26420167415762246850975518718045646607064352102268574318910417054877438081763nat, 1, 8631522015572279678418028098011795057159185838636823058579923936096853768910nat, modulus());
}

/// Squarings 113 to 128 of the power below.
#[verifier::spinoff_prover]
#[verifier::rlimit(50)]
proof fn lemma_pow_order_by_254760293_part7()
    requires
        mpow(7, 9910082628136130409183593534997051nat, modulus()) == 8631522015572279678418028098011795057159185838636823058579923936096853768910nat,
    ensures
        mpow(7, 649467175117529442496255985909566762702nat, modulus()) == 1422949777719271349971743088473110936630116786768896223876569687947320597777nat,
{
    lemma_mpow_next(7, 9910082628136130409183593534997051nat, 8631522015572279678418028098011795057159185838636823058579923936096853768910nat, 0, 32524212970414804047857407737520121394233171703628533599704656202605261768237nat, modulus());
    lemma_mpow_next(7, 19820165256272260818367187069994102nat, 32524212970414804047857407737520121394233171703628533599704656202605261768237nat, 1, 22818471467752387104373232825649278427097570372071302225866301694571129237745nat, modulus());
    lemma_mpow_next(7, 39640330512544521636734374139988205nat, 22818471467752387104373232825649278427097570372071302225866301694571129237745nat, 1, 34304251070006438972154873324610937872024872933136442082932133639356029289296nat, modulus());
    lemma_mpow_next(7, 79280661025089043273468748279976411nat, 34304251070006438972154873324610937872024872933136442082932133639356029289296nat, 0, 24641652283889651695369333797597072464545969068161242669736291022597546060738nat, modulus());
    lemma_mpow_next(7, 158561322050178086546937496559952822nat, 24641652283889651695369333797597072464545969068161242669736291022597546060738nat, 1, 17434801494795836827101941106883876294375501509954890504669084270576447771854nat, modulus());
    lemma_mpow_next(7, 317122644100356173093874993119905645nat, 17434801494795836827101941106883876294375501509954890504669084270576447771854nat, 1, 32096984168520891550908486501271772497553053537947750155730324492604838270813nat, modulus());
    lemma_mpow_next(7, 634245288200712346187749986239811291nat, 32096984168520891550908486501271772497553053537947750155730324492604838270813nat, 1, 41271573176901718028987140619727058455322796197562152477186579898754416514022nat, modulus());
    lemma_mpow_next(7, 1268490576401424692375499972479622583nat, 41271573176901718028987140619727058455322796197562152477186579898754416514022nat, 0, 13631254764069125224497908902217930558130066670957821220838591901415983818211nat, modulus());
    lemma_mpow_next(7, 2536981152802849384750999944959245166nat, 13631254764069125224497908902217930558130066670957821220838591901415983818211nat, 1, 9278644073479863709372099435930066636935751680707931920536488085111076345453nat, modulus());
    lemma_mpow_next(7, 5073962305605698769501999889918490333nat, 9278644073479863709372099435930066636935751680707931920536488085111076345453nat, 1, 35801951583406775083584596638419772915714710192084025881853255272878822627635nat, modulus());
    lemma_mpow_next(7, 10147924611211397539003999779836980667nat, 35801951583406775083584596638419772915714710192084025881853255272878822627635nat, 0, 30471971193495090184327134755472733453359004088270748009866968587295927399944nat, modulus());
    lemma_mpow_next(7, 20295849222422795078007999559673961334nat, 30471971193495090184327134755472733453359004088270748009866968587295927399944nat, 0, 16517536027381363142509104267651962701916997698559664587784545889791528722124nat, modulus());
    lemma_mpow_next(7, 40591698444845590156015999119347922668nat, 16517536027381363142509104267651962701916997698559664587784545889791528722124nat, 1, 6970161796902788453795203030540944795029996722937936503937607658407705185006nat, modulus());
    lemma_mpow_next(7, 81183396889691180312031998238695845337nat, 6970161796902788453795203030540944795029996722937936503937607658407705185006nat, 1, 17692608116912237896173947527375162124100443190845736922301406149640932380576nat, modulus());
    lemma_mpow_next(7, 162366793779382360624063996477391690675nat, 17692608116912237896173947527375162124100443190845736922301406149640932380576nat, 1, 31624816142301270438956224305643303385462985857412536539754630497271772678685nat, modulus());
    lemma_mpow_next(7, 324733587558764721248127992954783381351nat, 31624816142301270438956224305643303385462985857412536539754630497271772678685nat, 0, 1422949777719271349971743088473110936630116786768896223876569687947320597777nat, modulus());
}

/// Squarings 129 to 144 of the power below.
#[verifier::spinoff_prover]
#[verifier::rlimit(50)]
proof fn lemma_pow_order_by_254760293_part8()
    requires
        mpow(7, 649467175117529442496255985909566762702nat, modulus()) == 1422949777719271349971743088473110936630116786768896223876569687947320597777nat,
    ensures
        mpow(7, 42563480788502409543434632292569367360498159nat, modulus()) == 7711586828467458287917241353207258724720985363006598297277398793700755282669nat,
{
    lemma_mpow_next(7, 649467175117529442496255985909566762702nat, 1422949777719271349971743088473110936630116786768896223876569687947320597777nat, 1, 32925985975316376782275862188019983020736465505542682162325256453102513147658nat, modulus());
    lemma_mpow_next(7, 1298934350235058884992511971819133525405nat, 32925985975316376782275862188019983020736465505542682162325256453102513147658nat, 1, 41687841958125935335605372208860259958685137842954517283402791581672711330498nat, modulus());
    lemma_mpow_next(7, 2597868700470117769985023943638267050811nat, 41687841958125935335605372208860259958685137842954517283402791581672711330498nat, 1, 6622803030051718841713111719280039109471744293289083644984922693032899863696nat, modulus());
    lemma_mpow_next(7, 5195737400940235539970047887276534101623nat, 6622803030051718841713111719280039109471744293289083644984922693032899863696nat, 0, 3978695073070473545127428435357386795579094280410314284036998641294406177561nat, modulus());
    lemma_mpow_next(7, 10391474801880471079940095774553068203246nat, 3978695073070473545127428435357386795579094280410314284036998641294406177561nat, 1, 46729251951669099627601673126413860001263969946237913245467923972605157330267nat, modulus());
    lemma_mpow_next(7, 20782949603760942159880191549106136406493nat, 46729251951669099627601673126413860001263969946237913245467923972605157330267nat, 0, 29584778637916823250649974861272839333803519201874481081771784478121416217350nat, modulus());
    lemma_mpow_next(7, 41565899207521884319760383098212272812986nat, 29584778637916823250649974861272839333803519201874481081771784478121416217350nat, 0, 29503584236300637975551256296304033494765205251652984570771616648025487908181nat, modulus());
    lemma_mpow_next(7, 83131798415043768639520766196424545625972nat, 29503584236300637975551256296304033494765205251652984570771616648025487908181nat, 1, 11155067002998365060620019052424345976250702193970468666894350596287765453347nat, modulus());
    lemma_mpow_next(7, 166263596830087537279041532392849091251945nat, 11155067002998365060620019052424345976250702193970468666894350596287765453347nat, 1, 14233490013962911685819385161869247964754285732109579316710273426837734387429nat, modulus());
    lemma_mpow_next(7, 332527193660175074558083064785698182503891nat, 14233490013962911685819385161869247964754285732109579316710273426837734387429nat, 1, 50591548669354942665095184304962049806116907814248046876061476206354690311755nat, modulus());
    lemma_mpow_next(7, 665054387320350149116166129571396365007783nat, 50591548669354942665095184304962049806116907814248046876061476206354690311755nat, 1, 45841639954931410451049691969466234793764195275624952740919316973145284546374nat, modulus());
    lemma_mpow_next(7, 1330108774640700298232332259142792730015567nat, 45841639954931410451049691969466234793764195275624952740919316973145284546374nat, 0, 29819172947519218166616992889217116118942979049679083803082950371640966150136nat, modulus());
    lemma_mpow_next(7, 2660217549281400596464664518285585460031134nat, 29819172947519218166616992889217116118942979049679083803082950371640966150136nat, 1, 44208228437686573985515718169401114678707956826610993561463313606608654498363nat, modulus());
    lemma_mpow_next(7, 5320435098562801192929329036571170920062269nat, 44208228437686573985515718169401114678707956826610993561463313606608654498363nat, 1, 32482914701007928069495116918837511579659144339461088509535096271878427034988nat, modulus());
    lemma_mpow_next(7, 10640870197125602385858658073142341840124539nat, 32482914701007928069495116918837511579659144339461088509535096271878427034988nat, 1, 48293371682413158304190460151678519773396612860927893835780829555025843016363nat, modulus());
    lemma_mpow_next(7, 21281740394251204771717316146284683680249079nat, 48293371682413158304190460151678519773396612860927893835780829555025843016363nat, 1, 7711586828467458287917241353207258724720985363006598297277398793700755282669nat, modulus());
}

/// Squarings 145 to 160 of the power below.
#[verifier::spinoff_prover]
#[verifier::rlimit(50)]
proof fn lemma_pow_order_by_254760293_part9()
    requires
        mpow(7, 42563480788502409543434632292569367360498159nat, modulus()) == 7711586828467458287917241353207258724720985363006598297277398793700755282669nat,
    ensures
        mpow(7, 2789440276955293911838532061925826059337607390591nat, modulus()) == 13634453969168746390491701476513047172331478102601358197132123043942628594921nat,
{
    lemma_mpow_next(7, 42563480788502409543434632292569367360498159nat, 7711586828467458287917241353207258724720985363006598297277398793700755282669nat, 1, 20210187357457106483234298518746807334417513027065235028322281157708630014632nat, modulus());
    lemma_mpow_next(7, 85126961577004819086869264585138734720996319nat, 20210187357457106483234298518746807334417513027065235028322281157708630014632nat, 0, 33013624967411112601457131172790572016645909764032378757398589592690623510205nat, modulus());
    lemma_mpow_next(7, 170253923154009638173738529170277469441992638nat, 33013624967411112601457131172790572016645909764032378757398589592690623510205nat, 1, 20829481458155351972050370089917152155814136357065284541285162951305535180012nat, modulus());
    lemma_mpow_next(7, 340507846308019276347477058340554938883985277nat, 20829481458155351972050370089917152155814136357065284541285162951305535180012nat, 0, 16033568912988325449758941195963268585593088828718106282809147957538699382704nat, modulus());
    lemma_mpow_next(7, 681015692616038552694954116681109877767970554nat, 16033568912988325449758941195963268585593088828718106282809147957538699382704nat, 0, 11318100503891073348393310399129477998228544635213021851985731184877341824661nat, modulus());
    lemma_mpow_next(7, 1362031385232077105389908233362219755535941108nat, 11318100503891073348393310399129477998228544635213021851985731184877341824661nat, 1, 42299011020509479816628643773310809617338751461251450398971875200396166853863nat, modulus());
    lemma_mpow_next(7, 2724062770464154210779816466724439511071882217nat, 42299011020509479816628643773310809617338751461251450398971875200396166853863nat, 0, 28455254347748834666631111987548304833948056312782823013944724442257662974785nat, modulus());
    lemma_mpow_next(7, 5448125540928308421559632933448879022143764434nat, 28455254347748834666631111987548304833948056312782823013944724442257662974785nat, 1, 23066731978812238514622423610554454459304743106880052312721148951016089601625nat, modulus());
    lemma_mpow_next(7, 10896251081856616843119265866897758044287528869nat, 23066731978812238514622423610554454459304743106880052312721148951016089601625nat, 0, 33666987207820986607872252062977869580677841966324452025326379502871388420887nat, modulus());
    lemma_mpow_next(7, 21792502163713233686238531733795516088575057738nat, 33666987207820986607872252062977869580677841966324452025326379502871388420887nat, 1, 7244927850560686347409535649993685741832681747594540117894496677524353051725nat, modulus());
    lemma_mpow_next(7, 43585004327426467372477063467591032177150115477nat, 7244927850560686347409535649993685741832681747594540117894496677524353051725nat, 1, 28277583345719124322819091355796341683374388271926630063202056304585213001743nat, modulus());
    lemma_mpow_next(7, 87170008654852934744954126935182064354300230955nat, 28277583345719124322819091355796341683374388271926630063202056304585213001743nat, 1, 1687051882600108397929219890949973924340936669507337477070342731022658569186nat, modulus());
    lemma_mpow_next(7, 174340017309705869489908253870364128708600461911nat, 1687051882600108397929219890949973924340936669507337477070342731022658569186nat, 1, 24521773793616101256567584802358214969120491908607272432114744203890078182766nat, modulus());
    lemma_mpow_next(7, 348680034619411738979816507740728257417200923823nat, 24521773793616101256567584802358214969120491908607272432114744203890078182766nat, 1, 39650387505808357018288952290034474281512811532053020013879050702407842915639nat, modulus());
    lemma_mpow_next(7, 697360069238823477959633015481456514834401847647nat, 39650387505808357018288952290034474281512811532053020013879050702407842915639nat, 1, 1842514067819330652082267482852222733917859520882460844285990521231718482722nat, modulus());
    lemma_mpow_next(7, 1394720138477646955919266030962913029668803695295nat, 1842514067819330652082267482852222733917859520882460844285990521231718482722nat, 1, 13634453969168746390491701476513047172331478102601358197132123043942628594921nat, modulus());
}

/// Squarings 161 to 176 of the power below.
#[verifier::spinoff_prover]
#[verifier::rlimit(50)]
proof fn lemma_pow_order_by_254760293_part10()
    requires
        mpow(7, 2789440276955293911838532061925826059337607390591nat, modulus()) == 13634453969168746390491701476513047172331478102601358197132123043942628594921nat,
    ensures
        mpow(7, 182808757990542141806250037210370936624749437949837308nat, modulus()) == 30557464881826343875138601049106306089965802291297181931359655082300366046530nat,
{
    lemma_mpow_next(7, 2789440276955293911838532061925826059337607390591nat, 13634453969168746390491701476513047172331478102601358197132123043942628594921nat, 1, 35415648349394416476512930200573659137077273092331068692360146474293146179450nat, modulus());
    lemma_mpow_next(7, 5578880553910587823677064123851652118675214781183nat, 35415648349394416476512930200573659137077273092331068692360146474293146179450nat, 1, 20594939624779519527325146974380068934811683043353053614409997502202930513773nat, modulus());
    lemma_mpow_next(7, 11157761107821175647354128247703304237350429562367nat, 20594939624779519527325146974380068934811683043353053614409997502202930513773nat, 1, 6631064626543422947216467554092761908907653232349595879840493475701551526304nat, modulus());
    lemma_mpow_next(7, 22315522215642351294708256495406608474700859124735nat, 6631064626543422947216467554092761908907653232349595879840493475701551526304nat, 1, 20113669225331843300081484609386022127889809205647166391080187444640182893871nat, modulus());
    lemma_mpow_next(7, 44631044431284702589416512990813216949401718249471nat, 20113669225331843300081484609386022127889809205647166391080187444640182893871nat, 1, 23822382972592852665440261794690649389849534815438973257070380555546501566342nat, modulus());
    lemma_mpow_next(7, 89262088862569405178833025981626433898803436498943nat, 23822382972592852665440261794690649389849534815438973257070380555546501566342nat, 1, 4349073768673666061723694874851425833317461154648142194196106116647289125821nat, modulus());
    lemma_mpow_next(7, 178524177725138810357666051963252867797606872997887nat, 4349073768673666061723694874851425833317461154648142194196106116647289125821nat, 1, 42212771227758661142560024797897618205478765498337343891714032657315033579087nat, modulus());
    lemma_mpow_next(7, 357048355450277620715332103926505735595213745995775nat, 42212771227758661142560024797897618205478765498337343891714032657315033579087nat, 1, 28071918843915235891236266729605315712770473019611228463798506644109986149711nat, modulus());
    lemma_mpow_next(7, 714096710900555241430664207853011471190427491991551nat, 28071918843915235891236266729605315712770473019611228463798506644109986149711nat, 1, 30634843687701179066667280279722696947407827389324408117844885598831321151551nat, modulus());
    lemma_mpow_next(7, 1428193421801110482861328415706022942380854983983103nat, 30634843687701179066667280279722696947407827389324408117844885598831321151551nat, 1, 27960865809603044835540206783095022297004544833188352435108535679856998093348nat, modulus());
    lemma_mpow_next(7, 2856386843602220965722656831412045884761709967966207nat, 27960865809603044835540206783095022297004544833188352435108535679856998093348nat, 1, 12292006174030289534205699695997115494105415450167354651022919625342710318754nat, modulus());
    lemma_mpow_next(7, 5712773687204441931445313662824091769523419935932415nat, 12292006174030289534205699695997115494105415450167354651022919625342710318754nat, 1, 49505261198206741400365416786473036069047462752378330816884132308623046234961nat, modulus());
    lemma_mpow_next(7, 11425547374408883862890627325648183539046839871864831nat, 49505261198206741400365416786473036069047462752378330816884132308623046234961nat, 1, 1079003154450498651927053115726055368533532839260736549476878178066910233010nat, modulus());
    lemma_mpow_next(7, 22851094748817767725781254651296367078093679743729663nat, 1079003154450498651927053115726055368533532839260736549476878178066910233010nat, 1, 42577727337734896104243597525050445383673795415915596971732889779143351082211nat, modulus());
    lemma_mpow_next(7, 45702189497635535451562509302592734156187359487459327nat, 42577727337734896104243597525050445383673795415915596971732889779143351082211nat, 0, 14434345846871133362802951698748828322480882874643980442924904953561733139962nat, modulus());
    lemma_mpow_next(7, 91404378995271070903125018605185468312374718974918654nat, 14434345846871133362802951698748828322480882874643980442924904953561733139962nat, 0, 30557464881826343875138601049106306089965802291297181931359655082300366046530nat, modulus());
}

/// Squarings 177 to 192 of the power below.
#[verifier::spinoff_prover]
#[verifier::rlimit(50)]
proof fn lemma_pow_order_by_254760293_part11()
    requires
        mpow(7, 182808757990542141806250037210370936624749437949837308nat, modulus()) == 30557464881826343875138601049106306089965802291297181931359655082300366046530nat,
    ensures
        mpow(7, 11980554763668169805414402438618869702639579165480537852644nat, modulus()) == 45340801796243634607588215070096464471180100868090759338511049298495189633612nat,
{
    lemma_mpow_next(7, 182808757990542141806250037210370936624749437949837308nat, 30557464881826343875138601049106306089965802291297181931359655082300366046530nat, 1, 10805265658072385790323248773041739079425506693176136001817163304681774527770nat, modulus());
    lemma_mpow_next(7, 365617515981084283612500074420741873249498875899674617nat, 10805265658072385790323248773041739079425506693176136001817163304681774527770nat, 0, 9998045243146249384295327132335966963491418674869775587914679440554593285325nat, modulus());
    lemma_mpow_next(7, 731235031962168567225000148841483746498997751799349234nat, 9998045243146249384295327132335966963491418674869775587914679440554593285325nat, 0, 23102070950730366305682119838119692978133537957113185390112484453858604950686nat, modulus());
    lemma_mpow_next(7, 1462470063924337134450000297682967492997995503598698468nat, 23102070950730366305682119838119692978133537957113185390112484453858604950686nat, 0, 51224945385616949388028969759158216689191775752862138607883005578443673002542nat, modulus());
    lemma_mpow_next(7, 2924940127848674268900000595365934985995991007197396936nat, 51224945385616949388028969759158216689191775752862138607883005578443673002542nat, 1, 27834662600197871542236405456304800684566706084727670951209133063600980843330nat, modulus());
    lemma_mpow_next(7, 5849880255697348537800001190731869971991982014394793873nat, 27834662600197871542236405456304800684566706084727670951209133063600980843330nat, 0, 38096256014954997888533939867314590867689578345316726737646371062280281523671nat, modulus());
    lemma_mpow_next(7, 11699760511394697075600002381463739943983964028789587746nat, 38096256014954997888533939867314590867689578345316726737646371062280281523671nat, 1, 4708872491187904109813814686184120806228724163022145469184374341804597097192nat, modulus());
    lemma_mpow_next(7, 23399521022789394151200004762927479887967928057579175493nat, 4708872491187904109813814686184120806228724163022145469184374341804597097192nat, 0, 25356887205428439013706757453423499647623995863928017104435653744512720525815nat, modulus());
    lemma_mpow_next(7, 46799042045578788302400009525854959775935856115158350986nat, 25356887205428439013706757453423499647623995863928017104435653744512720525815nat, 1, 16520140614740329404451889953941001257981419451610626664373679181134862879342nat, modulus());
    lemma_mpow_next(7, 93598084091157576604800019051709919551871712230316701973nat, 16520140614740329404451889953941001257981419451610626664373679181134862879342nat, 1, 29817548041671566964242051238959991770051058195859306311589663671565428236479nat, modulus());
    lemma_mpow_next(7, 187196168182315153209600038103419839103743424460633403947nat, 29817548041671566964242051238959991770051058195859306311589663671565428236479nat, 1, 19303520537295331990730164795618743235685877585813868177153089718776964548760nat, modulus());
    lemma_mpow_next(7, 374392336364630306419200076206839678207486848921266807895nat, 19303520537295331990730164795618743235685877585813868177153089718776964548760nat, 0, 30061877753803895265876828885615168704649443991818461787963814620828312895701nat, modulus());
    lemma_mpow_next(7, 748784672729260612838400152413679356414973697842533615790nat, 30061877753803895265876828885615168704649443991818461787963814620828312895701nat, 0, 32790988783922564097193161552672166136968360872881887880436197292589453503765nat, modulus());
    lemma_mpow_next(7, 1497569345458521225676800304827358712829947395685067231580nat, 32790988783922564097193161552672166136968360872881887880436197292589453503765nat, 1, 28396730841353300515832588753109511763241126253837632361797703837334120175830nat, modulus());
    lemma_mpow_next(7, 2995138690917042451353600609654717425659894791370134463161nat, 28396730841353300515832588753109511763241126253837632361797703837334120175830nat, 0, 11547203792316033581086477923056554985158942492554573929082779249607338579421nat, modulus());
    lemma_mpow_next(7, 5990277381834084902707201219309434851319789582740268926322nat, 11547203792316033581086477923056554985158942492554573929082779249607338579421nat, 0, 45340801796243634607588215070096464471180100868090759338511049298495189633612nat, modulus());
}

/// Squarings 193 to 208 of the power below.
#[verifier::spinoff_prover]
#[verifier::rlimit(50)]
proof fn lemma_pow_order_by_254760293_part12()
    requires
        mpow(7, 11980554763668169805414402438618869702639579165480537852644nat, modulus()) == 45340801796243634607588215070096464471180100868090759338511049298495189633612nat,
    ensures
        mpow(7, 785157636991757176367638278217326244832187460188932528710926336nat, modulus()) == 12266371090847718837092759721366717201389317066288943656867879159630190408055nat,
{
    lemma_mpow_next(7, 11980554763668169805414402438618869702639579165480537852644nat, 45340801796243634607588215070096464471180100868090759338511049298495189633612nat, 1, 9833456297300957937841901376927344908790635160778699916428478864516980568200nat, modulus());
    lemma_mpow_next(7, 23961109527336339610828804877237739405279158330961075705289nat, 9833456297300957937841901376927344908790635160778699916428478864516980568200nat, 1, 20185514402005296197732392092418078268098192751124291392689521086553736241nat, modulus());
    lemma_mpow_next(7, 47922219054672679221657609754475478810558316661922151410579nat, 20185514402005296197732392092418078268098192751124291392689521086553736241nat, 0, 41227223974805170423557799151060365208133836183497262508679815433881814256453nat, modulus());
    lemma_mpow_next(7, 95844438109345358443315219508950957621116633323844302821158nat, 41227223974805170423557799151060365208133836183497262508679815433881814256453nat, 0, 32097736462362078553638811412439997369751521304448718601250504209970865095349nat, modulus());
    lemma_mpow_next(7, 191688876218690716886630439017901915242233266647688605642316nat, 32097736462362078553638811412439997369751521304448718601250504209970865095349nat, 0, 42172231178352806015129103146922067302265151507645815071739766515555549932035nat, modulus());
    lemma_mpow_next(7, 383377752437381433773260878035803830484466533295377211284632nat, 42172231178352806015129103146922067302265151507645815071739766515555549932035nat, 0, 33643158607898743348016099612363034240719788202559898700478170872000866860670nat, modulus());
    lemma_mpow_next(7, 766755504874762867546521756071607660968933066590754422569264nat, 33643158607898743348016099612363034240719788202559898700478170872000866860670nat, 0, 34936358681848608375488180664228272652506365713174798625041920790110668472604nat, modulus());
    lemma_mpow_next(7, 1533511009749525735093043512143215321937866133181508845138528nat, 34936358681848608375488180664228272652506365713174798625041920790110668472604nat, 0, 49773798469385934487635395834240299224076760804576223863190829706794273012301nat, modulus());
    lemma_mpow_next(7, 3067022019499051470186087024286430643875732266363017690277056nat, 49773798469385934487635395834240299224076760804576223863190829706794273012301nat, 0, 24530270384347816388035689024863703841056795225371683272955027535806852859458nat, modulus());
    lemma_mpow_next(7, 6134044038998102940372174048572861287751464532726035380554112nat, 24530270384347816388035689024863703841056795225371683272955027535806852859458nat, 0, 35418373229686838754427143613871672288522899350367009784616300066090679644081nat, modulus());
    lemma_mpow_next(7, 12268088077996205880744348097145722575502929065452070761108224nat, 35418373229686838754427143613871672288522899350367009784616300066090679644081nat, 0, 25185744012612201487403892518936821590529051611440191572174316937858061901111nat, modulus());
    lemma_mpow_next(7, 24536176155992411761488696194291445151005858130904141522216448nat, 25185744012612201487403892518936821590529051611440191572174316937858061901111nat, 0, 47934732087400836383342211041702988503550978170551346135454011098508922878613nat, modulus());
    lemma_mpow_next(7, 49072352311984823522977392388582890302011716261808283044432896nat, 47934732087400836383342211041702988503550978170551346135454011098508922878613nat, 0, 38072246963544891347558235879658671861957314678047018311813632044175843602976nat, modulus());
    lemma_mpow_next(7, 98144704623969647045954784777165780604023432523616566088865792nat, 38072246963544891347558235879658671861957314678047018311813632044175843602976nat, 0, 42824859018833873425300883562795056428655412011731700660373723829006641105842nat, modulus());
    lemma_mpow_next(7, 196289409247939294091909569554331561208046865047233132177731584nat, 42824859018833873425300883562795056428655412011731700660373723829006641105842nat, 0, 20837601868554985470815211956856982817320101796370673451191290926089683621848nat, modulus());
    lemma_mpow_next(7, 392578818495878588183819139108663122416093730094466264355463168nat, 20837601868554985470815211956856982817320101796370673451191290926089683621848nat, 0, 12266371090847718837092759721366717201389317066288943656867879159630190408055nat, modulus());
}

/// Squarings 209 to 224 of the power below.
#[verifier::spinoff_prover]
#[verifier::rlimit(50)]
proof fn lemma_pow_order_by_254760293_part13()
    requires
        mpow(7, 785157636991757176367638278217326244832187460188932528710926336nat, modulus()) == 12266371090847718837092759721366717201389317066288943656867879159630190408055nat,
    ensures
        mpow(7, 51456090897891798310429542201250692781322237390941882201599268356096nat, modulus()) == 34887814708530164599415385329454865388962753496480505454112840122897882706569nat,
{
    lemma_mpow_next(7, 785157636991757176367638278217326244832187460188932528710926336nat, 12266371090847718837092759721366717201389317066288943656867879159630190408055nat, 0, 43492252211845927628876260944295709009503104115761569840791897751819544941691nat, modulus());
    lemma_mpow_next(7, 1570315273983514352735276556434652489664374920377865057421852672nat, 43492252211845927628876260944295709009503104115761569840791897751819544941691nat, 0, 38437353870610806859944175797989633249630745625468774935486266765963404667122nat, modulus());
    lemma_mpow_next(7, 3140630547967028705470553112869304979328749840755730114843705344nat, 38437353870610806859944175797989633249630745625468774935486266765963404667122nat, 0, 13943048027686207398002576123347254705933250080044095356182680499659927486373nat, modulus());
    lemma_mpow_next(7, 6281261095934057410941106225738609958657499681511460229687410688nat, 13943048027686207398002576123347254705933250080044095356182680499659927486373nat, 0, 26447408185169421003413984210615012229502537519285977519202170421140664578093nat, modulus());
    lemma_mpow_next(7, 12562522191868114821882212451477219917314999363022920459374821376nat, 26447408185169421003413984210615012229502537519285977519202170421140664578093nat, 0, 31132346321031922533093144303549155318518680787163867112259903497039338581039nat, modulus());
    lemma_mpow_next(7, 25125044383736229643764424902954439834629998726045840918749642752nat, 31132346321031922533093144303549155318518680787163867112259903497039338581039nat, 0, 11284591377853140837622643071311150446672703972040736653249833977813575427136nat, modulus());
    lemma_mpow_next(7, 50250088767472459287528849805908879669259997452091681837499285504nat, 11284591377853140837622643071311150446672703972040736653249833977813575427136nat, 0, 39831025939194960841110313563404672168754134772942969321722930311853994087435nat, modulus());
    lemma_mpow_next(7, 100500177534944918575057699611817759338519994904183363674998571008nat, 39831025939194960841110313563404672168754134772942969321722930311853994087435nat, 0, 13956939847379236786249498280633975715959092306905928666698685916328032230568nat, modulus());
    lemma_mpow_next(7, 201000355069889837150115399223635518677039989808366727349997142016nat, 13956939847379236786249498280633975715959092306905928666698685916328032230568nat, 0, 32469517116555730205185035827806623334817682151137599229488018856125315622713nat, modulus());
    lemma_mpow_next(7, 402000710139779674300230798447271037354079979616733454699994284032nat, 32469517116555730205185035827806623334817682151137599229488018856125315622713nat, 0, 30719114030940530404648074003882539571391753162157075115683788544803000682535nat, modulus());
    lemma_mpow_next(7, 804001420279559348600461596894542074708159959233466909399988568064nat, 30719114030940530404648074003882539571391753162157075115683788544803000682535nat, 0, 24923588803642478746806778090405291744859633635685509042762814241310610424406nat, modulus());
    lemma_mpow_next(7, 1608002840559118697200923193789084149416319918466933818799977136128nat, 24923588803642478746806778090405291744859633635685509042762814241310610424406nat, 0, 25215758229949098013681135535181067258859265088415932086640164243863774642227nat, modulus());
    lemma_mpow_next(7, 3216005681118237394401846387578168298832639836933867637599954272256nat, 25215758229949098013681135535181067258859265088415932086640164243863774642227nat, 0, 42580663852889691099153644772251568463271048541950617420327130218056132597523nat, modulus());
    lemma_mpow_next(7, 6432011362236474788803692775156336597665279673867735275199908544512nat, 42580663852889691099153644772251568463271048541950617420327130218056132597523nat, 0, 7281475755057073774527455207658125997236629727086492965541976256518448504984nat, modulus());
    lemma_mpow_next(7, 12864022724472949577607385550312673195330559347735470550399817089024nat, 7281475755057073774527455207658125997236629727086492965541976256518448504984nat, 0, 24181741972018227353209143708587018663977192251082440505634382134625170401259nat, modulus());
    lemma_mpow_next(7, 25728045448945899155214771100625346390661118695470941100799634178048nat, 24181741972018227353209143708587018663977192251082440505634382134625170401259nat, 0, 34887814708530164599415385329454865388962753496480505454112840122897882706569nat, modulus());
}

/// Squarings 225 to 226 of the power below.
#[verifier::spinoff_prover]
#[verifier::rlimit(50)]
proof fn lemma_pow_order_by_254760293_part14()
    requires
        mpow(7, 51456090897891798310429542201250692781322237390941882201599268356096nat, modulus()) == 34887814708530164599415385329454865388962753496480505454112840122897882706569nat,
    ensures
        mpow(7, 205824363591567193241718168805002771125288949563767528806397073424384nat, modulus()) == 33687332884818246042130531625579405929702965388080887080561063062884226819407nat,
{
    lemma_mpow_next(7, 51456090897891798310429542201250692781322237390941882201599268356096nat, 34887814708530164599415385329454865388962753496480505454112840122897882706569nat, 0, 2332697808712383360824558253755304344136829872447311122056844560543882933962nat, modulus());
    lemma_mpow_next(7, 102912181795783596620859084402501385562644474781883764403198536712192nat, 2332697808712383360824558253755304344136829872447311122056844560543882933962nat, 0, 33687332884818246042130531625579405929702965388080887080561063062884226819407nat, modulus());
}

/// The generator to the power `(n - 1) / 254760293` modulo the field order `n`.
proof fn lemma_pow_order_by_254760293()
    ensures
        mpow(7, 205824363591567193241718168805002771125288949563767528806397073424384nat, modulus()) == 33687332884818246042130531625579405929702965388080887080561063062884226819407nat,
{
    lemma_mpow_first(7, modulus());
    lemma_pow_order_by_254760293_part0();
    lemma_pow_order_by_254760293_part1();
    lemma_pow_order_by_254760293_part2();
    lemma_pow_order_by_254760293_part3();
    lemma_pow_order_by_254760293_part4();
    lemma_pow_order_by_254760293_part5();
    lemma_pow_order_by_254760293_part6();
    lemma_pow_order_by_254760293_part7();
    lemma_pow_order_by_254760293_part8();
    lemma_pow_order_by_254760293_part9();
    lemma_pow_order_by_254760293_part10();
    lemma_pow_order_by_254760293_part11();
    lemma_pow_order_by_254760293_part12();
    lemma_pow_order_by_254760293_part13();
    lemma_pow_order_by_254760293_part14();
}

/// Every nonzero residue modulo the field order is a unit, by Lucas's criterion with `7`.
#[verifier::spinoff_prover]
pub proof fn lemma_field_order()
    ensures
        field_mod(modulus()),
{
    lemma_field_2();
    lemma_field_3();
    lemma_field_11();
    lemma_field_19();
    lemma_field_10177();
    lemma_field_125527();
    lemma_field_859267();
    lemma_field_906349();
    lemma_field_2508409();
    lemma_field_2529403();
    lemma_field_52437899();
    lemma_field_254760293();
    lemma_pow_order_by_2();
    lemma_pow_order_by_3();
    lemma_pow_order_by_11();
    lemma_pow_order_by_19();
    lemma_pow_order_by_10177();
    lemma_pow_order_by_125527();
    lemma_pow_order_by_859267();
    lemma_pow_order_by_906349();
    lemma_pow_order_by_2508409();
    lemma_pow_order_by_2529403();
    lemma_pow_order_by_52437899();
    lemma_pow_order_by_254760293();
    lemma_mpow_mul(7, 26217937587563095239723870254092982918845276250263818911301829349969290592256nat, 2, modulus());
    lemma_mpow_first(52435875175126190479447740508185965837690552500527637822603658699938581184512nat, modulus());
    lemma_mpow_next(52435875175126190479447740508185965837690552500527637822603658699938581184512nat, 1, 52435875175126190479447740508185965837690552500527637822603658699938581184512nat, 0, 1, modulus());
    let fl = |i: int| if i < 32 { 2nat } else if i < 33 { 3nat } else if i < 34 { 11nat } else if i < 35 { 19nat } else if i < 36 { 10177nat } else if i < 37 { 125527nat } else if i < 38 { 859267nat } else if i < 40 { 906349nat } else if i < 41 { 2508409nat } else if i < 42 { 2529403nat } else if i < 43 { 52437899nat } else { 254760293nat };
    assert(iprod(0, fl) == 1);
    lemma_iprod_next(0, fl, 1, 2);
    lemma_iprod_next(1, fl, 2, 2);
    lemma_iprod_next(2, fl, 4, 2);
    lemma_iprod_next(3, fl, 8, 2);
    lemma_iprod_next(4, fl, 16, 2);
    lemma_iprod_next(5, fl, 32, 2);
    lemma_iprod_next(6, fl, 64, 2);
    lemma_iprod_next(7, fl, 128, 2);
    lemma_iprod_next(8, fl, 256, 2);
    lemma_iprod_next(9, fl, 512, 2);
    lemma_iprod_next(10, fl, 1024, 2);
    lemma_iprod_next(11, fl, 2048, 2);
    lemma_iprod_next(12, fl, 4096, 2);
    lemma_iprod_next(13, fl, 8192, 2);
    lemma_iprod_next(14, fl, 16384, 2);
    lemma_iprod_next(15, fl, 32768, 2);
    lemma_iprod_next(16, fl, 65536, 2);
    lemma_iprod_next(17, fl, 131072, 2);
    lemma_iprod_next(18, fl, 262144, 2);
    lemma_iprod_next(19, fl, 524288, 2);
    lemma_iprod_next(20, fl, 1048576, 2);
    lemma_iprod_next(21, fl, 2097152, 2);
    lemma_iprod_next(22, fl, 4194304, 2);
    lemma_iprod_next(23, fl, 8388608, 2);
    lemma_iprod_next(24, fl, 16777216, 2);
    lemma_iprod_next(25, fl, 33554432, 2);
    lemma_iprod_next(26, fl, 67108864, 2);
    lemma_iprod_next(27, fl, 134217728, 2);
    lemma_iprod_next(28, fl, 268435456, 2);
    lemma_iprod_next(29, fl, 536870912, 2);
    lemma_iprod_next(30, fl, 1073741824, 2);
    lemma_iprod_next(31, fl, 2147483648, 2);
    lemma_iprod_next(32, fl, 4294967296, 3);
    lemma_iprod_next(33, fl, 12884901888, 11);
    lemma_iprod_next(34, fl, 141733920768, 19);
    lemma_iprod_next(35, fl, 2692944494592, 10177);
    lemma_iprod_next(36, fl, 27406096121462784, 125527);
    lemma_iprod_next(37, fl, 3440205027838858887168nat, 859267);
    lemma_iprod_next(38, fl, 2956054653656012759400185856nat, 906349);
    lemma_iprod_next(39, fl, 2679217179286473508469599050399744nat, 906349);
    lemma_iprod_next(40, fl, 2428305811229115977927912629730757574656nat, 2508409);
    lemma_iprod_next(41, fl, 6091184151639415581078177391630299877085282304nat, 2529403);
    lemma_iprod_next(42, fl, 15407059466709192689025885128921855399999144315584512nat, 52437899);
    lemma_iprod_next(43, fl, 807913828202290508598677772776006232357759729707044766220288nat, 254760293);
    lemma_iprod_next(44, fl, 205824363591567193241718168805002771125288949563767528806397073424384nat, 254760293);
    assert forall|j: int| 0 <= j < 45 implies field_mod(#[trigger] fl(j)) && mpow(7, ((modulus() - 1) as nat / fl(j)) as nat, modulus()) != 1 by {
        if j < 32 {
            assert(fl(j) == 2);
            assert((modulus() - 1) as nat / 2 == 26217937587563095239723870254092982918845276250263818911301829349969290592256nat);
        } else if j < 33 {
            assert(fl(j) == 3);
            assert((modulus() - 1) as nat / 3 == 17478625058375396826482580169395321945896850833509212607534552899979527061504nat);
        } else if j < 34 {
            assert(fl(j) == 11);
            assert((modulus() - 1) as nat / 11 == 4766897743193290043586158228016905985244595681866148892963968972721689198592nat);
        } else if j < 35 {
            assert(fl(j) == 19);
            assert((modulus() - 1) as nat / 19 == 2759782903954010025234091605693998201983713289501454622242297826312556904448nat);
        } else if j < 36 {
            assert(fl(j) == 10177);
            assert((modulus() - 1) as nat / 10177 == 5152390210781781515127025695999407078479959958782316775336902692339449856nat);
        } else if j < 37 {
            assert(fl(j) == 125527);
            assert((modulus() - 1) as nat / 125527 == 417725869136729074059347714102830194601086240414633009811464136798765056nat);
        } else if j < 38 {
            assert(fl(j) == 859267);
            assert((modulus() - 1) as nat / 859267 == 61023960160376449321861238134579782346686830170980193377150127608692736nat);
        } else if j < 40 {
            assert(fl(j) == 906349);
            assert((modulus() - 1) as nat / 906349 == 57853956009358636109763171259841369977448590444219211167666824479244288nat);
        } else if j < 41 {
            assert(fl(j) == 2508409);
            assert((modulus() - 1) as nat / 2508409 == 20904037250355181503274681484632675866531555460264908084209416686010368nat);
        } else if j < 42 {
            assert(fl(j) == 2529403);
            assert((modulus() - 1) as nat / 2529403 == 20730534112249487519168649878325425342537568153642435714120548880482304nat);
        } else if j < 43 {
            assert(fl(j) == 52437899);
            assert((modulus() - 1) as nat / 52437899 == 999961405302035279473110478895921551656570994587857873989262207090688nat);
        } else {
            assert(fl(j) == 254760293);
            assert((modulus() - 1) as nat / 254760293 == 205824363591567193241718168805002771125288949563767528806397073424384nat);
        }
    }
    lemma_lucas(modulus(), 7, fl, 45);
}

} // verus!
