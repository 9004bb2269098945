//! SumFold: folding `m = 2^L` SumCheck instances that share one structure into a
//! single instance, with a SumCheck over the `L` instance-index variables.
//!
//! The `j`-th tables of the instances are interleaved into one table in `L + n`
//! variables whose lowest `L` variables pick the instance. The prover runs `L`
//! rounds weighted by `eq(rho, b)` and folds the instances with the weights
//! `eq(r_b, i)` of the challenge point `r_b`.

use vstd::prelude::*;
use vstd::arithmetic::div_mod::*;
use vstd::arithmetic::mul::*;
use vstd::arithmetic::power2::*;
use vstd::string::StringSliceAdditionalSpecFns;
use crate::algebra::has_inverse;
use crate::field::{
    Fe, fadd, fe_vals, finv, fmul, fsub, fsum, lemma_fsum_ext, lemma_fsum_new_step, modulus,
};
use crate::poly::{
    AuxInfo, Mle, VirtualPolynomial, block_weighted, build_eq_x_r_vec, copy_indices, copy_vec,
    eq_evaluate, eq_eval, eq_vec, fix_all, fix_many, fix_one, interpolate_uni_poly, interpolation,
    lagrange_defined, lemma_eq_vec_len, lemma_fix_many_weighted, lin_at, mle_tables, product_vals,
    products_wf, tables_sized,
};
use crate::sumcheck::{
    IOPProof, IOPProverMessage, PolyIOPErrors, RoundState, aux_bytes, aux_label, degree_fits,
    msg_vals, opt_vals, prove_rounds, run_rounds, serialize_aux, table_vals,
};
use crate::transcript::{
    IOPTranscript, TranscriptOp, challenge_values, message_op, ops_after_challenges,
};

verus! {

// ---------------------------------------------------------------------------
// Specification
// ---------------------------------------------------------------------------

/// The tables of every instance.
pub open spec fn instance_tables(polys: Seq<VirtualPolynomial>) -> Seq<Seq<Seq<nat>>> {
    polys.map_values(|p: VirtualPolynomial| p.tables())
}

/// The `j`-th tables of the `m` instances interleaved: entry `x m + i` is entry `x`
/// of instance `i`.
pub open spec fn interleave(ps: Seq<Seq<Seq<nat>>>, j: int, m: nat, size: nat) -> Seq<nat> {
    Seq::new(m * size, |idx: int| ps[idx % (m as int)][j][idx / (m as int)])
}

/// The `t` interleaved tables.
pub open spec fn interleaved_tables(ps: Seq<Seq<Seq<nat>>>, t: nat, m: nat, size: nat) -> Seq<Seq<nat>> {
    Seq::new(t, |j: int| interleave(ps, j, m, size))
}

/// The `j`-th tables of the `m` instances combined with weights `w`: entry `x` is
/// `sum_i w_i * f_i(x)`.
pub open spec fn weighted_table(ps: Seq<Seq<Seq<nat>>>, j: int, w: Seq<nat>, m: nat, size: nat) -> Seq<nat> {
    Seq::new(size, |x: int| fsum(Seq::new(m, |i: int| fmul(w[i], ps[i][j][x]))))
}

/// The `t` folded tables.
pub open spec fn folded_tables(ps: Seq<Seq<Seq<nat>>>, t: nat, w: Seq<nat>, m: nat, size: nat) -> Seq<Seq<nat>> {
    Seq::new(t, |j: int| weighted_table(ps, j, w, m, size))
}

/// `sum_i eq(rho, i) * sums_i`.
pub open spec fn folded_sum(w: Seq<nat>, sums: Seq<nat>, m: nat) -> nat {
    fsum(Seq::new(m, |i: int| fmul(w[i], sums[i])))
}

/// The label under which `rho` is squeezed.
pub open spec fn rho_label() -> Seq<u8> {
    "sumfold rho".spec_bytes()
}

/// The instances can be folded: at least two of them, a power of two; all in
/// the same number of variables; every instance has at least the first instance's
/// tables, each of `2^n` entries; and the interleaved hypercube fits in memory.
pub open spec fn sumfold_inputs(polys: Seq<VirtualPolynomial>, sums: Seq<Fe>, l: nat) -> bool {
    let p0 = polys[0];
    let nv = p0.aux_info.num_variables as nat;
    let t = p0.flattened_ml_extensions@.len();
    &&& polys.len() >= 2
    &&& polys.len() == pow2(l)
    &&& sums.len() >= polys.len()
    &&& p0.wf()
    &&& degree_fits(p0.aux_info.max_degree as nat + 1)
    &&& pow2(l + nv) <= usize::MAX
    &&& forall|i: int|
        0 <= i < polys.len() ==> {
            &&& (#[trigger] polys[i]).aux_info.num_variables == nv
            &&& polys[i].flattened_ml_extensions@.len() >= t
            &&& forall|j: int| 0 <= j < t ==> (#[trigger] polys[i].tables()[j]).len() == pow2(nv)
        }
}

/// The auxiliary information of the SumFold SumCheck.
pub open spec fn fold_aux(p0: VirtualPolynomial, l: nat) -> AuxInfo {
    AuxInfo { max_degree: (p0.aux_info.max_degree + 1) as usize, num_variables: l as usize }
}

/// What the SumFold prover does, given the transcript it starts from: the rho
/// challenges, and the SumCheck rounds over the interleaved tables weighted by
/// `eq(rho, .)`.
pub open spec fn sumfold_run(polys: Seq<VirtualPolynomial>, l: nat, ops: Seq<TranscriptOp>) -> (Seq<nat>, RoundState) {
    let p0 = polys[0];
    let nv = p0.aux_info.num_variables as nat;
    let ops1 = ops.push(message_op(aux_label(), aux_bytes(fold_aux(p0, l))));
    let rho = challenge_values(ops1, rho_label(), l);
    let ops2 = ops_after_challenges(ops1, rho_label(), l);
    let s = run_rounds(
        interleaved_tables(instance_tables(polys), p0.flattened_ml_extensions@.len() as nat, polys.len(), pow2(nv)),
        Some(eq_vec(rho)),
        p0.prods(),
        p0.aux_info.max_degree as nat + 1,
        pow2(l + nv),
        ops2,
        l,
    );
    (rho, s)
}

/// The last round polynomial can be interpolated and `eq(rho, r_b)` has an
/// inverse.
pub open spec fn sumfold_defined(rho: Seq<nat>, s: RoundState, deg: nat) -> bool {
    lagrange_defined(deg + 2) && has_inverse(eq_eval(rho, s.chals))
}

/// SumFold succeeds unless `eq(rho, r_b)` is zero.
pub open spec fn sumfold_succeeds(rho: Seq<nat>, s: RoundState, deg: nat) -> bool {
    eq_eval(rho, s.chals) != 0
}

/// The field order being prime, interpolation through up to as many points as it
/// has elements is defined and only zero lacks an inverse.
pub proof fn lemma_sumfold_defined(rho: Seq<nat>, s: RoundState, deg: nat)
    requires
        deg + 2 <= modulus(),
    ensures
        sumfold_defined(rho, s, deg) <==> sumfold_succeeds(rho, s, deg),
{
    crate::upoly::lemma_lagrange_defined(deg + 2);
    let e = eq_eval(rho, s.chals);
    crate::algebra::lemma_fprod_bound(Seq::new(rho.len(), |i: int| crate::poly::eq_term(rho[i], s.chals[i])));
    if e != 0 {
        lemma_small_mod(e, modulus());
        crate::upoly::lemma_nonzero_has_inverse(e);
    } else if has_inverse(e) {
        let w = choose|w: nat| crate::field::is_inverse(e, w);
        assert(0 * w == 0);
        lemma_small_mod(0, modulus());
    }
}

/// The outcome of SumFold, as promised by `sum_fold` and `sum_fold_v2`.
pub open spec fn sumfold_result(
    polys: Seq<VirtualPolynomial>,
    sums: Seq<Fe>,
    l: nat,
    ops: Seq<TranscriptOp>,
    r: Result<(IOPProof, Fe, AuxInfo, VirtualPolynomial, Fe), PolyIOPErrors>,
    final_ops: Seq<TranscriptOp>,
) -> bool {
    let p0 = polys[0];
    let nv = p0.aux_info.num_variables as nat;
    let m = polys.len();
    let t = p0.flattened_ml_extensions@.len() as nat;
    let (rho, s) = sumfold_run(polys, l, ops);
    &&& final_ops == s.ops
    &&& r is Ok <==> sumfold_succeeds(rho, s, p0.aux_info.max_degree as nat)
    &&& r matches Ok(out) ==> {
        let (proof, sum_t, q_aux, folded, v) = out;
        let c = interpolation(s.msgs[l - 1], s.chals[l - 1]);
        &&& msg_vals(proof.proofs@) == s.msgs
        &&& fe_vals(proof.point@) == s.chals
        &&& sum_t.val() == folded_sum(eq_vec(rho), fe_vals(sums), m)
        &&& q_aux == fold_aux(p0, l)
        &&& v.val() == fmul(c, finv(eq_eval(rho, s.chals)))
        &&& folded.aux_info == p0.aux_info
        &&& folded.prods() == p0.prods()
        &&& folded.tables() == folded_tables(instance_tables(polys), t, eq_vec(s.chals), m, pow2(nv))
        &&& folded.wf()
    }
    &&& r matches Err(e) ==> e == PolyIOPErrors::InvalidProver
}

/// What SumFold asks of its inputs: a power of two of instances; one instance
/// whose degree can be raised by one, or at least two that fit SumFold.
pub open spec fn sumfold_requires(polys: Seq<VirtualPolynomial>, sums: Seq<Fe>) -> bool {
    &&& is_pow2(polys.len() as nat)
    &&& polys.len() == 1 ==> polys[0].aux_info.max_degree < usize::MAX
    &&& polys.len() >= 2 ==> sumfold_inputs(polys, sums, log2_of(polys.len() as nat))
}

/// The outcome of SumFold: for one instance the transcript absorbs the auxiliary
/// information of a SumCheck in no variable and the eq table of the empty point is
/// refused; otherwise `sumfold_result`.
pub open spec fn sumfold_outcome(
    polys: Seq<VirtualPolynomial>,
    sums: Seq<Fe>,
    ops: Seq<TranscriptOp>,
    r: Result<(IOPProof, Fe, AuxInfo, VirtualPolynomial, Fe), PolyIOPErrors>,
    final_ops: Seq<TranscriptOp>,
) -> bool {
    if polys.len() == 1 {
        &&& r == Err::<(IOPProof, Fe, AuxInfo, VirtualPolynomial, Fe), PolyIOPErrors>(
            PolyIOPErrors::InvalidParameters,
        )
        &&& final_ops == ops.push(message_op(aux_label(), aux_bytes(fold_aux(polys[0], 0))))
    } else {
        sumfold_result(polys, sums, log2_of(polys.len() as nat), ops, r, final_ops)
    }
}

/// SumFold on a single instance: the auxiliary information of a SumCheck over no
/// instance variable is absorbed, no `rho` is squeezed, and the eq table of the
/// empty point is refused.
fn fold_single(polys: &Vec<VirtualPolynomial>, transcript: &mut IOPTranscript) -> (r: Result<
    (IOPProof, Fe, AuxInfo, VirtualPolynomial, Fe),
    PolyIOPErrors,
>)
    requires
        polys@.len() == 1,
        polys@[0].aux_info.max_degree < usize::MAX,
    ensures
        r == Err::<(IOPProof, Fe, AuxInfo, VirtualPolynomial, Fe), PolyIOPErrors>(
            PolyIOPErrors::InvalidParameters,
        ),
        final(transcript).ops() == old(transcript).ops().push(
            message_op(aux_label(), aux_bytes(fold_aux(polys@[0], 0))),
        ),
        !final(transcript).empty(),
{
    let q_aux = AuxInfo { max_degree: polys[0].aux_info.max_degree + 1, num_variables: 0 };
    let aux = serialize_aux(&q_aux);
    transcript.append_message("aux info".as_bytes(), aux.as_slice());
    let rho = match transcript.get_and_append_challenge_vectors("sumfold rho".as_bytes(), 0) {
        Ok(v) => v,
        Err(_) => {
            assert(false);
            Vec::new()
        },
    };
    proof {
        assert(crate::transcript::ops_after_challenges(transcript.ops(), rho_label(), 0) == transcript.ops());
        assert(fe_vals(rho@).len() == rho@.len());
        crate::transcript::lemma_challenge_values_len(transcript.ops(), rho_label(), 0);
        lemma2_to64();
    }
    match build_eq_x_r_vec(&rho) {
        Ok(_) => {
            assert(false);
            Err(PolyIOPErrors::InvalidParameters)
        },
        Err(_) => Err(PolyIOPErrors::InvalidParameters),
    }
}

// ---------------------------------------------------------------------------
// Helpers
// ---------------------------------------------------------------------------

/// The ceiling of the base-2 logarithm of `x`, zero for zero (as `ark_std::log2`
/// gives it): the least `r` with `2^r >= x`.
fn log2_ceil(x: usize) -> (r: u32)
    ensures
        x == 0 ==> r == 0,
        x > 0 ==> pow2(r as nat) >= x && (r == 0 || pow2((r - 1) as nat) < x),
{
    let mut r: u32 = 0;
    let mut p: u128 = 1;
    proof {
        lemma2_to64();
    }
    while p < x as u128
        invariant
            p == pow2(r as nat),
            p >= 1,
            r <= 64,
            p <= 2 * x + 1,
            r == 0 || pow2((r - 1) as nat) < x,
        decreases 64 - r,
    {
        proof {
            lemma_pow2_unfold((r + 1) as nat);
            lemma2_to64();
            if r == 64 {
                assert(pow2(64) == 0x1_0000_0000_0000_0000nat);
            }
        }
        p = p * 2;
        r = r + 1;
    }
    if x == 0 {
        proof {
            assert(r == 0);
        }
    }
    r
}

/// For a power of two, the ceiling of the logarithm is the exponent.
proof fn lemma_log2_of_pow2(l: nat, r: nat)
    requires
        pow2(l) >= 1,
        pow2(r) >= pow2(l),
        r == 0 || pow2((r - 1) as nat) < pow2(l),
    ensures
        r == l,
{
    if r < l {
        lemma_pow2_strictly_increases(r, l);
    } else if r > l {
        if (r - 1) as nat > l {
            lemma_pow2_strictly_increases(l, (r - 1) as nat);
        }
    }
}

/// The `j`-th tables of the instances, interleaved.
fn interleave_exec(polys: &Vec<VirtualPolynomial>, j: usize, size: usize) -> (r: Vec<Fe>)
    requires
        polys@.len() >= 1,
        polys@.len() * size <= usize::MAX,
        forall|i: int|
            0 <= i < polys@.len() ==> j < (#[trigger] polys@[i]).flattened_ml_extensions@.len()
                && polys@[i].tables()[j as int].len() == size,
    ensures
        fe_vals(r@) == interleave(instance_tables(polys@), j as int, polys@.len() as nat, size as nat),
{
    let m = polys.len();
    let ghost ps = instance_tables(polys@);
    let mut f: Vec<Fe> = Vec::new();
    let mut k: usize = 0;
    while k < size
        invariant
            m == polys@.len(),
            m >= 1,
            m * size <= usize::MAX,
            ps == instance_tables(polys@),
            forall|i: int|
                0 <= i < polys@.len() ==> j < (#[trigger] polys@[i]).flattened_ml_extensions@.len()
                    && polys@[i].tables()[j as int].len() == size,
            k <= size,
            f@.len() == k * m,
            forall|idx: int| 0 <= idx < f@.len() ==> (#[trigger] f@[idx]).val() == ps[idx % (m as int)][j as int][idx / (m as int)],
        decreases size - k,
    {
        let mut i: usize = 0;
        proof {
            lemma_mul_is_distributive_add_other_way(m as int, k as int, 1);
            lemma_mul_inequality((k + 1) as int, size as int, m as int);
        }
        while i < m
            invariant
                m == polys@.len(),
                m >= 1,
                ps == instance_tables(polys@),
                forall|i: int|
                    0 <= i < polys@.len() ==> j < (#[trigger] polys@[i]).flattened_ml_extensions@.len()
                        && polys@[i].tables()[j as int].len() == size,
                k < size,
                i <= m,
                f@.len() == k * m + i,
                (k + 1) * m <= usize::MAX,
                forall|idx: int| 0 <= idx < f@.len() ==> (#[trigger] f@[idx]).val() == ps[idx % (m as int)][j as int][idx / (m as int)],
            decreases m - i,
        {
            let ghost idx = (k * m + i) as int;
            proof {
                lemma_mul_is_commutative(k as int, m as int);
                lemma_fundamental_div_mod_converse(idx, m as int, k as int, i as int);
                assert(ps[i as int] == polys@[i as int].tables());
                assert(polys@[i as int].tables()[j as int] == fe_vals(polys@[i as int].flattened_ml_extensions@[j as int].evaluations@));
            }
            let e = polys[i].flattened_ml_extensions[j].evaluations[k];
            f.push(e);
            i = i + 1;
        }
        k = k + 1;
    }
    proof {
        lemma_mul_is_commutative(size as int, m as int);
        assert(fe_vals(f@) =~= interleave(ps, j as int, m as nat, size as nat));
    }
    f
}

/// `m` is a power of two.
pub open spec fn is_pow2(m: nat) -> bool {
    exists|k: nat| pow2(k) == m
}

/// The exponent of a power of two.
pub open spec fn log2_of(m: nat) -> nat {
    choose|k: nat| pow2(k) == m
}

/// A copy of the products of a virtual polynomial.
pub fn copy_products(ps: &Vec<(Fe, Vec<usize>)>) -> (r: Vec<(Fe, Vec<usize>)>)
    ensures
        product_vals(r@) == product_vals(ps@),
        r@.len() == ps@.len(),
{
    let mut r: Vec<(Fe, Vec<usize>)> = Vec::new();
    let mut i: usize = 0;
    while i < ps.len()
        invariant
            i <= ps@.len(),
            r@.len() == i,
            forall|k: int| 0 <= k < i ==> (#[trigger] r@[k]).0 == ps@[k].0 && r@[k].1@ == ps@[k].1@,
        decreases ps.len() - i,
    {
        r.push((ps[i].0, copy_indices(&ps[i].1)));
        i = i + 1;
    }
    assert(product_vals(r@) =~= product_vals(ps@));
    r
}

/// The sum `sum_i w_i * sums_i` for the first `m` entries.
fn folded_sum_exec(w: &Vec<Fe>, sums: &Vec<Fe>, m: usize) -> (r: Fe)
    requires
        w@.len() >= m,
        sums@.len() >= m,
    ensures
        r.val() == folded_sum(fe_vals(w@), fe_vals(sums@), m as nat),
{
    let ghost wv = fe_vals(w@);
    let ghost sv = fe_vals(sums@);
    let ghost f = |i: int| fmul(wv[i], sv[i]);
    let mut acc = Fe::zero();
    let mut i: usize = 0;
    assert(Seq::new(0, f) =~= Seq::<nat>::empty());
    while i < m
        invariant
            w@.len() >= m,
            sums@.len() >= m,
            wv == fe_vals(w@),
            sv == fe_vals(sums@),
            f == (|i: int| fmul(wv[i], sv[i])),
            i <= m,
            acc.val() == fsum(Seq::new(i as nat, f)),
        decreases m - i,
    {
        proof {
            lemma_fsum_new_step(i as nat, f);
        }
        acc = acc.add(w[i].mul(sums[i]));
        i = i + 1;
    }
    acc
}

/// The prover part shared by both versions of SumFold: the rounds, the claimed sum
/// `T`, and the folded sum `v`. Also hands back the tables with every instance
/// variable fixed.
fn sum_fold_prove(polys: &Vec<VirtualPolynomial>, sums: &Vec<Fe>, transcript: &mut IOPTranscript) -> (r:
    Result<(IOPProof, Fe, AuxInfo, Fe, Vec<Vec<Fe>>), PolyIOPErrors>)
    requires
        is_pow2(polys@.len() as nat),
        sumfold_inputs(polys@, sums@, log2_of(polys@.len() as nat)),
    ensures
        ({
            let l = log2_of(polys@.len() as nat);
            let p0 = polys@[0];
            let (rho, s) = sumfold_run(polys@, l, old(transcript).ops());
            &&& final(transcript).ops() == s.ops
            &&& !final(transcript).empty()
            &&& r is Ok <==> sumfold_defined(rho, s, p0.aux_info.max_degree as nat)
            &&& r matches Ok(out) ==> {
                let (proof, sum_t, q_aux, v, tabs) = out;
                let c = interpolation(s.msgs[l - 1], s.chals[l - 1]);
                &&& msg_vals(proof.proofs@) == s.msgs
                &&& fe_vals(proof.point@) == s.chals
                &&& sum_t.val() == folded_sum(eq_vec(rho), fe_vals(sums@), polys@.len() as nat)
                &&& q_aux == fold_aux(p0, l)
                &&& v.val() == fmul(c, finv(eq_eval(rho, s.chals)))
                &&& table_vals(tabs@) == s.tables
            }
            &&& r matches Err(e) ==> e == PolyIOPErrors::InvalidProver
        }),
{
    let ghost l = log2_of(polys@.len() as nat);
    let ghost ops0 = transcript.ops();
    let m = polys.len();
    let t = polys[0].flattened_ml_extensions.len();
    let nv = polys[0].aux_info.num_variables;
    let d0 = polys[0].aux_info.max_degree;
    let length = log2_ceil(m) as usize;
    proof {
        assert(pow2(l) == m);
        lemma_pow2_pos(l);
        lemma_log2_of_pow2(l, length as nat);
        lemma_pow2_adds(l, nv as nat);
        lemma_pow2_pos(nv as nat);
        lemma_mul_inequality(1, pow2(l) as int, pow2(nv as nat) as int);
        lemma_mul_is_commutative(pow2(l) as int, pow2(nv as nat) as int);
    }
    let q_aux = AuxInfo { max_degree: d0 + 1, num_variables: length };
    let aux = serialize_aux(&q_aux);
    transcript.append_message("aux info".as_bytes(), aux.as_slice());
    let rho = match transcript.get_and_append_challenge_vectors("sumfold rho".as_bytes(), length) {
        Ok(v) => v,
        Err(_) => {
            assert(false);
            return Err(PolyIOPErrors::InvalidProver);
        },
    };
    proof {
        assert(fe_vals(rho@).len() == rho@.len());
        crate::transcript::lemma_challenge_values_len(
            ops0.push(message_op(aux_label(), aux_bytes(q_aux))), rho_label(), l);
        if nv > 0 {
            lemma_pow2_strictly_increases(l, l + nv as nat);
        } else {
            assert(l + nv as nat == l);
        }
        lemma2_to64();
        assert(rho@.len() == l);
        assert(l > 0);
    }
    let eq_xr = match build_eq_x_r_vec(&rho) {
        Ok(v) => v,
        Err(_) => {
            assert(false);
            return Err(PolyIOPErrors::InvalidProver);
        },
    };
    proof {
        lemma_eq_vec_len(fe_vals(rho@));
        assert(fe_vals(eq_xr@).len() == eq_xr@.len());
        assert(fe_vals(sums@).len() == sums@.len());
    }
    let sum_t = folded_sum_exec(&eq_xr, sums, m);
    // the interleaved tables
    let size = crate::sumcheck::pow2_usize(nv);
    let ghost ps = instance_tables(polys@);
    let mut tables: Vec<Vec<Fe>> = Vec::new();
    let mut j: usize = 0;
    while j < t
        invariant
            m == polys@.len(),
            m == pow2(l),
            size == pow2(nv as nat),
            m * size == pow2(l + nv as nat),
            pow2(l + nv as nat) <= usize::MAX,
            t == polys@[0].flattened_ml_extensions@.len(),
            nv == polys@[0].aux_info.num_variables,
            ps == instance_tables(polys@),
            sumfold_inputs(polys@, sums@, l),
            j <= t,
            tables@.len() == j,
            forall|k: int| 0 <= k < j ==> fe_vals((#[trigger] tables@[k])@) == interleave(ps, k, m as nat, size as nat),
        decreases t - j,
    {
        proof {
            assert forall|i: int| 0 <= i < polys@.len() implies j < (#[trigger] polys@[i]).flattened_ml_extensions@.len()
                && polys@[i].tables()[j as int].len() == size by {
                assert(polys@[i].tables()[j as int].len() == pow2(nv as nat));
            }
        }
        let f = interleave_exec(polys, j, size);
        tables.push(f);
        j = j + 1;
    }
    let products = copy_products(&polys[0].products);
    proof {
        let p0 = polys@[0];
        assert(table_vals(tables@) =~= interleaved_tables(ps, t as nat, m as nat, size as nat));
        assert forall|k: int| 0 <= k < table_vals(tables@).len()
            implies (#[trigger] table_vals(tables@)[k]).len() == m * size by {
            assert(fe_vals(tables@[k]@) == interleave(ps, k, m as nat, size as nat));
        }
        assert forall|p: int, q: int|
            0 <= p < products@.len() && 0 <= q < products@[p].1@.len()
                implies (#[trigger] products@[p].1@[q]) < tables@.len() by {
            assert(product_vals(products@)[p] == p0.prods()[p]);
            assert(p0.prods()[p].1[q] < t);
        }
    }
    let (msgs, chals, tabs, _) = prove_rounds(
        tables,
        Some(eq_xr),
        &products,
        d0 + 1,
        m * size,
        length,
        transcript,
        Ghost(nv as nat),
    );
    let ghost s = run_rounds(
        interleaved_tables(ps, t as nat, m as nat, size as nat),
        Some(eq_vec(fe_vals(rho@))),
        polys@[0].prods(),
        d0 as nat + 1,
        m as nat * size as nat,
        ops_after_challenges(ops0.push(message_op(aux_label(), aux_bytes(q_aux))), rho_label(), l),
        l,
    );
    proof {
        crate::sumcheck::lemma_run_rounds_len(
            interleaved_tables(ps, t as nat, m as nat, size as nat),
            Some(eq_vec(fe_vals(rho@))),
            polys@[0].prods(),
            d0 as nat + 1,
            m as nat * size as nat,
            ops_after_challenges(ops0.push(message_op(aux_label(), aux_bytes(q_aux))), rho_label(), l),
            l,
        );
        assert(msg_vals(msgs@).len() == msgs@.len());
        assert(fe_vals(chals@).len() == chals@.len());
        assert(msgs@[length - 1].evaluations@.len() == d0 + 2) by {
            assert(msg_vals(msgs@)[length - 1] == fe_vals(msgs@[length - 1].evaluations@));
            crate::sumcheck::lemma_run_rounds_msg_len(
                interleaved_tables(ps, t as nat, m as nat, size as nat),
                Some(eq_vec(fe_vals(rho@))),
                polys@[0].prods(),
                d0 as nat + 1,
                m as nat * size as nat,
                ops_after_challenges(ops0.push(message_op(aux_label(), aux_bytes(q_aux))), rho_label(), l),
                l,
            );
        }
    }
    let c = match interpolate_uni_poly(&msgs[length - 1].evaluations, chals[length - 1]) {
        Some(c) => c,
        None => {
            return Err(PolyIOPErrors::InvalidProver);
        },
    };
    let e = eq_evaluate(&rho, &chals);
    let inv = match e.inverse() {
        Some(w) => w,
        None => {
            proof {
                if has_inverse(e.val()) {
                    let w = choose|w: nat| crate::field::is_inverse(e.val(), w);
                    assert(fmul(0, w) == 0);
                }
            }
            return Err(PolyIOPErrors::InvalidProver);
        },
    };
    let v = c.mul(inv);
    Ok((IOPProof { point: chals, proofs: msgs }, sum_t, q_aux, v, tabs))
}

/// The `j`-th tables of the instances combined with weights `w`.
fn weighted_table_exec(polys: &Vec<VirtualPolynomial>, j: usize, w: &Vec<Fe>, size: usize) -> (r: Vec<Fe>)
    requires
        w@.len() >= polys@.len(),
        forall|i: int|
            0 <= i < polys@.len() ==> j < (#[trigger] polys@[i]).flattened_ml_extensions@.len()
                && polys@[i].tables()[j as int].len() == size,
    ensures
        fe_vals(r@) == weighted_table(instance_tables(polys@), j as int, fe_vals(w@), polys@.len() as nat, size as nat),
{
    let m = polys.len();
    let ghost ps = instance_tables(polys@);
    let ghost wv = fe_vals(w@);
    let mut acc: Vec<Fe> = Vec::new();
    let mut x: usize = 0;
    while x < size
        invariant
            x <= size,
            acc@.len() == x,
            forall|y: int| 0 <= y < x ==> (#[trigger] acc@[y]).val() == 0,
        decreases size - x,
    {
        acc.push(Fe::zero());
        x = x + 1;
    }
    let mut i: usize = 0;
    while i < m
        invariant
            m == polys@.len(),
            w@.len() >= m,
            ps == instance_tables(polys@),
            wv == fe_vals(w@),
            forall|i: int|
                0 <= i < polys@.len() ==> j < (#[trigger] polys@[i]).flattened_ml_extensions@.len()
                    && polys@[i].tables()[j as int].len() == size,
            i <= m,
            acc@.len() == size,
            forall|y: int| 0 <= y < size ==> (#[trigger] acc@[y]).val() == fsum(
                Seq::new(i as nat, |k: int| fmul(wv[k], ps[k][j as int][y])),
            ),
        decreases m - i,
    {
        let wi = w[i];
        proof {
            assert(ps[i as int] == polys@[i as int].tables());
            assert(polys@[i as int].tables()[j as int] == fe_vals(polys@[i as int].flattened_ml_extensions@[j as int].evaluations@));
        }
        let mut x: usize = 0;
        while x < size
            invariant
                m == polys@.len(),
                i < m,
                w@.len() >= m,
                ps == instance_tables(polys@),
                wv == fe_vals(w@),
                wi == w@[i as int],
                forall|i: int|
                    0 <= i < polys@.len() ==> j < (#[trigger] polys@[i]).flattened_ml_extensions@.len()
                        && polys@[i].tables()[j as int].len() == size,
                ps[i as int][j as int] == fe_vals(polys@[i as int].flattened_ml_extensions@[j as int].evaluations@),
                x <= size,
                acc@.len() == size,
                forall|y: int| 0 <= y < x ==> (#[trigger] acc@[y]).val() == fsum(
                    Seq::new((i + 1) as nat, |k: int| fmul(wv[k], ps[k][j as int][y])),
                ),
                forall|y: int| x <= y < size ==> (#[trigger] acc@[y]).val() == fsum(
                    Seq::new(i as nat, |k: int| fmul(wv[k], ps[k][j as int][y])),
                ),
            decreases size - x,
        {
            let e = polys[i].flattened_ml_extensions[j].evaluations[x];
            let nv = acc[x].add(wi.mul(e));
            proof {
                lemma_fsum_new_step(i as nat, |k: int| fmul(wv[k], ps[k][j as int][x as int]));
                assert(ps[i as int][j as int][x as int] == e.val());
                assert(wv[i as int] == wi.val());
            }
            acc.set(x, nv);
            x = x + 1;
        }
        i = i + 1;
    }
    proof {
        assert(fe_vals(acc@) =~= weighted_table(ps, j as int, wv, m as nat, size as nat));
    }
    acc
}

/// The folded instance of SumFold: the first instance's products over the folded
/// tables `sum_i w_i f_ij`.
fn fold_instances(polys: &Vec<VirtualPolynomial>, w: &Vec<Fe>) -> (r: VirtualPolynomial)
    requires
        sumfold_inputs_core(polys@),
        w@.len() >= polys@.len(),
    ensures
        r.aux_info == polys@[0].aux_info,
        r.prods() == polys@[0].prods(),
        r.tables() == folded_tables(
            instance_tables(polys@),
            polys@[0].flattened_ml_extensions@.len() as nat,
            fe_vals(w@),
            polys@.len() as nat,
            pow2(polys@[0].aux_info.num_variables as nat),
        ),
        r.wf(),
{
    let t = polys[0].flattened_ml_extensions.len();
    let nv = polys[0].aux_info.num_variables;
    let size = crate::sumcheck::pow2_usize(nv);
    let ghost ps = instance_tables(polys@);
    let mut mles: Vec<Mle> = Vec::new();
    let mut j: usize = 0;
    while j < t
        invariant
            sumfold_inputs_core(polys@),
            w@.len() >= polys@.len(),
            t == polys@[0].flattened_ml_extensions@.len(),
            nv == polys@[0].aux_info.num_variables,
            size == pow2(nv as nat),
            ps == instance_tables(polys@),
            j <= t,
            mles@.len() == j,
            forall|k: int| 0 <= k < j ==> (#[trigger] mles@[k]).num_vars == nv
                && fe_vals(mles@[k].evaluations@) == weighted_table(ps, k, fe_vals(w@), polys@.len() as nat, size as nat),
        decreases t - j,
    {
        proof {
            assert forall|i: int| 0 <= i < polys@.len() implies j < (#[trigger] polys@[i]).flattened_ml_extensions@.len()
                && polys@[i].tables()[j as int].len() == size by {
                assert(polys@[i].tables()[j as int].len() == pow2(nv as nat));
            }
        }
        let f = weighted_table_exec(polys, j, w, size);
        proof {
            assert(fe_vals(f@).len() == f@.len());
        }
        mles.push(Mle::from_evaluations_vec(nv, f));
        j = j + 1;
    }
    let products = copy_products(&polys[0].products);
    let r = VirtualPolynomial { aux_info: polys[0].aux_info, products, flattened_ml_extensions: mles };
    proof {
        assert(r.tables() =~= folded_tables(ps, t as nat, fe_vals(w@), polys@.len() as nat, size as nat));
        assert forall|k: int| 0 <= k < r.tables().len() implies (#[trigger] r.tables()[k]).len() == pow2(nv as nat) by {
            assert(r.tables()[k] == fe_vals(mles@[k].evaluations@));
        }
    }
    r
}

/// The requirements on the instances that folding needs (those of SumFold but the
/// count and the sums).
pub open spec fn sumfold_inputs_core(polys: Seq<VirtualPolynomial>) -> bool {
    let p0 = polys[0];
    let nv = p0.aux_info.num_variables as nat;
    let t = p0.flattened_ml_extensions@.len();
    &&& polys.len() >= 1
    &&& p0.wf()
    &&& forall|i: int|
        0 <= i < polys.len() ==> {
            &&& (#[trigger] polys[i]).aux_info.num_variables == nv
            &&& polys[i].flattened_ml_extensions@.len() >= t
            &&& forall|j: int| 0 <= j < t ==> (#[trigger] polys[i].tables()[j]).len() == pow2(nv)
        }
}

/// `SumCheck::sum_fold`: folds the instances `(polys_i, sums_i)` into one. Returns
/// the SumCheck proof over the instance variables, the claimed sum
/// `T = sum_i eq(rho, i) sums_i`, the auxiliary information of that SumCheck, the
/// folded polynomial `sum_i eq(r_b, i) polys_i`, and its claimed sum
/// `v = c / eq(rho, r_b)` where `c` is the last round polynomial at the last
/// challenge. The folded tables are summed explicitly with the weights
/// `eq(r_b, i)`.
pub fn sum_fold(polys: Vec<VirtualPolynomial>, sums: Vec<Fe>, transcript: &mut IOPTranscript) -> (r:
    Result<(IOPProof, Fe, AuxInfo, VirtualPolynomial, Fe), PolyIOPErrors>)
    requires
        sumfold_requires(polys@, sums@),
    ensures
        sumfold_outcome(polys@, sums@, old(transcript).ops(), r, final(transcript).ops()),
        !final(transcript).empty(),
{
    if polys.len() == 1 {
        return fold_single(&polys, transcript);
    }
    proof {
        if polys@.len() == 0 {
            let k = choose|k: nat| pow2(k) == 0;
            lemma_pow2_pos(k);
        }
    }
    let ghost l = log2_of(polys@.len() as nat);
    let m = polys.len();
    let res = sum_fold_prove(&polys, &sums, transcript);
    proof {
        let (rho, s) = sumfold_run(polys@, l, old(transcript).ops());
        lemma_sumfold_defined(rho, s, polys@[0].aux_info.max_degree as nat);
    }
    let (proof, sum_t, q_aux, v, _) = match res {
        Ok(out) => out,
        Err(e) => {
            return Err(e);
        },
    };
    proof {
        assert(sumfold_inputs_core(polys@));
        let (rho, s) = sumfold_run(polys@, l, old(transcript).ops());
        crate::sumcheck::lemma_run_rounds_len(
            interleaved_tables(instance_tables(polys@), polys@[0].flattened_ml_extensions@.len() as nat, polys@.len() as nat, pow2(polys@[0].aux_info.num_variables as nat)),
            Some(eq_vec(rho)),
            polys@[0].prods(),
            polys@[0].aux_info.max_degree as nat + 1,
            pow2(l + polys@[0].aux_info.num_variables as nat),
            ops_after_challenges(old(transcript).ops().push(message_op(aux_label(), aux_bytes(fold_aux(polys@[0], l)))), rho_label(), l),
            l,
        );
        assert(fe_vals(proof.point@).len() == proof.point@.len());
        assert(proof.point@.len() == l);
        assert(pow2(l) == m);
        lemma2_to64();
        assert(l > 0);
    }
    let eq_rb = match build_eq_x_r_vec(&proof.point) {
        Ok(w) => w,
        Err(_) => {
            assert(false);
            return Err(PolyIOPErrors::InvalidProver);
        },
    };
    proof {
        lemma_eq_vec_len(fe_vals(proof.point@));
        assert(fe_vals(eq_rb@).len() == eq_rb@.len());
    }
    let folded = fold_instances(&polys, &eq_rb);
    Ok((proof, sum_t, q_aux, folded, v))
}

/// Fixing the instance variables of the interleaved `j`-th tables to `rs` gives
/// the tables combined with the weights `eq(rs, i)`.
pub proof fn lemma_interleave_fix_many(ps: Seq<Seq<Seq<nat>>>, j: int, l: nat, size: nat, rs: Seq<nat>)
    requires
        ps.len() == pow2(l),
        rs.len() == l,
        forall|i: int, x: int| 0 <= i < ps.len() && 0 <= x < size ==> (#[trigger] ps[i][j][x]) < modulus(),
    ensures
        fix_many(interleave(ps, j, ps.len(), size), rs) == weighted_table(ps, j, eq_vec(rs), ps.len(), size),
{
    let m = ps.len();
    let t = interleave(ps, j, m, size);
    lemma_pow2_pos(l);
    assert forall|k: int| 0 <= k < t.len() implies #[trigger] t[k] < modulus() by {
        lemma_fundamental_div_mod(k, m as int);
        lemma_mod_pos_bound(k, m as int);
        let q = k / (m as int);
        assert(q < size) by {
            lemma_div_by_multiple_is_strongly_ordered(k, (m * size) as int, size as int, m as int);
            lemma_mul_is_commutative(m as int, size as int);
            lemma_div_by_multiple(size as int, m as int);
            lemma_div_pos_is_pos(k, m as int);
        }
    }
    lemma_mul_is_commutative(pow2(l) as int, size as int);
    lemma_fix_many_weighted(t, rs, size);
    let w = eq_vec(rs);
    assert forall|x: int| 0 <= x < size implies #[trigger] block_weighted(t, w, m, x)
        == fsum(Seq::new(m, |i: int| fmul(w[i], ps[i][j][x]))) by {
        assert forall|i: int| 0 <= i < m implies #[trigger] t[x * m + i] == ps[i][j][x] by {
            lemma_fundamental_div_mod_converse(x * m + i, m as int, x, i);
            lemma_mul_is_commutative(x, m as int);
            assert(x * m + i < m * size) by (nonlinear_arith)
                requires 0 <= x < size, 0 <= i < m;
        }
        lemma_fsum_ext(
            Seq::new(m, |i: int| fmul(w[i], t[x * m + i])),
            Seq::new(m, |i: int| fmul(w[i], ps[i][j][x])),
        );
    }
    assert(fix_many(t, rs) =~= weighted_table(ps, j, w, m, size));
}

/// `SumCheck::sum_fold_v2`: the same folding as `sum_fold`, with the folded tables
/// taken from the prover's tables, whose instance variables the rounds fixed one by
/// one (the last one to the last challenge).
pub fn sum_fold_v2(polys: Vec<VirtualPolynomial>, sums: Vec<Fe>, transcript: &mut IOPTranscript) -> (r:
    Result<(IOPProof, Fe, AuxInfo, VirtualPolynomial, Fe), PolyIOPErrors>)
    requires
        sumfold_requires(polys@, sums@),
    ensures
        sumfold_outcome(polys@, sums@, old(transcript).ops(), r, final(transcript).ops()),
        !final(transcript).empty(),
{
    if polys.len() == 1 {
        return fold_single(&polys, transcript);
    }
    proof {
        if polys@.len() == 0 {
            let k = choose|k: nat| pow2(k) == 0;
            lemma_pow2_pos(k);
        }
    }
    let ghost l = log2_of(polys@.len() as nat);
    let ghost ops0 = transcript.ops();
    let res = sum_fold_prove(&polys, &sums, transcript);
    proof {
        let (rho, s) = sumfold_run(polys@, l, ops0);
        lemma_sumfold_defined(rho, s, polys@[0].aux_info.max_degree as nat);
    }
    let (proof, sum_t, q_aux, v, tabs) = match res {
        Ok(out) => out,
        Err(e) => {
            return Err(e);
        },
    };
    let t = polys[0].flattened_ml_extensions.len();
    let nv = polys[0].aux_info.num_variables;
    let ghost ps = instance_tables(polys@);
    let ghost m = polys@.len();
    let ghost size = pow2(nv as nat);
    proof {
        let p0 = polys@[0];
        let (rho, s) = sumfold_run(polys@, l, ops0);
        let its = interleaved_tables(ps, t as nat, m as nat, size);
        crate::sumcheck::lemma_run_rounds_tables(
            its,
            Some(eq_vec(rho)),
            p0.prods(),
            p0.aux_info.max_degree as nat + 1,
            pow2(l + nv as nat),
            ops_after_challenges(ops0.push(message_op(aux_label(), aux_bytes(fold_aux(p0, l)))), rho_label(), l),
            l,
        );
        crate::sumcheck::lemma_run_rounds_len(
            its,
            Some(eq_vec(rho)),
            p0.prods(),
            p0.aux_info.max_degree as nat + 1,
            pow2(l + nv as nat),
            ops_after_challenges(ops0.push(message_op(aux_label(), aux_bytes(fold_aux(p0, l)))), rho_label(), l),
            l,
        );
        assert forall|j: int| 0 <= j < t implies #[trigger] s.tables[j] == weighted_table(ps, j, eq_vec(s.chals), m as nat, size) by {
            assert forall|i: int, x: int| 0 <= i < ps.len() && 0 <= x < size implies (#[trigger] ps[i][j][x]) < modulus() by {
                assert(ps[i] == polys@[i].tables());
                assert(polys@[i].tables()[j] == fe_vals(polys@[i].flattened_ml_extensions@[j].evaluations@));
                assert(polys@[i].tables()[j].len() == pow2(nv as nat));
                polys@[i].flattened_ml_extensions@[j].evaluations@[x].lemma_val_bound();
            }
            lemma_interleave_fix_many(ps, j, l, size, s.chals);
        }
        assert(s.tables.len() == t);
        assert(table_vals(tabs@).len() == tabs@.len());
        assert forall|k: int| 0 <= k < t implies (#[trigger] tabs@[k])@.len() == size by {
            assert(table_vals(tabs@)[k] == fe_vals(tabs@[k]@));
            assert(s.tables[k].len() == size);
        }
    }
    let products = copy_products(&polys[0].products);
    let mut mles: Vec<Mle> = Vec::new();
    let mut j: usize = 0;
    while j < t
        invariant
            j <= t,
            t == tabs@.len(),
            mles@.len() == j,
            forall|k: int| 0 <= k < j ==> (#[trigger] mles@[k]).num_vars == nv
                && mles@[k].evaluations@ == tabs@[k]@,
            forall|k: int| 0 <= k < t ==> (#[trigger] tabs@[k])@.len() == size,
            size == pow2(nv as nat),
        decreases t - j,
    {
        mles.push(Mle::from_evaluations_vec(nv, copy_vec(&tabs[j])));
        j = j + 1;
    }
    let folded = VirtualPolynomial { aux_info: polys[0].aux_info, products, flattened_ml_extensions: mles };
    proof {
        let (rho, s) = sumfold_run(polys@, l, ops0);
        assert forall|k: int| 0 <= k < t implies #[trigger] folded.tables()[k]
            == weighted_table(ps, k, eq_vec(s.chals), m as nat, size) by {
            assert(folded.tables()[k] == fe_vals(mles@[k].evaluations@));
            assert(table_vals(tabs@)[k] == fe_vals(tabs@[k]@));
        }
        assert(folded.tables() =~= folded_tables(ps, t as nat, eq_vec(s.chals), m as nat, size));
        assert(folded.prods() == polys@[0].prods());
        assert forall|k: int| 0 <= k < folded.tables().len() implies (#[trigger] folded.tables()[k]).len() == size by {
            assert(folded.tables()[k] == weighted_table(ps, k, eq_vec(s.chals), m as nat, size));
        }
        assert(folded.wf());
    }
    Ok((proof, sum_t, q_aux, folded, v))
}

/// What the SumFold verifier derives from a fresh transcript: `rho`, then one
/// challenge per round of messages.
pub open spec fn sumfold_verifier_view(aux: AuxInfo, msgs: Seq<Seq<nat>>) -> (Seq<nat>, Seq<nat>) {
    let ops1 = crate::sumcheck::ops_with_aux(crate::sumcheck::init_ops(), aux);
    let n = aux.num_variables as nat;
    let rho = challenge_values(ops1, rho_label(), n);
    let ops2 = ops_after_challenges(ops1, rho_label(), n);
    (rho, crate::sumcheck::verifier_rounds(ops2, msgs, n).0)
}

/// `verify_sum_fold`: verifies a SumFold SumCheck proof against the claimed sum `T`
/// on a fresh transcript: appends the auxiliary information, squeezes `rho`, and
/// checks the rounds. Returns the subclaim `(r_b, c)` and `rho`.
pub fn verify_sum_fold(sum: Fe, proof: &IOPProof, aux_info: &AuxInfo) -> (r: Result<
    (crate::sumcheck::SumCheckSubClaim, Vec<Fe>),
    PolyIOPErrors,
>)
    requires
        aux_info.max_degree >= 1,
        crate::sumcheck::degree_fits(aux_info.max_degree as nat),
        proof.proofs@.len() >= aux_info.num_variables,
        crate::sumcheck::messages_fit(proof.proofs@, aux_info.num_variables as nat),
    ensures
        ({
            let (rho, chals) = sumfold_verifier_view(*aux_info, msg_vals(proof.proofs@));
            let v = crate::sumcheck::sumcheck_verdict(
                sum.val(),
                msg_vals(proof.proofs@),
                chals,
                aux_info.num_variables as nat,
                aux_info.max_degree as nat,
            );
            &&& v is Ok <==> r is Ok
            &&& r matches Ok(out) ==> v == Ok::<nat, PolyIOPErrors>(out.0.expected_evaluation.val())
                && fe_vals(out.0.point@) == chals && fe_vals(out.1@) == rho
            &&& r matches Err(e) ==> v == Err::<nat, PolyIOPErrors>(e)
        }),
{
    let mut transcript = crate::sumcheck::init_transcript();
    let aux = serialize_aux(aux_info);
    transcript.append_message("aux info".as_bytes(), aux.as_slice());
    let n = aux_info.num_variables;
    let rho = match transcript.get_and_append_challenge_vectors("sumfold rho".as_bytes(), n) {
        Ok(v) => v,
        Err(_) => {
            assert(false);
            return Err(PolyIOPErrors::InvalidVerifier);
        },
    };
    let chals = crate::sumcheck::verify_rounds(proof, n, &mut transcript);
    proof {
        let ops1 = crate::sumcheck::ops_with_aux(crate::sumcheck::init_ops(), *aux_info);
        crate::sumcheck::lemma_verifier_rounds_len(
            ops_after_challenges(ops1, rho_label(), n as nat),
            msg_vals(proof.proofs@),
            n as nat,
        );
        assert(fe_vals(chals@).len() == chals@.len());
    }
    match crate::sumcheck::check_and_generate_subclaim(sum, proof, &chals, n, aux_info.max_degree) {
        Ok(e) => Ok((crate::sumcheck::SumCheckSubClaim { point: chals, expected_evaluation: e }, rho)),
        Err(e) => Err(e),
    }
}

} // verus!
