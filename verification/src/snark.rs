//! deSnark protocol functions: SumFold aggregation of SumCheck instances, the
//! combination and verification of the parties' SumFold proofs, and the decisions
//! of the network check.

use vstd::prelude::*;
use vstd::arithmetic::power2::*;
use crate::errors::{DeSnarkError, NetworkFailure, ParamError, ProtocolError};
use crate::field::{Fe, fadd, fe_vals, fmul, fsum, lemma_fsum_new_step, lemma_fadd_zero};
use crate::poly::{AuxInfo, VirtualPolynomial, eq_eval, eq_evaluate};
use crate::structs::{Config, Proof, SumCheckInstance, SumFoldProof};
use crate::sumcheck::{
    IOPProof, IOPProverMessage, PolyIOPErrors, messages_fit, msg_vals, sumcheck_verdict,
};
use crate::sumfold::{
    is_pow2, log2_of, sum_fold_v2, sumfold_inputs, sumfold_outcome, sumfold_requires, sumfold_verifier_view,
    verify_sum_fold,
};
use crate::transcript::{IOPTranscript, TranscriptOp};

verus! {

// ---------------------------------------------------------------------------
// Powers of two
// ---------------------------------------------------------------------------

proof fn lemma_pow2_even(k: nat)
    requires
        k >= 1,
    ensures
        pow2(k) % 2 == 0,
        pow2(k) / 2 == pow2((k - 1) as nat),
{
    lemma_pow2_unfold(k);
}

proof fn lemma_is_pow2_double(y: nat)
    requires
        y >= 1,
    ensures
        is_pow2(2 * y) <==> is_pow2(y),
{
    if is_pow2(y) {
        let k = choose|k: nat| pow2(k) == y;
        lemma_pow2_unfold(k + 1);
        assert(pow2(k + 1) == 2 * y);
    }
    if is_pow2(2 * y) {
        let k = choose|k: nat| pow2(k) == 2 * y;
        if k == 0 {
            lemma2_to64();
        } else {
            lemma_pow2_unfold(k);
            assert(pow2((k - 1) as nat) == y);
        }
    }
}

proof fn lemma_odd_not_pow2(y: nat)
    requires
        y > 1,
        y % 2 == 1,
    ensures
        !is_pow2(y),
{
    if is_pow2(y) {
        let k = choose|k: nat| pow2(k) == y;
        if k == 0 {
            lemma2_to64();
        } else {
            lemma_pow2_even(k);
        }
    }
}

/// `usize::is_power_of_two`: whether `x` is a power of two.
pub fn is_power_of_two(x: usize) -> (r: bool)
    ensures
        r == is_pow2(x as nat),
{
    if x == 0 {
        proof {
            if is_pow2(0) {
                let k = choose|k: nat| pow2(k) == 0;
                lemma_pow2_pos(k);
            }
        }
        return false;
    }
    let mut y = x;
    while y > 1 && y % 2 == 0
        invariant
            y >= 1,
            is_pow2(x as nat) <==> is_pow2(y as nat),
        decreases y,
    {
        proof {
            lemma_is_pow2_double((y / 2) as nat);
        }
        y = y / 2;
    }
    proof {
        if y == 1 {
            lemma2_to64();
            assert(pow2(0) == 1);
        } else {
            lemma_odd_not_pow2(y as nat);
        }
    }
    y == 1
}

// ---------------------------------------------------------------------------
// Phase 0: setup
// ---------------------------------------------------------------------------

/// The log-size of the SRS for a configuration: the per-partition constraint count,
/// `log_num_constraints - log_num_parties`.
pub fn setup(config: &Config) -> (r: usize)
    requires
        config.log_num_parties <= config.log_num_constraints,
    ensures
        r == config.log_num_constraints - config.log_num_parties,
{
    config.log_num_constraints - config.log_num_parties
}

// ---------------------------------------------------------------------------
// Phase 2: SumFold
// ---------------------------------------------------------------------------

/// The polynomials of some instances.
pub open spec fn inst_polys(s: Seq<SumCheckInstance>) -> Seq<VirtualPolynomial> {
    s.map_values(|i: SumCheckInstance| i.poly)
}

/// The claimed sums of some instances.
pub open spec fn inst_sums(s: Seq<SumCheckInstance>) -> Seq<Fe> {
    s.map_values(|i: SumCheckInstance| i.sum)
}

/// The outcome of `prove_sumfold` seen as the outcome of `sum_fold`.
pub open spec fn as_fold_outcome(r: Result<(SumCheckInstance, SumFoldProof), DeSnarkError>) -> Result<
    (IOPProof, Fe, AuxInfo, VirtualPolynomial, Fe),
    PolyIOPErrors,
> {
    match r {
        Ok((inst, sfp)) => Ok((sfp.proof, sfp.sum_t, sfp.q_aux_info, inst.poly, sfp.v)),
        Err(DeSnarkError::HyperPlonkError(ProtocolError::SumFold(e))) => Err(e),
        Err(_) => Err(PolyIOPErrors::InvalidVerifier),
    }
}

/// Instances that `prove_sumfold` folds without failing on their shape: whenever
/// they are a power of two of them, they fit SumFold.
pub open spec fn prove_sumfold_inputs(instances: Seq<SumCheckInstance>) -> bool {
    is_pow2(instances.len() as nat) ==> sumfold_requires(inst_polys(instances), inst_sums(instances))
}

/// Phase 2: SumFold. Folds `M` instances into one: refuses no instances and a
/// count that is not a power of two; otherwise runs `sum_fold_v2` and returns the
/// folded instance (polynomial `sum_i eq(r_b, i) poly_i`, claimed sum `v`) and the
/// SumFold proof, or its error.
pub fn prove_sumfold(instances: Vec<SumCheckInstance>, transcript: &mut IOPTranscript) -> (r: Result<
    (SumCheckInstance, SumFoldProof),
    DeSnarkError,
>)
    requires
        prove_sumfold_inputs(instances@),
    ensures
        instances@.len() == 0 ==> r == Err::<(SumCheckInstance, SumFoldProof), DeSnarkError>(
            DeSnarkError::InvalidParameters(ParamError::NoInstances),
        ) && *final(transcript) == *old(transcript),
        instances@.len() > 0 && !is_pow2(instances@.len() as nat) ==> r == Err::<
            (SumCheckInstance, SumFoldProof),
            DeSnarkError,
        >(DeSnarkError::InvalidParameters(ParamError::InstancesNotPowerOfTwo(instances@.len() as usize)))
            && *final(transcript) == *old(transcript),
        is_pow2(instances@.len() as nat) ==> {
            &&& sumfold_outcome(
                inst_polys(instances@),
                inst_sums(instances@),
                old(transcript).ops(),
                as_fold_outcome(r),
                final(transcript).ops(),
            )
            &&& r matches Ok((inst, sfp)) ==> inst.sum == sfp.v
            &&& r matches Err(e) ==> e matches DeSnarkError::HyperPlonkError(ProtocolError::SumFold(_))
        },
        is_pow2(instances@.len() as nat) ==> !final(transcript).empty(),
{
    let n = instances.len();
    if n == 0 {
        proof {
            if is_pow2(0) {
                let k = choose|k: nat| pow2(k) == 0;
                lemma_pow2_pos(k);
            }
        }
        return Err(DeSnarkError::InvalidParameters(ParamError::NoInstances));
    }
    if !is_power_of_two(n) {
        return Err(DeSnarkError::InvalidParameters(ParamError::InstancesNotPowerOfTwo(n)));
    }
    let ghost orig = instances@;
    let mut instances = instances;
    let mut polys: Vec<VirtualPolynomial> = Vec::new();
    let mut sums: Vec<Fe> = Vec::new();
    let mut i: usize = 0;
    while i < n
        invariant
            n == orig.len(),
            i <= n,
            instances@ == orig.subrange(i as int, n as int),
            polys@ == inst_polys(orig).subrange(0, i as int),
            sums@ == inst_sums(orig).subrange(0, i as int),
        decreases n - i,
    {
        let inst = instances.remove(0);
        polys.push(inst.poly);
        sums.push(inst.sum);
        proof {
            assert(polys@ =~= inst_polys(orig).subrange(0, i + 1));
            assert(sums@ =~= inst_sums(orig).subrange(0, i + 1));
            assert(instances@ =~= orig.subrange(i + 1, n as int));
        }
        i = i + 1;
    }
    proof {
        assert(polys@ =~= inst_polys(orig));
        assert(sums@ =~= inst_sums(orig));
    }
    match sum_fold_v2(polys, sums, transcript) {
        Ok((proof, sum_t, aux_info, folded_poly, v)) => {
            let folded_instance = SumCheckInstance::new(folded_poly, v);
            let sumfold_proof = SumFoldProof::new(proof, sum_t, aux_info, v);
            Ok((folded_instance, sumfold_proof))
        },
        Err(e) => Err(DeSnarkError::HyperPlonkError(ProtocolError::SumFold(e))),
    }
}

// ---------------------------------------------------------------------------
// Combining and verifying the parties' SumFold proofs
// ---------------------------------------------------------------------------

/// The number of rounds: that of party 0's proof.
pub open spec fn num_rounds(ps: Seq<SumFoldProof>) -> nat {
    ps[0].q_aux_info.num_variables as nat
}

/// Party `i`'s auxiliary information agrees with party 0's.
pub open spec fn aux_compatible(ps: Seq<SumFoldProof>, i: int) -> bool {
    ps[i].q_aux_info.num_variables == ps[0].q_aux_info.num_variables
        && ps[i].q_aux_info.max_degree == ps[0].q_aux_info.max_degree
}

/// The first structural problem among parties `i..`, if any.
pub open spec fn first_invalid(ps: Seq<SumFoldProof>, i: int) -> Option<ParamError>
    decreases ps.len() - i,
{
    if i >= ps.len() {
        None
    } else if !aux_compatible(ps, i) {
        Some(ParamError::IncompatibleAuxInfo(i as usize))
    } else if ps[i].proof.proofs@.len() != num_rounds(ps) {
        Some(
            ParamError::WrongRoundCount(
                i as usize,
                ps[i].proof.proofs@.len() as usize,
                num_rounds(ps) as usize,
            ),
        )
    } else {
        first_invalid(ps, i + 1)
    }
}

/// Entry `j` of round `r` of party `p`'s messages, zero past its end.
pub open spec fn msg_entry(ps: Seq<SumFoldProof>, p: int, r: int, j: int) -> nat {
    if r < ps[p].proof.proofs@.len() && j < ps[p].proof.proofs@[r].evaluations@.len() {
        ps[p].proof.proofs@[r].evaluations@[j].val()
    } else {
        0
    }
}

/// The combined messages: party 0's messages with every party's round messages
/// added element-wise.
pub open spec fn combined_msgs(ps: Seq<SumFoldProof>) -> Seq<Seq<nat>> {
    Seq::new(
        ps[0].proof.proofs@.len(),
        |r: int|
            Seq::new(
                ps[0].proof.proofs@[r].evaluations@.len(),
                |j: int| fsum(Seq::new(ps.len(), |p: int| msg_entry(ps, p, r, j))),
            ),
    )
}

/// The sum of the parties' claimed sums `T`.
pub open spec fn combined_sum_t(ps: Seq<SumFoldProof>) -> nat {
    fsum(Seq::new(ps.len(), |p: int| ps[p].sum_t.val()))
}

/// The sum of the parties' folded claims `v`.
pub open spec fn combined_v(ps: Seq<SumFoldProof>) -> nat {
    fsum(Seq::new(ps.len(), |p: int| ps[p].v.val()))
}

/// The parties' proofs can be combined without running past an end: when every
/// party agrees with party 0, party 0 has the rounds, no party's round message is
/// longer than party 0's, and the degree fits the verifier.
pub open spec fn merge_inputs(ps: Seq<SumFoldProof>) -> bool {
    ps.len() >= 1 && first_invalid(ps, 1) is None ==> {
        &&& ps[0].proof.proofs@.len() >= num_rounds(ps)
        &&& messages_fit(ps[0].proof.proofs@, num_rounds(ps))
        &&& ps[0].q_aux_info.max_degree >= 1
        &&& crate::sumcheck::degree_fits(ps[0].q_aux_info.max_degree as nat)
        &&& forall|p: int, r: int|
            1 <= p < ps.len() && 0 <= r < num_rounds(ps) ==> (#[trigger] ps[p].proof.proofs@[r]).evaluations@.len()
                <= ps[0].proof.proofs@[r].evaluations@.len()
    }
}

/// The verdict of `merge_and_verify_sumfold` on the parties' proofs.
pub open spec fn merge_verdict(ps: Seq<SumFoldProof>) -> Result<nat, DeSnarkError> {
    if ps.len() == 0 {
        Err(DeSnarkError::InvalidParameters(ParamError::NoProofs))
    } else if first_invalid(ps, 1) is Some {
        Err(DeSnarkError::InvalidParameters(first_invalid(ps, 1).unwrap()))
    } else {
        let msgs = combined_msgs(ps);
        let (rho, chals) = sumfold_verifier_view(ps[0].q_aux_info, msgs);
        match sumcheck_verdict(
            combined_sum_t(ps),
            msgs,
            chals,
            num_rounds(ps),
            ps[0].q_aux_info.max_degree as nat,
        ) {
            Err(e) => Err(DeSnarkError::HyperPlonkError(ProtocolError::SumFoldVerification(e))),
            Ok(c) => if c == fmul(combined_v(ps), eq_eval(rho, chals)) {
                Ok(combined_v(ps))
            } else {
                Err(DeSnarkError::HyperPlonkError(ProtocolError::ConsistencyCheckFailed))
            },
        }
    }
}

fn check_parties(ps: &Vec<SumFoldProof>) -> (r: Option<ParamError>)
    requires
        ps@.len() >= 1,
    ensures
        r == first_invalid(ps@, 1),
{
    let k = ps.len();
    let nr = ps[0].q_aux_info.num_variables;
    let mut i: usize = k;
    let mut res: Option<ParamError> = None;
    while i > 1
        invariant
            1 <= i <= k,
            k == ps@.len(),
            nr == ps@[0].q_aux_info.num_variables,
            res == first_invalid(ps@, i as int),
        decreases i,
    {
        i = i - 1;
        let sfp = &ps[i];
        if sfp.q_aux_info.num_variables != nr || sfp.q_aux_info.max_degree != ps[0].q_aux_info.max_degree {
            res = Some(ParamError::IncompatibleAuxInfo(i));
        } else if sfp.proof.proofs.len() != nr {
            res = Some(ParamError::WrongRoundCount(i, sfp.proof.proofs.len(), nr));
        }
    }
    res
}

fn copy_messages(ms: &Vec<IOPProverMessage>) -> (r: Vec<IOPProverMessage>)
    ensures
        r@.len() == ms@.len(),
        forall|i: int| 0 <= i < ms@.len() ==> (#[trigger] r@[i]).evaluations@ == ms@[i].evaluations@,
{
    let mut r: Vec<IOPProverMessage> = Vec::new();
    let mut i: usize = 0;
    while i < ms.len()
        invariant
            i <= ms@.len(),
            r@.len() == i,
            forall|k: int| 0 <= k < i ==> (#[trigger] r@[k]).evaluations@ == ms@[k].evaluations@,
        decreases ms.len() - i,
    {
        r.push(IOPProverMessage { evaluations: crate::poly::copy_vec(&ms[i].evaluations) });
        i = i + 1;
    }
    r
}

/// Entry `j` of round `r`, summed over the parties.
fn combined_entry(ps: &Vec<SumFoldProof>, r: usize, j: usize) -> (e: Fe)
    ensures
        e.val() == fsum(Seq::new(ps@.len(), |p: int| msg_entry(ps@, p, r as int, j as int))),
{
    let ghost f = |p: int| msg_entry(ps@, p, r as int, j as int);
    let mut acc = Fe::zero();
    let mut p: usize = 0;
    assert(Seq::new(0, f) =~= Seq::<nat>::empty());
    while p < ps.len()
        invariant
            p <= ps@.len(),
            f == (|p: int| msg_entry(ps@, p, r as int, j as int)),
            acc.val() == fsum(Seq::new(p as nat, f)),
        decreases ps.len() - p,
    {
        proof {
            lemma_fsum_new_step(p as nat, f);
        }
        let msgs = &ps[p].proof.proofs;
        if r < msgs.len() && j < msgs[r].evaluations.len() {
            acc = acc.add(msgs[r].evaluations[j]);
        } else {
            proof {
                acc.lemma_val_bound();
                lemma_fadd_zero(acc.val());
            }
        }
        p = p + 1;
    }
    acc
}

/// The messages of party 0 with every party's messages added element-wise.
fn combine_messages(ps: &Vec<SumFoldProof>) -> (r: Vec<IOPProverMessage>)
    requires
        ps@.len() >= 1,
    ensures
        msg_vals(r@) == combined_msgs(ps@),
        forall|i: int| 0 <= i < r@.len() ==> (#[trigger] r@[i]).evaluations@.len() == ps@[0].proof.proofs@[i].evaluations@.len(),
{
    let p0 = &ps[0].proof.proofs;
    let mut out: Vec<IOPProverMessage> = Vec::new();
    let mut r: usize = 0;
    while r < p0.len()
        invariant
            ps@.len() >= 1,
            p0 == ps@[0].proof.proofs,
            r <= p0@.len(),
            out@.len() == r,
            forall|i: int| 0 <= i < r ==> fe_vals((#[trigger] out@[i]).evaluations@) == combined_msgs(ps@)[i],
            forall|i: int| 0 <= i < r ==> (#[trigger] out@[i]).evaluations@.len() == ps@[0].proof.proofs@[i].evaluations@.len(),
        decreases p0.len() - r,
    {
        let n = p0[r].evaluations.len();
        let mut row: Vec<Fe> = Vec::new();
        let mut j: usize = 0;
        while j < n
            invariant
                ps@.len() >= 1,
                p0 == ps@[0].proof.proofs,
                r < p0@.len(),
                n == p0@[r as int].evaluations@.len(),
                j <= n,
                row@.len() == j,
                forall|k: int| 0 <= k < j ==> (#[trigger] row@[k]).val() == combined_msgs(ps@)[r as int][k],
            decreases n - j,
        {
            let e = combined_entry(ps, r, j);
            row.push(e);
            j = j + 1;
        }
        proof {
            assert(fe_vals(row@) =~= combined_msgs(ps@)[r as int]);
        }
        out.push(IOPProverMessage { evaluations: row });
        r = r + 1;
    }
    proof {
        assert(msg_vals(out@) =~= combined_msgs(ps@));
    }
    out
}

/// The sum over the parties of their claims `T` (or, with `v_field`, of their `v`).
fn sum_over_parties(ps: &Vec<SumFoldProof>, v_field: bool) -> (r: Fe)
    ensures
        !v_field ==> r.val() == combined_sum_t(ps@),
        v_field ==> r.val() == combined_v(ps@),
{
    let ghost f = |p: int| if v_field { ps@[p].v.val() } else { ps@[p].sum_t.val() };
    let mut acc = Fe::zero();
    let mut p: usize = 0;
    assert(Seq::new(0, f) =~= Seq::<nat>::empty());
    while p < ps.len()
        invariant
            p <= ps@.len(),
            f == (|p: int| if v_field { ps@[p].v.val() } else { ps@[p].sum_t.val() }),
            acc.val() == fsum(Seq::new(p as nat, f)),
        decreases ps.len() - p,
    {
        proof {
            lemma_fsum_new_step(p as nat, f);
        }
        if v_field {
            acc = acc.add(ps[p].v);
        } else {
            acc = acc.add(ps[p].sum_t);
        }
        p = p + 1;
    }
    proof {
        if v_field {
            assert(Seq::new(ps@.len(), f) =~= Seq::new(ps@.len(), |p: int| ps@[p].v.val()));
        } else {
            assert(Seq::new(ps@.len(), f) =~= Seq::new(ps@.len(), |p: int| ps@[p].sum_t.val()));
        }
    }
    acc
}

/// Combines `K` parties' SumFold proofs and verifies the result: the round
/// messages are added element-wise, the claims `T` and `v` summed; the combined
/// proof is checked as one SumCheck over `log2(M)` rounds on a fresh transcript; and
/// the subclaim must satisfy `c = v_total * eq(rho, r_b)`. Returns `v_total`.
pub fn merge_and_verify_sumfold(party_proofs: Vec<SumFoldProof>) -> (r: Result<Fe, DeSnarkError>)
    requires
        merge_inputs(party_proofs@),
    ensures
        match merge_verdict(party_proofs@) {
            Ok(v) => r matches Ok(x) && x.val() == v,
            Err(e) => r == Err::<Fe, DeSnarkError>(e),
        },
{
    let k = party_proofs.len();
    if k == 0 {
        return Err(DeSnarkError::InvalidParameters(ParamError::NoProofs));
    }
    match check_parties(&party_proofs) {
        Some(e) => {
            return Err(DeSnarkError::InvalidParameters(e));
        },
        None => {},
    }
    let ghost ps = party_proofs@;
    let combined = combine_messages(&party_proofs);
    let combined_proof = IOPProof {
        point: crate::poly::copy_vec(&party_proofs[0].proof.point),
        proofs: combined,
    };
    let combined_sum_t = sum_over_parties(&party_proofs, false);
    let v_total = sum_over_parties(&party_proofs, true);
    let aux0 = party_proofs[0].q_aux_info;
    proof {
        assert(combined_proof.proofs@.len() == ps[0].proof.proofs@.len()) by {
            assert(msg_vals(combined_proof.proofs@).len() == combined_proof.proofs@.len());
        }
        assert forall|i: int| 0 <= i < aux0.num_variables implies (#[trigger] combined_proof.proofs@[i]).evaluations@.len() <= 0x7FF_FFFF by {
            assert(ps[0].proof.proofs@[i].evaluations@.len() <= 0x7FF_FFFF);
        }
    }
    match verify_sum_fold(combined_sum_t, &combined_proof, &aux0) {
        Err(e) => Err(DeSnarkError::HyperPlonkError(ProtocolError::SumFoldVerification(e))),
        Ok((subclaim, rho)) => {
            proof {
                let (rho_s, chals) = sumfold_verifier_view(aux0, combined_msgs(ps));
                crate::transcript::lemma_challenge_values_len(
                    crate::sumcheck::ops_with_aux(crate::sumcheck::init_ops(), aux0),
                    crate::sumfold::rho_label(),
                    aux0.num_variables as nat,
                );
                crate::sumcheck::lemma_verifier_rounds_len(
                    crate::transcript::ops_after_challenges(
                        crate::sumcheck::ops_with_aux(crate::sumcheck::init_ops(), aux0),
                        crate::sumfold::rho_label(),
                        aux0.num_variables as nat,
                    ),
                    combined_msgs(ps),
                    aux0.num_variables as nat,
                );
                assert(fe_vals(rho@).len() == rho@.len());
                assert(fe_vals(subclaim.point@).len() == subclaim.point@.len());
            }
            let eq_val = eq_evaluate(&rho, &subclaim.point);
            let expected_c = v_total.mul(eq_val);
            if !subclaim.expected_evaluation.equals(&expected_c) {
                Err(DeSnarkError::HyperPlonkError(ProtocolError::ConsistencyCheckFailed))
            } else {
                Ok(v_total)
            }
        },
    }
}

// ---------------------------------------------------------------------------
// What the protocol functions ask of their inputs
// ---------------------------------------------------------------------------

/// `a` fits beside `b` in a word exactly when `a` is at most the word's maximum
/// divided by `b`.
proof fn lemma_fits_times(a: nat, b: nat)
    requires
        b > 0,
    ensures
        a * b <= usize::MAX <==> a <= usize::MAX as nat / b,
{
    let mx = usize::MAX as int;
    let q = mx / (b as int);
    let r = mx % (b as int);
    vstd::arithmetic::div_mod::lemma_fundamental_div_mod(mx, b as int);
    vstd::arithmetic::div_mod::lemma_mod_bound(mx, b as int);
    assert(a * b <= mx <==> a <= q) by (nonlinear_arith)
        requires
            mx == b * q + r,
            0 <= r < b,
            b > 0,
            a >= 0,
    ;
}

/// Whether `prove_sumfold` may be called on these instances.
#[verifier::loop_isolation(false)]
pub fn sumfold_instances_fit(instances: &Vec<SumCheckInstance>) -> (r: bool)
    ensures
        r == prove_sumfold_inputs(instances@),
{
    let m = instances.len();
    if !is_power_of_two(m) {
        return true;
    }
    let ghost polys = inst_polys(instances@);
    let ghost sums = inst_sums(instances@);
    let ghost l = log2_of(m as nat);
    proof {
        lemma_pow2_pos(l);
        assert(pow2(l) == m);
    }
    if m == 1 {
        return instances[0].poly.aux_info.max_degree < usize::MAX;
    }
    let p0 = &instances[0].poly;
    assert(polys[0] == *p0);
    if !p0.is_wf() {
        assert(!sumfold_inputs(polys, sums, l));
        return false;
    }
    if p0.aux_info.max_degree >= 0x7FF_FFFE {
        assert(!sumfold_inputs(polys, sums, l));
        return false;
    }
    let nv = p0.aux_info.num_variables;
    let size = crate::sumcheck::pow2_usize(nv);
    proof {
        lemma_pow2_adds(l, nv as nat);
        lemma_pow2_pos(nv as nat);
        lemma_fits_times(m as nat, size as nat);
        vstd::arithmetic::mul::lemma_mul_is_commutative(m as int, size as int);
    }
    if m > usize::MAX / size {
        assert(pow2(l + nv as nat) > usize::MAX);
        assert(!sumfold_inputs(polys, sums, l));
        return false;
    }
    let t = p0.flattened_ml_extensions.len();
    let mut i: usize = 0;
    while i < m
        invariant
            m == instances@.len(),
            i <= m,
            polys == inst_polys(instances@),
            nv == polys[0].aux_info.num_variables,
            t == polys[0].flattened_ml_extensions@.len(),
            size == pow2(nv as nat),
            forall|k: int|
                0 <= k < i ==> {
                    &&& (#[trigger] polys[k]).aux_info.num_variables == nv
                    &&& polys[k].flattened_ml_extensions@.len() >= t
                    &&& forall|j: int| 0 <= j < t ==> (#[trigger] polys[k].tables()[j]).len() == pow2(nv as nat)
                },
        decreases m - i,
    {
        let pi = &instances[i].poly;
        assert(polys[i as int] == *pi);
        if pi.aux_info.num_variables != nv || pi.flattened_ml_extensions.len() < t {
            assert(!sumfold_inputs(polys, sums, l)) by {
                assert(polys[i as int].aux_info.num_variables != nv
                    || polys[i as int].flattened_ml_extensions@.len() < t);
            }
            return false;
        }
        let mut j: usize = 0;
        while j < t
            invariant
                j <= t,
                t <= pi.flattened_ml_extensions@.len(),
                size == pow2(nv as nat),
                forall|k: int| 0 <= k < j ==> (#[trigger] pi.tables()[k]).len() == size,
            decreases t - j,
        {
            assert(pi.tables()[j as int] == fe_vals(pi.flattened_ml_extensions@[j as int].evaluations@));
            if pi.flattened_ml_extensions[j].evaluations.len() != size {
                assert(!sumfold_inputs(polys, sums, l)) by {
                    assert(polys[i as int].tables()[j as int].len() != pow2(nv as nat));
                }
                return false;
            }
            j = j + 1;
        }
        i = i + 1;
    }
    true
}

/// No structural problem among parties `i..` means every one of them agrees with
/// party 0 and has its number of rounds.
proof fn lemma_first_invalid_none(ps: Seq<SumFoldProof>, i: int)
    requires
        1 <= i,
        first_invalid(ps, i) is None,
    ensures
        forall|p: int|
            i <= p < ps.len() ==> aux_compatible(ps, p) && (#[trigger] ps[p]).proof.proofs@.len() == num_rounds(ps),
    decreases ps.len() - i,
{
    if i < ps.len() {
        lemma_first_invalid_none(ps, i + 1);
    }
}

/// Whether `merge_and_verify_sumfold` may be called on these proofs.
#[verifier::loop_isolation(false)]
pub fn merge_proofs_fit(ps: &Vec<SumFoldProof>) -> (r: bool)
    ensures
        r == merge_inputs(ps@),
{
    if ps.len() == 0 {
        return true;
    }
    if check_parties(ps).is_some() {
        return true;
    }
    proof {
        lemma_first_invalid_none(ps@, 1);
    }
    let nr = ps[0].q_aux_info.num_variables;
    let d = ps[0].q_aux_info.max_degree;
    let p0 = &ps[0].proof.proofs;
    if d < 1 || d >= 0x7FF_FFFF {
        return false;
    }
    if p0.len() < nr {
        return false;
    }
    let mut r: usize = 0;
    while r < nr
        invariant
            r <= nr,
            nr <= p0@.len(),
            forall|k: int| 0 <= k < r ==> (#[trigger] p0@[k]).evaluations@.len() <= 0x7FF_FFFF,
        decreases nr - r,
    {
        if p0[r].evaluations.len() > 0x7FF_FFFF {
            assert(!messages_fit(ps@[0].proof.proofs@, num_rounds(ps@))) by {
                assert(ps@[0].proof.proofs@[r as int].evaluations@.len() > 0x7FF_FFFF);
            }
            return false;
        }
        r = r + 1;
    }
    let mut p: usize = 1;
    while p < ps.len()
        invariant
            1 <= p <= ps@.len(),
            nr == num_rounds(ps@),
            p0 == ps@[0].proof.proofs,
            forall|q: int| 1 <= q < ps@.len() ==> (#[trigger] ps@[q]).proof.proofs@.len() == num_rounds(ps@),
            forall|q: int, k: int|
                1 <= q < p && 0 <= k < nr ==> (#[trigger] ps@[q].proof.proofs@[k]).evaluations@.len()
                    <= ps@[0].proof.proofs@[k].evaluations@.len(),
        decreases ps.len() - p,
    {
        assert(ps@[p as int].proof.proofs@.len() == nr);
        let mut r: usize = 0;
        while r < nr
            invariant
                1 <= p < ps@.len(),
                r <= nr,
                nr == num_rounds(ps@),
                p0 == ps@[0].proof.proofs,
                ps@[p as int].proof.proofs@.len() == nr,
                forall|k: int|
                    0 <= k < r ==> (#[trigger] ps@[p as int].proof.proofs@[k]).evaluations@.len()
                        <= ps@[0].proof.proofs@[k].evaluations@.len(),
            decreases nr - r,
        {
            if ps[p].proof.proofs[r].evaluations.len() > p0[r].evaluations.len() {
                assert(!merge_inputs(ps@)) by {
                    assert(ps@[p as int].proof.proofs@[r as int].evaluations@.len()
                        > ps@[0].proof.proofs@[r as int].evaluations@.len());
                }
                return false;
            }
            r = r + 1;
        }
        p = p + 1;
    }
    true
}

// ---------------------------------------------------------------------------
// Phase 3: the final proof
// ---------------------------------------------------------------------------

/// Phase 3: the final proof from the outcome of the distributed SumCheck on the
/// folded instance, on this party. The master holds the SumCheck proof and gets
/// `Some(Proof)`; workers only took part in the aggregation and get `None`; a
/// failed SumCheck is reported as such.
pub fn prove_hyper_pianist(outcome: Result<Option<IOPProof>, PolyIOPErrors>) -> (r: Result<
    Option<Proof>,
    DeSnarkError,
>)
    ensures
        outcome matches Err(e) ==> r == Err::<Option<Proof>, DeSnarkError>(
            DeSnarkError::HyperPlonkError(ProtocolError::DistributedSumCheck(e)),
        ),
        outcome matches Ok(None) ==> r == Ok::<Option<Proof>, DeSnarkError>(None),
        outcome matches Ok(Some(p)) ==> r == Ok::<Option<Proof>, DeSnarkError>(
            Some(Proof { sumcheck_proof: p }),
        ),
{
    match outcome {
        Err(e) => Err(DeSnarkError::HyperPlonkError(ProtocolError::DistributedSumCheck(e))),
        Ok(Some(sumcheck_proof)) => Ok(Some(Proof { sumcheck_proof })),
        Ok(None) => Ok(None),
    }
}

// ---------------------------------------------------------------------------
// Network check
// ---------------------------------------------------------------------------

/// `r + i` modulo `2^64`: what party `i` answers to the challenge `r`.
pub open spec fn expected_response(r: u64, i: nat) -> nat {
    (r as nat + i) % 0x1_0000_0000_0000_0000
}

/// The response of party `party_id` to the master's challenge `r`: `r + party_id`,
/// wrapping.
pub fn network_response(r: u64, party_id: usize) -> (resp: u64)
    ensures
        resp as nat == expected_response(r, party_id as nat),
{
    let resp = r.wrapping_add(party_id as u64);
    proof {
        let s = r as nat + party_id as nat;
        if s > u64::MAX {
            vstd::arithmetic::div_mod::lemma_fundamental_div_mod_converse(
                s as int, 0x1_0000_0000_0000_0000, 1, s - 0x1_0000_0000_0000_0000);
        } else {
            vstd::arithmetic::div_mod::lemma_small_mod(s, 0x1_0000_0000_0000_0000);
        }
    }
    resp
}

/// The first party whose response differs from the expected one, from `i` on.
pub open spec fn first_bad_response(r: u64, responses: Seq<u64>, i: int) -> Option<int>
    decreases responses.len() - i,
{
    if i >= responses.len() {
        None
    } else if responses[i] as nat != expected_response(r, i as nat) {
        Some(i)
    } else {
        first_bad_response(r, responses, i + 1)
    }
}

/// Checks the responses the master collected for the challenge `r`, in party
/// order: the first response that is not `r + i` (wrapping) fails the check.
pub fn verify_network_responses(r: u64, responses: &Vec<u64>) -> (res: Result<(), DeSnarkError>)
    ensures
        first_bad_response(r, responses@, 0) is None ==> res is Ok,
        first_bad_response(r, responses@, 0) matches Some(i) ==> res == Err::<(), DeSnarkError>(
            DeSnarkError::NetworkError(NetworkFailure::ResponseMismatch {
                party: i as usize,
                got: responses@[i],
                expected: expected_response(r, i as nat) as u64,
            }),
        ),
{
    let mut i: usize = 0;
    while i < responses.len()
        invariant
            i <= responses@.len(),
            first_bad_response(r, responses@, 0) == first_bad_response(r, responses@, i as int),
        decreases responses.len() - i,
    {
        let expected = network_response(r, i);
        if responses[i] != expected {
            return Err(DeSnarkError::NetworkError(NetworkFailure::ResponseMismatch {
                party: i,
                got: responses[i],
                expected,
            }));
        }
        i = i + 1;
    }
    Ok(())
}

} // verus!
