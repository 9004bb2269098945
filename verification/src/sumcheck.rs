//! The SumCheck protocol over virtual polynomials: the prover's round messages,
//! the prover, and the verifier that reduces a claimed sum to a subclaim about
//! one evaluation.

use vstd::prelude::*;
use vstd::arithmetic::power2::*;
use vstd::string::StringSliceAdditionalSpecFns;
use crate::field::{
    Fe, fadd, fe_vals, fmul, fprod, fsum, le_bytes, lemma_fprod_new_step, lemma_fsum_new_step,
};
use crate::poly::{
    AuxInfo, VirtualPolynomial, copy_vec, fix_all, fix_many, fix_one, fix_variable, interpolate_uni_poly,
    interpolation, lagrange_defined, lin_at, product_vals, products_wf, tables_sized,
};
use crate::transcript::{
    IOPTranscript, TranscriptError, TranscriptOp, after_challenge, challenge_value, elems_bytes,
    lemma_elems_bytes_len, lemma_le_bytes_len, message_op, serialize_elements, vec_bytes,
};

verus! {

// ---------------------------------------------------------------------------
// Data
// ---------------------------------------------------------------------------

/// One prover message: the round polynomial's values at `0, 1, ..., degree`.
#[derive(Debug, PartialEq, Eq)]
pub struct IOPProverMessage {
    /// The evaluations.
    pub evaluations: Vec<Fe>,
}

/// A SumCheck proof: the verifier's challenges and the prover's messages.
#[derive(Debug, PartialEq, Eq)]
pub struct IOPProof {
    /// The challenges, one per round.
    pub point: Vec<Fe>,
    /// The prover messages, one per round.
    pub proofs: Vec<IOPProverMessage>,
}

/// What the verifier is left to check: the polynomial at `point` equals
/// `expected_evaluation`.
#[derive(Debug, PartialEq, Eq)]
pub struct SumCheckSubClaim {
    /// The point.
    pub point: Vec<Fe>,
    /// The expected evaluation.
    pub expected_evaluation: Fe,
}

/// Errors of the SumCheck and SumFold protocols.
#[derive(Debug, Clone, Copy, PartialEq, Eq)]
pub enum PolyIOPErrors {
    /// The prover was asked something it cannot do.
    InvalidProver,
    /// The verifier's state or input does not fit.
    InvalidVerifier,
    /// The proof is not consistent with the claim.
    InvalidProof,
    /// The parameters are out of range.
    InvalidParameters,
    /// The transcript refused a request.
    Transcript(TranscriptError),
}

/// The values of the messages of a proof.
pub open spec fn msg_vals(ms: Seq<IOPProverMessage>) -> Seq<Seq<nat>> {
    ms.map_values(|m: IOPProverMessage| fe_vals(m.evaluations@))
}

/// The values of a vector of tables.
pub open spec fn table_vals(ts: Seq<Vec<Fe>>) -> Seq<Seq<nat>> {
    ts.map_values(|t: Vec<Fe>| fe_vals(t@))
}

// ---------------------------------------------------------------------------
// Round polynomials
// ---------------------------------------------------------------------------

/// The product of the multiplicands `idx`, each on its line at pair `b`, at `x`.
pub open spec fn prod_at(ts: Seq<Seq<nat>>, idx: Seq<usize>, b: int, x: nat) -> nat {
    fprod(Seq::new(idx.len(), |q: int| lin_at(ts[idx[q] as int], b, x)))
}

/// The polynomial `sum_p c_p prod_{j in p} f_j` with every table on its line at pair
/// `b`, at `x`.
pub open spec fn terms_at(ts: Seq<Seq<nat>>, prods: Seq<(nat, Seq<usize>)>, b: int, x: nat) -> nat {
    fsum(Seq::new(prods.len(), |p: int| fmul(prods[p].0, prod_at(ts, prods[p].1, b, x))))
}

/// The weight of pair `b` in a round: the eq table on its line at `x` when one is
/// given, otherwise one.
pub open spec fn weight_at(eqt: Option<Seq<nat>>, b: int, x: nat) -> nat {
    match eqt {
        Some(e) => lin_at(e, b % (e.len() / 2) as int, x),
        None => 1,
    }
}

/// The weighted terms of pair `b` at `x`.
pub open spec fn weighted_at(
    ts: Seq<Seq<nat>>,
    eqt: Option<Seq<nat>>,
    prods: Seq<(nat, Seq<usize>)>,
    b: int,
    x: nat,
) -> nat {
    match eqt {
        Some(_) => fmul(weight_at(eqt, b, x), terms_at(ts, prods, b, x)),
        None => terms_at(ts, prods, b, x),
    }
}

/// The round polynomial's value at `x`: the sum over the `nb` pairs of the
/// weighted terms.
pub open spec fn round_value(
    ts: Seq<Seq<nat>>,
    eqt: Option<Seq<nat>>,
    prods: Seq<(nat, Seq<usize>)>,
    nb: nat,
    x: nat,
) -> nat {
    fsum(Seq::new(nb, |b: int| weighted_at(ts, eqt, prods, b, x)))
}

/// A round message: the round polynomial at `0, 1, ..., deg`.
pub open spec fn round_msg(
    ts: Seq<Seq<nat>>,
    eqt: Option<Seq<nat>>,
    prods: Seq<(nat, Seq<usize>)>,
    nb: nat,
    deg: nat,
) -> Seq<nat> {
    Seq::new(deg + 1, |k: int| round_value(ts, eqt, prods, nb, k as nat))
}

/// The tables and products fit a round over `nb` pairs: every table has `2 nb`
/// entries, every multiplicand index points at a table, and an eq table has an even
/// number of entries, at least two.
pub open spec fn round_inputs_wf(
    ts: Seq<Seq<nat>>,
    eqt: Option<Seq<nat>>,
    prods: Seq<(nat, Seq<usize>)>,
    nb: nat,
) -> bool {
    &&& tables_sized(ts, 2 * nb)
    &&& forall|p: int, q: int|
        0 <= p < prods.len() && 0 <= q < prods[p].1.len() ==> (#[trigger] prods[p].1[q]) < ts.len()
    &&& match eqt {
        Some(e) => e.len() >= 2 && e.len() % 2 == 0,
        None => true,
    }
}

fn lin_value(t: &Vec<Fe>, b: usize, x: Fe) -> (r: Fe)
    requires
        2 * b + 1 < t@.len(),
    ensures
        r.val() == lin_at(fe_vals(t@), b as int, x.val()),
{
    let n = t.len();
    assert(2 * b + 1 < n);
    let lo = t[2 * b];
    let hi = t[2 * b + 1];
    lo.add(hi.sub(lo).mul(x))
}

fn product_value(ts: &Vec<Vec<Fe>>, idx: &Vec<usize>, b: usize, x: Fe) -> (r: Fe)
    requires
        forall|q: int| 0 <= q < idx@.len() ==> (#[trigger] idx@[q]) < ts@.len(),
        forall|j: int| 0 <= j < ts@.len() ==> 2 * b + 1 < (#[trigger] ts@[j])@.len(),
    ensures
        r.val() == prod_at(table_vals(ts@), idx@, b as int, x.val()),
{
    let ghost tv = table_vals(ts@);
    let ghost f = |q: int| lin_at(tv[idx@[q] as int], b as int, x.val());
    let mut acc = Fe::one();
    let mut q: usize = 0;
    assert(Seq::new(0, f) =~= Seq::<nat>::empty());
    while q < idx.len()
        invariant
            forall|q: int| 0 <= q < idx@.len() ==> (#[trigger] idx@[q]) < ts@.len(),
            forall|j: int| 0 <= j < ts@.len() ==> 2 * b + 1 < (#[trigger] ts@[j])@.len(),
            tv == table_vals(ts@),
            f == (|q: int| lin_at(tv[idx@[q] as int], b as int, x.val())),
            q <= idx@.len(),
            acc.val() == fprod(Seq::new(q as nat, f)),
        decreases idx.len() - q,
    {
        let j = idx[q];
        let v = lin_value(&ts[j], b, x);
        proof {
            lemma_fprod_new_step(q as nat, f);
        }
        acc = acc.mul(v);
        q = q + 1;
    }
    acc
}

fn terms_value(ts: &Vec<Vec<Fe>>, products: &Vec<(Fe, Vec<usize>)>, b: usize, x: Fe) -> (r: Fe)
    requires
        forall|p: int, q: int|
            0 <= p < products@.len() && 0 <= q < products@[p].1@.len()
                ==> (#[trigger] products@[p].1@[q]) < ts@.len(),
        forall|j: int| 0 <= j < ts@.len() ==> 2 * b + 1 < (#[trigger] ts@[j])@.len(),
    ensures
        r.val() == terms_at(table_vals(ts@), product_vals(products@), b as int, x.val()),
{
    let ghost tv = table_vals(ts@);
    let ghost pv = product_vals(products@);
    let ghost f = |p: int| fmul(pv[p].0, prod_at(tv, pv[p].1, b as int, x.val()));
    let mut acc = Fe::zero();
    let mut p: usize = 0;
    assert(Seq::new(0, f) =~= Seq::<nat>::empty());
    while p < products.len()
        invariant
            forall|p: int, q: int|
                0 <= p < products@.len() && 0 <= q < products@[p].1@.len()
                    ==> (#[trigger] products@[p].1@[q]) < ts@.len(),
            forall|j: int| 0 <= j < ts@.len() ==> 2 * b + 1 < (#[trigger] ts@[j])@.len(),
            tv == table_vals(ts@),
            pv == product_vals(products@),
            f == (|p: int| fmul(pv[p].0, prod_at(tv, pv[p].1, b as int, x.val()))),
            p <= products@.len(),
            acc.val() == fsum(Seq::new(p as nat, f)),
        decreases products.len() - p,
    {
        let c = products[p].0;
        let v = product_value(ts, &products[p].1, b, x);
        proof {
            lemma_fsum_new_step(p as nat, f);
        }
        acc = acc.add(c.mul(v));
        p = p + 1;
    }
    acc
}

/// The round polynomial's value at `x` (a small integer).
fn round_value_at(
    ts: &Vec<Vec<Fe>>,
    eqt: &Option<Vec<Fe>>,
    products: &Vec<(Fe, Vec<usize>)>,
    nb: usize,
    x: Fe,
) -> (r: Fe)
    requires
        round_inputs_wf(table_vals(ts@), opt_vals(*eqt), product_vals(products@), nb as nat),
    ensures
        r.val() == round_value(table_vals(ts@), opt_vals(*eqt), product_vals(products@), nb as nat, x.val()),
{
    let ghost tv = table_vals(ts@);
    let ghost ev = opt_vals(*eqt);
    let ghost pv = product_vals(products@);
    let ghost f = |b: int| weighted_at(tv, ev, pv, b, x.val());
    proof {
        assert forall|j: int| 0 <= j < ts@.len() implies #[trigger] ts@[j]@.len() == 2 * nb by {
            assert(tv[j].len() == 2 * nb);
        }
        assert forall|p: int, q: int|
            0 <= p < products@.len() && 0 <= q < products@[p].1@.len()
                implies (#[trigger] products@[p].1@[q]) < ts@.len() by {
            assert(pv[p].1[q] == products@[p].1@[q]);
        }
    }
    let mut acc = Fe::zero();
    let mut b: usize = 0;
    assert(Seq::new(0, f) =~= Seq::<nat>::empty());
    while b < nb
        invariant
            forall|j: int| 0 <= j < ts@.len() ==> (#[trigger] ts@[j])@.len() == 2 * nb,
            forall|p: int, q: int|
                0 <= p < products@.len() && 0 <= q < products@[p].1@.len()
                    ==> (#[trigger] products@[p].1@[q]) < ts@.len(),
            round_inputs_wf(tv, ev, pv, nb as nat),
            tv == table_vals(ts@),
            ev == opt_vals(*eqt),
            pv == product_vals(products@),
            f == (|b: int| weighted_at(tv, ev, pv, b, x.val())),
            b <= nb,
            acc.val() == fsum(Seq::new(b as nat, f)),
        decreases nb - b,
    {
        let t = terms_value(ts, products, b, x);
        proof {
            lemma_fsum_new_step(b as nat, f);
        }
        match eqt {
            Some(e) => {
                let ne = e.len() / 2;
                let w = lin_value(e, b % ne, x);
                acc = acc.add(w.mul(t));
            },
            None => {
                acc = acc.add(t);
            },
        }
        b = b + 1;
    }
    acc
}

/// The values of an optional table.
pub open spec fn opt_vals(e: Option<Vec<Fe>>) -> Option<Seq<nat>> {
    match e {
        Some(v) => Some(fe_vals(v@)),
        None => None,
    }
}

/// A round message: the round polynomial at `0, 1, ..., deg`.
fn round_message(
    ts: &Vec<Vec<Fe>>,
    eqt: &Option<Vec<Fe>>,
    products: &Vec<(Fe, Vec<usize>)>,
    nb: usize,
    deg: usize,
) -> (r: Vec<Fe>)
    requires
        round_inputs_wf(table_vals(ts@), opt_vals(*eqt), product_vals(products@), nb as nat),
        deg < u64::MAX,
        deg < usize::MAX,
    ensures
        fe_vals(r@) == round_msg(table_vals(ts@), opt_vals(*eqt), product_vals(products@), nb as nat, deg as nat),
{
    let mut r: Vec<Fe> = Vec::new();
    let mut k: usize = 0;
    while k <= deg
        invariant
            round_inputs_wf(table_vals(ts@), opt_vals(*eqt), product_vals(products@), nb as nat),
            deg < u64::MAX,
            deg < usize::MAX,
            k <= deg + 1,
            r@.len() == k,
            forall|i: int|
                0 <= i < k ==> (#[trigger] r@[i]).val() == round_value(
                    table_vals(ts@),
                    opt_vals(*eqt),
                    product_vals(products@),
                    nb as nat,
                    i as nat,
                ),
        decreases deg + 1 - k,
    {
        let x = Fe::from_u64(k as u64);
        let v = round_value_at(ts, eqt, products, nb, x);
        r.push(v);
        k = k + 1;
    }
    assert(fe_vals(r@) =~= round_msg(table_vals(ts@), opt_vals(*eqt), product_vals(products@), nb as nat, deg as nat));
    r
}

// ---------------------------------------------------------------------------
// Running the rounds
// ---------------------------------------------------------------------------

/// The label under which prover messages are appended.
pub open spec fn prover_msg_label() -> Seq<u8> {
    "prover msg".spec_bytes()
}

/// The label under which round challenges are squeezed.
pub open spec fn round_label() -> Seq<u8> {
    "Internal round".spec_bytes()
}

/// The state of the prover after some rounds: the messages sent, the challenges
/// received, the transcript, the tables (and eq table) with their lowest variables
/// fixed to the challenges, and their size.
pub struct RoundState {
    pub msgs: Seq<Seq<nat>>,
    pub chals: Seq<nat>,
    pub ops: Seq<TranscriptOp>,
    pub tables: Seq<Seq<nat>>,
    pub eqt: Option<Seq<nat>>,
    pub size: nat,
}

/// An optional table with its lowest variable fixed to `r`.
pub open spec fn opt_fix(e: Option<Seq<nat>>, r: nat) -> Option<Seq<nat>> {
    match e {
        Some(t) => Some(fix_one(t, r)),
        None => None,
    }
}

/// The prover after `n` rounds, starting from tables of `size` entries, an
/// optional eq table, and a transcript that has absorbed `ops`. Each round sends
/// the round polynomial at `0..=deg`, squeezes a challenge, and fixes the lowest
/// variable of every table to it.
pub open spec fn run_rounds(
    ts: Seq<Seq<nat>>,
    eqt: Option<Seq<nat>>,
    prods: Seq<(nat, Seq<usize>)>,
    deg: nat,
    size: nat,
    ops: Seq<TranscriptOp>,
    n: nat,
) -> RoundState
    decreases n,
{
    if n == 0 {
        RoundState { msgs: Seq::empty(), chals: Seq::empty(), ops, tables: ts, eqt, size }
    } else {
        let s = run_rounds(ts, eqt, prods, deg, size, ops, (n - 1) as nat);
        let nb = s.size / 2;
        let msg = round_msg(s.tables, s.eqt, prods, nb, deg);
        let ops1 = s.ops.push(message_op(prover_msg_label(), vec_bytes(msg)));
        let c = challenge_value(ops1, round_label());
        RoundState {
            msgs: s.msgs.push(msg),
            chals: s.chals.push(c),
            ops: after_challenge(ops1, round_label()),
            tables: fix_all(s.tables, c),
            eqt: opt_fix(s.eqt, c),
            size: nb,
        }
    }
}

/// After `n` rounds the prover has sent `n` messages and received `n` challenges.
pub proof fn lemma_run_rounds_len(
    ts: Seq<Seq<nat>>,
    eqt: Option<Seq<nat>>,
    prods: Seq<(nat, Seq<usize>)>,
    deg: nat,
    size: nat,
    ops: Seq<TranscriptOp>,
    n: nat,
)
    ensures
        run_rounds(ts, eqt, prods, deg, size, ops, n).msgs.len() == n,
        run_rounds(ts, eqt, prods, deg, size, ops, n).chals.len() == n,
    decreases n,
{
    if n > 0 {
        lemma_run_rounds_len(ts, eqt, prods, deg, size, ops, (n - 1) as nat);
    }
}

/// After `n` rounds every table has its lowest `n` variables fixed to the
/// challenges.
pub proof fn lemma_run_rounds_tables(
    ts: Seq<Seq<nat>>,
    eqt: Option<Seq<nat>>,
    prods: Seq<(nat, Seq<usize>)>,
    deg: nat,
    size: nat,
    ops: Seq<TranscriptOp>,
    n: nat,
)
    ensures
        ({
            let s = run_rounds(ts, eqt, prods, deg, size, ops, n);
            s.tables == Seq::new(ts.len(), |j: int| fix_many(ts[j], s.chals))
        }),
    decreases n,
{
    let s = run_rounds(ts, eqt, prods, deg, size, ops, n);
    if n == 0 {
        assert forall|j: int| 0 <= j < ts.len() implies #[trigger] fix_many(ts[j], s.chals) == ts[j] by {}
        assert(s.tables =~= Seq::new(ts.len(), |j: int| fix_many(ts[j], s.chals)));
    } else {
        let s0 = run_rounds(ts, eqt, prods, deg, size, ops, (n - 1) as nat);
        lemma_run_rounds_tables(ts, eqt, prods, deg, size, ops, (n - 1) as nat);
        assert(s.chals.drop_last() =~= s0.chals);
        assert forall|j: int| 0 <= j < ts.len() implies #[trigger] s.tables[j] == fix_many(ts[j], s.chals) by {
            assert(fix_many(ts[j], s.chals) == fix_one(fix_many(ts[j], s.chals.drop_last()), s.chals.last()));
        }
        assert(s.tables =~= Seq::new(ts.len(), |j: int| fix_many(ts[j], s.chals)));
    }
}

/// Every message of the prover has `deg + 1` values.
pub proof fn lemma_run_rounds_msg_len(
    ts: Seq<Seq<nat>>,
    eqt: Option<Seq<nat>>,
    prods: Seq<(nat, Seq<usize>)>,
    deg: nat,
    size: nat,
    ops: Seq<TranscriptOp>,
    n: nat,
)
    ensures
        forall|i: int|
            0 <= i < n ==> (#[trigger] run_rounds(ts, eqt, prods, deg, size, ops, n).msgs[i]).len()
                == deg + 1,
    decreases n,
{
    if n > 0 {
        lemma_run_rounds_msg_len(ts, eqt, prods, deg, size, ops, (n - 1) as nat);
        lemma_run_rounds_len(ts, eqt, prods, deg, size, ops, (n - 1) as nat);
    }
}

/// A message of `deg + 1` elements fits in one transcript message: its encoding,
/// an 8-byte length and 32 bytes per element, is at most `u32::MAX` bytes long.
pub open spec fn degree_fits(deg: nat) -> bool {
    8 + 32 * (deg + 1) <= u32::MAX
}

/// Runs `n` prover rounds.
pub(crate) fn prove_rounds(
    tables: Vec<Vec<Fe>>,
    eqt: Option<Vec<Fe>>,
    products: &Vec<(Fe, Vec<usize>)>,
    deg: usize,
    size: usize,
    n: usize,
    transcript: &mut IOPTranscript,
    Ghost(extra): Ghost<nat>,
) -> (r: (Vec<IOPProverMessage>, Vec<Fe>, Vec<Vec<Fe>>, Option<Vec<Fe>>))
    requires
        !old(transcript).empty(),
        size as nat == pow2(n as nat + extra),
        tables_sized(table_vals(tables@), size as nat),
        forall|p: int, q: int|
            0 <= p < products@.len() && 0 <= q < products@[p].1@.len()
                ==> (#[trigger] products@[p].1@[q]) < tables@.len(),
        eqt matches Some(e) ==> e@.len() == pow2(n as nat),
        degree_fits(deg as nat),
    ensures
        ({
            let s = run_rounds(
                table_vals(tables@),
                opt_vals(eqt),
                product_vals(products@),
                deg as nat,
                size as nat,
                old(transcript).ops(),
                n as nat,
            );
            &&& msg_vals(r.0@) == s.msgs
            &&& fe_vals(r.1@) == s.chals
            &&& table_vals(r.2@) == s.tables
            &&& opt_vals(r.3) == s.eqt
            &&& final(transcript).ops() == s.ops
            &&& !final(transcript).empty()
        }),
{
    let ghost ts0 = table_vals(tables@);
    let ghost e0 = opt_vals(eqt);
    let ghost pv = product_vals(products@);
    let ghost ops0 = transcript.ops();
    let mut tables = tables;
    let mut eqt = eqt;
    let mut msgs: Vec<IOPProverMessage> = Vec::new();
    let mut chals: Vec<Fe> = Vec::new();
    let mut cur: usize = size;
    let mut i: usize = 0;
    proof {
        assert(msg_vals(msgs@) =~= Seq::<Seq<nat>>::empty());
        assert(fe_vals(chals@) =~= Seq::<nat>::empty());
    }
    while i < n
        invariant
            i <= n,
            pv == product_vals(products@),
            degree_fits(deg as nat),
            cur as nat == pow2((n - i) as nat + extra),
            tables@.len() == ts0.len(),
            tables_sized(table_vals(tables@), cur as nat),
            forall|p: int, q: int|
                0 <= p < products@.len() && 0 <= q < products@[p].1@.len()
                    ==> (#[trigger] products@[p].1@[q]) < tables@.len(),
            eqt matches Some(e) ==> e@.len() == pow2((n - i) as nat),
            e0 is Some <==> eqt is Some,
            i > 0 ==> !transcript.empty(),
            !transcript.empty(),
            ({
                let s = run_rounds(ts0, e0, pv, deg as nat, size as nat, ops0, i as nat);
                &&& msg_vals(msgs@) == s.msgs
                &&& fe_vals(chals@) == s.chals
                &&& table_vals(tables@) == s.tables
                &&& opt_vals(eqt) == s.eqt
                &&& transcript.ops() == s.ops
                &&& s.size == cur as nat
            }),
        decreases n - i,
    {
        let ghost s = run_rounds(ts0, e0, pv, deg as nat, size as nat, ops0, i as nat);
        proof {
            lemma_pow2_unfold((n - i) as nat + extra);
            lemma_pow2_unfold((n - i) as nat);
            lemma_pow2_pos((n - i - 1) as nat);
            lemma_pow2_pos((n - i - 1) as nat + extra);
        }
        let nb = cur / 2;
        assert(cur == 2 * nb);
        proof {
            assert(round_inputs_wf(table_vals(tables@), opt_vals(eqt), pv, nb as nat)) by {
                assert forall|j: int| 0 <= j < table_vals(tables@).len()
                    implies (#[trigger] table_vals(tables@)[j]).len() == 2 * nb by {
                    assert(table_vals(tables@)[j].len() == cur);
                }
                assert forall|p: int, q: int|
                    0 <= p < pv.len() && 0 <= q < pv[p].1.len()
                        implies (#[trigger] pv[p].1[q]) < table_vals(tables@).len() by {
                    assert(pv[p].1[q] == products@[p].1@[q]);
                }
                match eqt {
                    Some(e) => {
                        assert(fe_vals(e@).len() == e@.len());
                    },
                    None => {},
                }
            }
        }
        let evals = round_message(&tables, &eqt, products, nb, deg);
        let bytes = serialize_elements(&evals);
        proof {
            assert(fe_vals(evals@).len() == evals@.len());
            assert(evals@.len() == deg + 1);
            lemma_le_bytes_len(evals@.len() as nat, 8);
            lemma_elems_bytes_len(fe_vals(evals@));
            assert(bytes@.len() == 8 + 32 * (deg + 1));
        }
        transcript.append_message("prover msg".as_bytes(), bytes.as_slice());
        let c = match transcript.get_and_append_challenge("Internal round".as_bytes()) {
            Ok(c) => c,
            Err(_) => {
                assert(false);
                Fe::zero()
            },
        };
        // fix the lowest variable of every table to the challenge
        let mut next: Vec<Vec<Fe>> = Vec::new();
        let mut j: usize = 0;
        while j < tables.len()
            invariant
                j <= tables@.len(),
                next@.len() == j,
                forall|k: int| 0 <= k < j ==> fe_vals((#[trigger] next@[k])@) == fix_one(fe_vals(tables@[k]@), c.val()),
            decreases tables.len() - j,
        {
            let t = fix_variable(&tables[j], c);
            next.push(t);
            j = j + 1;
        }
        proof {
            assert(table_vals(next@) =~= fix_all(table_vals(tables@), c.val()));
            assert forall|k: int| 0 <= k < table_vals(next@).len()
                implies (#[trigger] table_vals(next@)[k]).len() == nb by {
                assert(table_vals(tables@)[k].len() == cur);
            }
        }
        tables = next;
        eqt = match eqt {
            Some(e) => {
                let e2 = fix_variable(&e, c);
                assert(fe_vals(e2@).len() == e2@.len());
                assert(fe_vals(e@).len() == e@.len());
                Some(e2)
            },
            None => None,
        };
        msgs.push(IOPProverMessage { evaluations: evals });
        chals.push(c);
        proof {
            let s2 = run_rounds(ts0, e0, pv, deg as nat, size as nat, ops0, (i + 1) as nat);
            assert(msg_vals(msgs@) =~= s2.msgs);
            assert(fe_vals(chals@) =~= s2.chals);
            assert(s2.size == nb);
            lemma_pow2_unfold((n - i) as nat + extra);
        }
        cur = nb;
        i = i + 1;
    }
    (msgs, chals, tables, eqt)
}

// ---------------------------------------------------------------------------
// The SumCheck prover and verifier
// ---------------------------------------------------------------------------

/// The label under which the auxiliary information is appended.
pub open spec fn aux_label() -> Seq<u8> {
    "aux info".spec_bytes()
}

/// The canonical encoding of the auxiliary information: its two counts as eight
/// little-endian bytes each.
pub open spec fn aux_bytes(a: AuxInfo) -> Seq<u8> {
    le_bytes(a.max_degree as nat, 8) + le_bytes(a.num_variables as nat, 8)
}

/// The canonical encoding of the auxiliary information.
pub fn serialize_aux(a: &AuxInfo) -> (r: Vec<u8>)
    ensures
        r@ == aux_bytes(*a),
        r@.len() == 16,
{
    let mut out = crate::transcript::usize_to_bytes(a.max_degree);
    let mut rest = crate::transcript::usize_to_bytes(a.num_variables);
    out.append(&mut rest);
    proof {
        lemma_le_bytes_len(a.max_degree as nat, 8);
        lemma_le_bytes_len(a.num_variables as nat, 8);
    }
    out
}

/// Copies of the evaluation tables of a virtual polynomial.
fn copy_tables(poly: &VirtualPolynomial) -> (r: Vec<Vec<Fe>>)
    ensures
        table_vals(r@) == poly.tables(),
{
    let mut r: Vec<Vec<Fe>> = Vec::new();
    let mut j: usize = 0;
    while j < poly.flattened_ml_extensions.len()
        invariant
            j <= poly.flattened_ml_extensions@.len(),
            r@.len() == j,
            forall|k: int|
                0 <= k < j ==> (#[trigger] r@[k])@ == poly.flattened_ml_extensions@[k].evaluations@,
        decreases poly.flattened_ml_extensions.len() - j,
    {
        r.push(copy_vec(&poly.flattened_ml_extensions[j].evaluations));
        j = j + 1;
    }
    assert(table_vals(r@) =~= poly.tables());
    r
}

/// The operations after appending the auxiliary information.
pub open spec fn ops_with_aux(ops: Seq<TranscriptOp>, a: AuxInfo) -> Seq<TranscriptOp> {
    ops.push(message_op(aux_label(), aux_bytes(a)))
}

/// The honest prover's run on a polynomial, after the auxiliary information.
pub open spec fn prover_run(poly: &VirtualPolynomial, ops: Seq<TranscriptOp>) -> RoundState {
    run_rounds(
        poly.tables(),
        None,
        poly.prods(),
        poly.aux_info.max_degree as nat,
        pow2(poly.aux_info.num_variables as nat),
        ops_with_aux(ops, poly.aux_info),
        poly.aux_info.num_variables as nat,
    )
}

/// `SumCheck::prove`: the proof that `poly` sums to its sum over the boolean
/// hypercube. Appends the auxiliary information, then for each variable sends the
/// round polynomial at `0..=max_degree` and receives a challenge. A polynomial in no
/// variable is refused.
pub fn prove(poly: &VirtualPolynomial, transcript: &mut IOPTranscript) -> (r: Result<
    IOPProof,
    PolyIOPErrors,
>)
    requires
        poly.wf(),
        degree_fits(poly.aux_info.max_degree as nat),
    ensures
        poly.aux_info.num_variables == 0 ==> r == Err::<IOPProof, PolyIOPErrors>(
            PolyIOPErrors::InvalidParameters,
        ) && final(transcript).ops() == ops_with_aux(old(transcript).ops(), poly.aux_info),
        poly.aux_info.num_variables > 0 ==> (r matches Ok(proof) && {
            let s = prover_run(poly, old(transcript).ops());
            &&& msg_vals(proof.proofs@) == s.msgs
            &&& fe_vals(proof.point@) == s.chals
            &&& final(transcript).ops() == s.ops
        }),
        !final(transcript).empty(),
{
    let aux = serialize_aux(&poly.aux_info);
    transcript.append_message("aux info".as_bytes(), aux.as_slice());
    let nv = poly.aux_info.num_variables;
    if nv == 0 {
        return Err(PolyIOPErrors::InvalidParameters);
    }
    let tables = copy_tables(poly);
    let size = pow2_usize(nv);
    proof {
        assert(pow2(nv as nat + 0) == pow2(nv as nat));
        assert(table_vals(tables@).len() == tables@.len());
        assert(poly.tables().len() == poly.flattened_ml_extensions@.len());
        assert forall|p: int, q: int|
            0 <= p < poly.products@.len() && 0 <= q < poly.products@[p].1@.len()
                implies (#[trigger] poly.products@[p].1@[q]) < tables@.len() by {
            let pp = poly.prods()[p];
            assert(pp.1 == poly.products@[p].1@);
            assert(pp.1[q] < poly.flattened_ml_extensions@.len());
        }
    }
    let (msgs, chals, _, _) = prove_rounds(
        tables,
        None,
        &poly.products,
        poly.aux_info.max_degree,
        size,
        nv,
        transcript,
        Ghost(0),
    );
    Ok(IOPProof { point: chals, proofs: msgs })
}

/// `2^n` as a machine integer.
pub fn pow2_usize(n: usize) -> (r: usize)
    requires
        pow2(n as nat) <= usize::MAX,
    ensures
        r as nat == pow2(n as nat),
{
    let mut r: usize = 1;
    let mut i: usize = 0;
    proof {
        lemma2_to64();
    }
    while i < n
        invariant
            i <= n,
            r as nat == pow2(i as nat),
            pow2(n as nat) <= usize::MAX,
        decreases n - i,
    {
        proof {
            lemma_pow2_unfold((i + 1) as nat);
            if i + 1 < n {
                lemma_pow2_strictly_increases((i + 1) as nat, n as nat);
            }
        }
        r = 2 * r;
        i = i + 1;
    }
    r
}

/// `2^n` as a machine integer, for `n` below the word size.
pub fn pow2_usize_checked(n: usize) -> (r: usize)
    requires
        n < usize::BITS,
    ensures
        r as nat == pow2(n as nat),
{
    proof {
        lemma2_to64();
        lemma2_to64_rest();
        if n < usize::BITS - 1 {
            lemma_pow2_strictly_increases(n as nat, (usize::BITS - 1) as nat);
        }
        assert(pow2((usize::BITS - 1) as nat) <= usize::MAX);
    }
    pow2_usize(n)
}

/// The label a fresh SumCheck transcript is created with.
pub open spec fn init_label() -> Seq<u8> {
    "Initializing SumCheck transcript".spec_bytes()
}

/// What a fresh SumCheck transcript has absorbed.
pub open spec fn init_ops() -> Seq<TranscriptOp> {
    seq![message_op(crate::transcript::dom_sep_label(), init_label())]
}

/// `SumCheck::init_transcript`: a fresh transcript for the SumCheck protocol.
pub fn init_transcript() -> (r: IOPTranscript)
    ensures
        r.ops() == init_ops(),
        r.empty(),
{
    IOPTranscript::new("Initializing SumCheck transcript".as_bytes())
}

/// `SumCheck::extract_sum`: the sum the first message claims, its values at zero
/// and one added.
pub fn extract_sum(proof: &IOPProof) -> (r: Fe)
    requires
        proof.proofs@.len() >= 1,
        proof.proofs@[0].evaluations@.len() >= 2,
    ensures
        r.val() == fadd(
            proof.proofs@[0].evaluations@[0].val(),
            proof.proofs@[0].evaluations@[1].val(),
        ),
{
    proof.proofs[0].evaluations[0].add(proof.proofs[0].evaluations[1])
}

/// The verifier's challenges after `n` rounds of messages, and its transcript.
pub open spec fn verifier_rounds(ops: Seq<TranscriptOp>, msgs: Seq<Seq<nat>>, n: nat) -> (Seq<nat>, Seq<
    TranscriptOp,
>)
    decreases n,
{
    if n == 0 {
        (Seq::empty(), ops)
    } else {
        let (c, o) = verifier_rounds(ops, msgs, (n - 1) as nat);
        let o1 = o.push(message_op(prover_msg_label(), vec_bytes(msgs[n - 1])));
        (c.push(challenge_value(o1, round_label())), after_challenge(o1, round_label()))
    }
}

/// The value round `i` must sum to: the claim for the first round, the previous
/// round polynomial at its challenge afterwards.
pub open spec fn expected_at(sum: nat, msgs: Seq<Seq<nat>>, chals: Seq<nat>, i: int) -> nat {
    if i == 0 {
        sum
    } else {
        interpolation(msgs[i - 1], chals[i - 1])
    }
}

/// The verifier's verdict on `n` rounds of messages for a claimed sum, given its
/// challenges: the expected evaluation at the challenge point, or the error.
pub open spec fn sumcheck_verdict(
    sum: nat,
    msgs: Seq<Seq<nat>>,
    chals: Seq<nat>,
    n: nat,
    deg: nat,
) -> Result<nat, PolyIOPErrors> {
    if n == 0 {
        Err(PolyIOPErrors::InvalidVerifier)
    } else if exists|i: int| 0 <= i < n && (#[trigger] msgs[i]).len() != deg + 1 {
        Err(PolyIOPErrors::InvalidVerifier)
    } else if exists|i: int|
        0 <= i < n && fadd((#[trigger] msgs[i])[0], msgs[i][1]) != expected_at(sum, msgs, chals, i) {
        Err(PolyIOPErrors::InvalidProof)
    } else {
        Ok(interpolation(msgs[n - 1], chals[n - 1]))
    }
}

/// Every message of the first `n` has a length that fits a transcript message.
pub open spec fn messages_fit(ms: Seq<IOPProverMessage>, n: nat) -> bool {
    forall|i: int| 0 <= i < n ==> 8 + 32 * (#[trigger] ms[i]).evaluations@.len() <= u32::MAX
}

/// The verifier's rounds: appends each of the first `n` messages and squeezes a
/// challenge after each.
pub(crate) fn verify_rounds(proof: &IOPProof, n: usize, transcript: &mut IOPTranscript) -> (r: Vec<Fe>)
    requires
        !old(transcript).empty(),
        proof.proofs@.len() >= n,
        messages_fit(proof.proofs@, n as nat),
    ensures
        fe_vals(r@) == verifier_rounds(old(transcript).ops(), msg_vals(proof.proofs@), n as nat).0,
        final(transcript).ops() == verifier_rounds(old(transcript).ops(), msg_vals(proof.proofs@), n as nat).1,
        !final(transcript).empty(),
{
    let ghost ops0 = transcript.ops();
    let ghost mv = msg_vals(proof.proofs@);
    let mut chals: Vec<Fe> = Vec::new();
    let mut i: usize = 0;
    assert(fe_vals(chals@) =~= Seq::<nat>::empty());
    while i < n
        invariant
            i <= n,
            proof.proofs@.len() >= n,
            messages_fit(proof.proofs@, n as nat),
            mv == msg_vals(proof.proofs@),
            !transcript.empty(),
            fe_vals(chals@) == verifier_rounds(ops0, mv, i as nat).0,
            transcript.ops() == verifier_rounds(ops0, mv, i as nat).1,
        decreases n - i,
    {
        let msg = &proof.proofs[i];
        let bytes = serialize_elements(&msg.evaluations);
        proof {
            lemma_le_bytes_len(msg.evaluations@.len() as nat, 8);
            lemma_elems_bytes_len(fe_vals(msg.evaluations@));
            assert(bytes@.len() == 8 + 32 * msg.evaluations@.len());
            assert(mv[i as int] == fe_vals(msg.evaluations@));
        }
        transcript.append_message("prover msg".as_bytes(), bytes.as_slice());
        let c = match transcript.get_and_append_challenge("Internal round".as_bytes()) {
            Ok(c) => c,
            Err(_) => {
                assert(false);
                Fe::zero()
            },
        };
        chals.push(c);
        proof {
            assert(fe_vals(chals@) =~= verifier_rounds(ops0, mv, (i + 1) as nat).0);
        }
        i = i + 1;
    }
    chals
}

/// The verifier's deferred checks on `n` rounds, given its challenges: every message
/// has `deg + 1` values, and each round's values at zero and one sum to what the
/// previous round promised. Returns the expected evaluation at the challenge point.
pub(crate) fn check_and_generate_subclaim(
    sum: Fe,
    proof: &IOPProof,
    chals: &Vec<Fe>,
    n: usize,
    deg: usize,
) -> (r: Result<Fe, PolyIOPErrors>)
    requires
        proof.proofs@.len() >= n,
        chals@.len() == n,
        deg >= 1,
        deg < 0x7FF_FFFF,
    ensures
        ({
            let v = sumcheck_verdict(sum.val(), msg_vals(proof.proofs@), fe_vals(chals@), n as nat, deg as nat);
            &&& v is Ok <==> r is Ok
            &&& r matches Ok(e) ==> v == Ok::<nat, PolyIOPErrors>(e.val())
            &&& r matches Err(e) ==> v == Err::<nat, PolyIOPErrors>(e)
        }),
{
    let ghost mv = msg_vals(proof.proofs@);
    let ghost cv = fe_vals(chals@);
    if n == 0 {
        return Err(PolyIOPErrors::InvalidVerifier);
    }
    // lengths
    let mut i: usize = 0;
    while i < n
        invariant
            i <= n,
            proof.proofs@.len() >= n,
            deg < 0x7FF_FFFF,
            mv == msg_vals(proof.proofs@),
            forall|k: int| 0 <= k < i ==> (#[trigger] mv[k]).len() == deg + 1,
        decreases n - i,
    {
        if proof.proofs[i].evaluations.len() != deg + 1 {
            assert(mv[i as int].len() != deg + 1);
            return Err(PolyIOPErrors::InvalidVerifier);
        }
        i = i + 1;
    }
    // expected values: the claim, then each round polynomial at its challenge
    let mut expected: Vec<Fe> = Vec::new();
    expected.push(sum);
    let mut i: usize = 0;
    while i < n
        invariant
            i <= n,
            proof.proofs@.len() >= n,
            chals@.len() == n,
            mv == msg_vals(proof.proofs@),
            cv == fe_vals(chals@),
            deg < 0x7FF_FFFF,
            forall|k: int| 0 <= k < n ==> (#[trigger] mv[k]).len() == deg + 1,
            expected@.len() == i + 1,
            forall|k: int| 0 <= k <= i ==> (#[trigger] expected@[k]).val() == expected_at(sum.val(), mv, cv, k),
            i > 0 ==> lagrange_defined(deg as nat + 1),
        decreases n - i,
    {
        assert(proof.proofs@[i as int].evaluations@.len() == deg + 1) by {
            assert(mv[i as int].len() == deg + 1);
        }
        match interpolate_uni_poly(&proof.proofs[i].evaluations, chals[i]) {
            None => {
                return Err(PolyIOPErrors::InvalidVerifier);
            },
            Some(v) => {
                expected.push(v);
            },
        }
        i = i + 1;
    }
    // the deferred consistency checks
    let mut i: usize = 0;
    while i < n
        invariant
            i <= n,
            proof.proofs@.len() >= n,
            chals@.len() == n,
            deg >= 1,
            mv == msg_vals(proof.proofs@),
            cv == fe_vals(chals@),
            forall|k: int| 0 <= k < n ==> (#[trigger] mv[k]).len() == deg + 1,
            expected@.len() == n + 1,
            forall|k: int| 0 <= k <= n ==> (#[trigger] expected@[k]).val() == expected_at(sum.val(), mv, cv, k),
            lagrange_defined(deg as nat + 1),
            forall|k: int| 0 <= k < i ==> fadd((#[trigger] mv[k])[0], mv[k][1]) == expected_at(sum.val(), mv, cv, k),
        decreases n - i,
    {
        let ev = &proof.proofs[i].evaluations;
        assert(ev@.len() == deg + 1) by {
            assert(mv[i as int].len() == deg + 1);
        }
        let s = ev[0].add(ev[1]);
        if !s.equals(&expected[i]) {
            assert(fadd(mv[i as int][0], mv[i as int][1]) != expected_at(sum.val(), mv, cv, i as int));
            return Err(PolyIOPErrors::InvalidProof);
        }
        i = i + 1;
    }
    Ok(expected[n])
}

/// `SumCheck::verify`: appends the auxiliary information, replays the rounds to
/// derive the challenges, and checks the messages against the claimed sum. On
/// success the subclaim is the challenge point and the last round polynomial at the
/// last challenge.
pub fn verify(
    claimed_sum: Fe,
    proof: &IOPProof,
    aux_info: &AuxInfo,
    transcript: &mut IOPTranscript,
) -> (r: Result<SumCheckSubClaim, PolyIOPErrors>)
    requires
        aux_info.max_degree >= 1,
        degree_fits(aux_info.max_degree as nat),
        proof.proofs@.len() >= aux_info.num_variables,
        messages_fit(proof.proofs@, aux_info.num_variables as nat),
    ensures
        ({
            let ops1 = ops_with_aux(old(transcript).ops(), *aux_info);
            let (chals, ops2) = verifier_rounds(ops1, msg_vals(proof.proofs@), aux_info.num_variables as nat);
            let v = sumcheck_verdict(
                claimed_sum.val(),
                msg_vals(proof.proofs@),
                chals,
                aux_info.num_variables as nat,
                aux_info.max_degree as nat,
            );
            &&& final(transcript).ops() == ops2
            &&& v is Ok <==> r is Ok
            &&& r matches Ok(sc) ==> v == Ok::<nat, PolyIOPErrors>(sc.expected_evaluation.val())
                && fe_vals(sc.point@) == chals
            &&& r matches Err(e) ==> v == Err::<nat, PolyIOPErrors>(e)
        }),
        !final(transcript).empty(),
{
    let aux = serialize_aux(aux_info);
    transcript.append_message("aux info".as_bytes(), aux.as_slice());
    let n = aux_info.num_variables;
    let chals = verify_rounds(proof, n, transcript);
    assert(chals@.len() == n) by {
        assert(fe_vals(chals@).len() == chals@.len());
        lemma_verifier_rounds_len(
            ops_with_aux(old(transcript).ops(), *aux_info),
            msg_vals(proof.proofs@),
            n as nat,
        );
    }
    match check_and_generate_subclaim(claimed_sum, proof, &chals, n, aux_info.max_degree) {
        Ok(e) => Ok(SumCheckSubClaim { point: chals, expected_evaluation: e }),
        Err(e) => Err(e),
    }
}

/// The verifier collects one challenge per round.
pub proof fn lemma_verifier_rounds_len(ops: Seq<TranscriptOp>, msgs: Seq<Seq<nat>>, n: nat)
    ensures
        verifier_rounds(ops, msgs, n).0.len() == n,
    decreases n,
{
    if n > 0 {
        lemma_verifier_rounds_len(ops, msgs, (n - 1) as nat);
    }
}

} // verus!
