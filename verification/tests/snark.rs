use desnark::errors::{DeSnarkError, NetworkFailure, ParamError, ProtocolError};
use desnark::field::Fe;
use desnark::poly::{Mle, VirtualPolynomial};
use desnark::snark::{
    is_power_of_two, merge_and_verify_sumfold, merge_proofs_fit, network_response,
    prove_hyper_pianist, prove_sumfold, setup, sumfold_instances_fit, verify_network_responses,
};
use desnark::structs::{Config, GateType, SumCheckInstance, SumFoldProof};
use desnark::sumcheck::{init_transcript, IOPProof, IOPProverMessage, PolyIOPErrors};
use desnark::sumfold::sum_fold;
use desnark::poly::AuxInfo;

struct Rng(u64);

impl Rng {
    fn next(&mut self) -> u64 {
        self.0 ^= self.0 >> 12;
        self.0 ^= self.0 << 25;
        self.0 ^= self.0 >> 27;
        self.0.wrapping_mul(0x2545_f491_4f6c_dd1d)
    }

    fn fe(&mut self) -> Fe {
        Fe::from_u64(self.next())
    }
}

/// `m` instances of `w0 * w1 - w2` over `nv` variables whose tables satisfy
/// `w2 = w0 * w1` everywhere, so that each sums to zero.
fn zero_sum_instances(nv: usize, m: usize, seed: u64) -> Vec<SumCheckInstance> {
    let mut rng = Rng(seed);
    let minus_one = Fe::zero().sub(Fe::one());
    (0..m)
        .map(|_| {
            let n = 1usize << nv;
            let w0: Vec<Fe> = (0..n).map(|_| rng.fe()).collect();
            let w1: Vec<Fe> = (0..n).map(|_| rng.fe()).collect();
            let w2: Vec<Fe> = (0..n).map(|i| w0[i].mul(w1[i])).collect();
            let mut poly = VirtualPolynomial::new(nv);
            poly.flattened_ml_extensions.push(Mle::from_evaluations_vec(nv, w0));
            poly.flattened_ml_extensions.push(Mle::from_evaluations_vec(nv, w1));
            poly.flattened_ml_extensions.push(Mle::from_evaluations_vec(nv, w2));
            poly.products.push((Fe::one(), vec![0, 1]));
            poly.products.push((minus_one, vec![2]));
            poly.aux_info.max_degree = 2;
            SumCheckInstance::new(poly, Fe::zero())
        })
        .collect()
}

#[test]
fn prove_sumfold_refuses_no_instances() {
    let mut transcript = init_transcript();
    let r = prove_sumfold(vec![], &mut transcript);
    assert!(matches!(
        r,
        Err(DeSnarkError::InvalidParameters(ParamError::NoInstances))
    ));
}

#[test]
fn prove_sumfold_refuses_a_count_that_is_not_a_power_of_two() {
    let mut transcript = init_transcript();
    let r = prove_sumfold(zero_sum_instances(2, 3, 1), &mut transcript);
    assert!(matches!(
        r,
        Err(DeSnarkError::InvalidParameters(ParamError::InstancesNotPowerOfTwo(3)))
    ));
}

#[test]
fn prove_sumfold_then_merge_with_one_party_verifies() {
    let instances = zero_sum_instances(3, 4, 7);
    assert_eq!(instances.len(), 4);
    for inst in &instances {
        assert_eq!(inst.sum, Fe::zero());
    }
    let mut transcript = init_transcript();
    let (folded, proof) = prove_sumfold(instances, &mut transcript).unwrap();
    assert_eq!(folded.poly.aux_info.num_variables, 3);
    assert_eq!(folded.sum, proof.v);
    assert_eq!(proof.q_aux_info.num_variables, 2);
    assert_eq!(proof.q_aux_info.max_degree, 3);
    let v = proof.v;
    let v_total = merge_and_verify_sumfold(vec![proof]).unwrap();
    assert_eq!(v_total, v);
}

#[test]
fn merge_refuses_no_proofs() {
    assert_eq!(
        merge_and_verify_sumfold(vec![]),
        Err(DeSnarkError::InvalidParameters(ParamError::NoProofs))
    );
}

fn copy_proof(p: &SumFoldProof) -> SumFoldProof {
    let proofs = p
        .proof
        .proofs
        .iter()
        .map(|m| IOPProverMessage { evaluations: m.evaluations.clone() })
        .collect();
    SumFoldProof::new(
        IOPProof { point: p.proof.point.clone(), proofs },
        p.sum_t,
        p.q_aux_info,
        p.v,
    )
}

fn one_proof() -> SumFoldProof {
    let mut transcript = init_transcript();
    let (_, proof) = prove_sumfold(zero_sum_instances(2, 2, 3), &mut transcript).unwrap();
    proof
}

#[test]
fn merge_refuses_incompatible_aux_info() {
    let p0 = one_proof();
    let mut p1 = copy_proof(&p0);
    p1.q_aux_info = AuxInfo { max_degree: p1.q_aux_info.max_degree + 1, num_variables: p1.q_aux_info.num_variables };
    assert_eq!(
        merge_and_verify_sumfold(vec![p0, p1]),
        Err(DeSnarkError::InvalidParameters(ParamError::IncompatibleAuxInfo(1)))
    );
}

#[test]
fn merge_refuses_a_wrong_round_count() {
    let p0 = one_proof();
    let mut p1 = copy_proof(&p0);
    p1.proof.proofs.push(IOPProverMessage { evaluations: vec![] });
    assert_eq!(
        merge_and_verify_sumfold(vec![p0, p1]),
        Err(DeSnarkError::InvalidParameters(ParamError::WrongRoundCount(1, 2, 1)))
    );
}

#[test]
fn merge_rejects_a_wrong_claim() {
    let mut p0 = one_proof();
    p0.sum_t = p0.sum_t.add(Fe::one());
    assert_eq!(
        merge_and_verify_sumfold(vec![p0]),
        Err(DeSnarkError::HyperPlonkError(ProtocolError::SumFoldVerification(
            PolyIOPErrors::InvalidProof
        )))
    );
}

#[test]
fn merge_rejects_a_wrong_folded_claim() {
    let mut p0 = one_proof();
    p0.v = p0.v.add(Fe::one());
    assert_eq!(
        merge_and_verify_sumfold(vec![p0]),
        Err(DeSnarkError::HyperPlonkError(ProtocolError::ConsistencyCheckFailed))
    );
}

#[test]
fn merge_of_two_copies_fails_the_consistency_check() {
    // two parties holding the same partial proof: the combined messages lead the
    // verifier to other challenges than the prover's, so the doubled folded claim
    // does not match what the combined SumCheck leaves
    let p0 = one_proof();
    let p1 = copy_proof(&p0);
    assert_eq!(
        merge_and_verify_sumfold(vec![p0, p1]),
        Err(DeSnarkError::HyperPlonkError(ProtocolError::ConsistencyCheckFailed))
    );
}

#[test]
fn power_of_two_detection() {
    assert!(!is_power_of_two(0));
    assert!(is_power_of_two(1));
    assert!(is_power_of_two(2));
    assert!(!is_power_of_two(3));
    assert!(is_power_of_two(1024));
    assert!(!is_power_of_two(1023));
    assert!(is_power_of_two(1usize << 63));
}

#[test]
fn setup_size_is_constraints_per_party() {
    let config = Config::new(2, 10, GateType::Vanilla, 2);
    assert_eq!(setup(&config), 8);
}

#[test]
fn final_proof_only_on_the_master() {
    assert!(prove_hyper_pianist(Ok(None)).unwrap().is_none());
    let p = IOPProof { point: vec![Fe::one()], proofs: vec![] };
    let proof = prove_hyper_pianist(Ok(Some(p))).unwrap().unwrap();
    assert_eq!(proof.sumcheck_proof.point, vec![Fe::one()]);
    assert!(matches!(
        prove_hyper_pianist(Err(PolyIOPErrors::InvalidProver)),
        Err(DeSnarkError::HyperPlonkError(ProtocolError::DistributedSumCheck(
            PolyIOPErrors::InvalidProver
        )))
    ));
}

#[test]
fn prove_sumfold_of_one_instance_fails_in_sumfold() {
    let mut transcript = init_transcript();
    let r = prove_sumfold(zero_sum_instances(2, 1, 5), &mut transcript);
    assert!(matches!(
        r,
        Err(DeSnarkError::HyperPlonkError(ProtocolError::SumFold(
            PolyIOPErrors::InvalidParameters
        )))
    ));
}

#[test]
fn guards_accept_what_the_protocol_produces() {
    let instances = zero_sum_instances(2, 4, 11);
    assert!(sumfold_instances_fit(&instances));
    let mut transcript = init_transcript();
    let (_, proof) = prove_sumfold(instances, &mut transcript).unwrap();
    let proofs = vec![proof];
    assert!(merge_proofs_fit(&proofs));
    // an instance with a table of the wrong size is refused
    let mut bad = zero_sum_instances(2, 2, 11);
    bad[1].poly.flattened_ml_extensions[0].evaluations.pop();
    assert!(!sumfold_instances_fit(&bad));
    // a proof whose degree is zero is refused
    let mut p = copy_proof(&proofs[0]);
    p.q_aux_info = AuxInfo { max_degree: 0, num_variables: p.q_aux_info.num_variables };
    assert!(!merge_proofs_fit(&vec![p]));
}

#[test]
fn network_responses_of_honest_parties_pass() {
    let r = 0xffff_ffff_ffff_fffe_u64;
    assert_eq!(network_response(r, 0), r);
    assert_eq!(network_response(r, 1), u64::MAX);
    assert_eq!(network_response(r, 3), 1);
    let responses: Vec<u64> = (0..4).map(|i| network_response(r, i)).collect();
    assert_eq!(verify_network_responses(r, &responses), Ok(()));
}

#[test]
fn network_check_names_the_first_wrong_party() {
    let r = 100;
    let responses = vec![100, 101, 7, 9];
    assert_eq!(
        verify_network_responses(r, &responses),
        Err(DeSnarkError::NetworkError(NetworkFailure::ResponseMismatch {
            party: 2,
            got: 7,
            expected: 102
        }))
    );
}

/// SumCheck instances of `M` vanilla-gate circuits, each of `N / K` rows, with
/// random selectors and witnesses that satisfy
/// `q_L w_1 + q_R w_2 + q_O w_3 + q_M w_1 w_2 + q_C = 0` on every row, so that
/// each instance sums to zero.
fn vanilla_instances(config: &Config, seed: u64) -> Vec<SumCheckInstance> {
    let mut rng = Rng(seed);
    let nv = config.log_num_constraints - config.log_num_parties;
    let n = 1usize << nv;
    (0..config.num_instances)
        .map(|_| {
            let mut cols: Vec<Vec<Fe>> = vec![Vec::with_capacity(n); 8];
            for _ in 0..n {
                let (ql, qr, qm, qc) = (rng.fe(), rng.fe(), rng.fe(), rng.fe());
                let qo = rng.fe().add(Fe::one());
                let (w1, w2) = (rng.fe(), rng.fe());
                let partial = ql.mul(w1).add(qr.mul(w2)).add(qm.mul(w1).mul(w2)).add(qc);
                let w3 = Fe::zero().sub(partial).mul(qo.inverse().unwrap());
                for (c, v) in cols.iter_mut().zip([ql, qr, qo, qm, qc, w1, w2, w3]) {
                    c.push(v);
                }
            }
            let mut poly = VirtualPolynomial::new(nv);
            for c in cols {
                poly.flattened_ml_extensions.push(Mle::from_evaluations_vec(nv, c));
            }
            // q_L w_1 + q_R w_2 + q_O w_3 + q_M w_1 w_2 + q_C
            poly.products.push((Fe::one(), vec![0, 5]));
            poly.products.push((Fe::one(), vec![1, 6]));
            poly.products.push((Fe::one(), vec![2, 7]));
            poly.products.push((Fe::one(), vec![3, 5, 6]));
            poly.products.push((Fe::one(), vec![4]));
            poly.aux_info.max_degree = 3;
            SumCheckInstance::new(poly, Fe::zero())
        })
        .collect()
}

#[test]
fn test_prove_sumfold_e2e() {
    // nu = 2 -> M = 4 instances, mu = 10 -> N = 1024, kappa = 2 -> K = 4 parties
    let config = Config::new(2, 10, GateType::Vanilla, 2);

    let instances = vanilla_instances(&config, 10);

    assert_eq!(instances.len(), 4);
    for inst in &instances {
        assert_eq!(inst.sum, Fe::from_u64(0));
    }

    let mut transcript = init_transcript();
    let (folded, _proof) = prove_sumfold(instances, &mut transcript).expect("prove_sumfold failed");

    assert_eq!(
        folded.poly.aux_info.num_variables,
        config.log_num_constraints - config.log_num_parties
    );
    println!(
        "Folded instance: num_vars={}, max_degree={}, v={:?}",
        folded.poly.aux_info.num_variables, folded.poly.aux_info.max_degree, folded.sum
    );
}

#[test]
fn test_merge_and_verify_sumfold() {
    let config = Config::new(2, 10, GateType::Vanilla, 2);

    // K = 1: a single party folds M = 4 instances
    let instances = vanilla_instances(&config, 10);
    assert_eq!(instances.len(), 4);

    for inst in &instances {
        assert_eq!(inst.sum, Fe::from_u64(0));
    }

    let mut transcript = init_transcript();
    let (_folded, proof) = prove_sumfold(instances, &mut transcript).expect("prove_sumfold failed");

    let v_total = merge_and_verify_sumfold(vec![proof]).expect("merge_and_verify_sumfold failed");

    println!("Verified: v_total={:?}", v_total);
}

/// Splits a proof into two partial proofs whose element-wise sum it is.
fn split_proof(p: &SumFoldProof, seed: u64) -> (SumFoldProof, SumFoldProof) {
    let mut rng = Rng(seed);
    let mut a = copy_proof(p);
    let mut b = copy_proof(p);
    for (r, msg) in p.proof.proofs.iter().enumerate() {
        for (j, e) in msg.evaluations.iter().enumerate() {
            let x = rng.fe();
            a.proof.proofs[r].evaluations[j] = x;
            b.proof.proofs[r].evaluations[j] = e.sub(x);
        }
    }
    let (t, v) = (rng.fe(), rng.fe());
    a.sum_t = t;
    b.sum_t = p.sum_t.sub(t);
    a.v = v;
    b.v = p.v.sub(v);
    (a, b)
}

#[test]
fn merge_treats_parties_as_their_sum() {
    let p = one_proof();
    let (a, b) = split_proof(&p, 11);
    let whole = merge_and_verify_sumfold(vec![copy_proof(&p)]);
    assert_eq!(whole, Ok(p.v));
    assert_eq!(merge_and_verify_sumfold(vec![a, b]), whole);
    // a wrong claim is refused alike, split or whole
    let mut q = copy_proof(&p);
    q.v = q.v.add(Fe::one());
    let (c, d) = split_proof(&q, 12);
    let whole = merge_and_verify_sumfold(vec![q]);
    assert_eq!(
        whole,
        Err(DeSnarkError::HyperPlonkError(ProtocolError::ConsistencyCheckFailed))
    );
    assert_eq!(merge_and_verify_sumfold(vec![c, d]), whole);
}

#[test]
fn merge_ignores_the_order_of_parties() {
    let p = one_proof();
    let (a, b) = split_proof(&p, 21);
    let (c, d) = split_proof(&a, 22);
    let forward = merge_and_verify_sumfold(vec![copy_proof(&c), copy_proof(&d), copy_proof(&b)]);
    assert_eq!(forward, Ok(p.v));
    assert_eq!(merge_and_verify_sumfold(vec![copy_proof(&b), copy_proof(&c), copy_proof(&d)]), forward);
    assert_eq!(merge_and_verify_sumfold(vec![d, b, c]), forward);
}

#[test]
fn prove_sumfold_gives_what_sum_fold_gives() {
    let instances = zero_sum_instances(3, 4, 5);
    let polys: Vec<VirtualPolynomial> = zero_sum_instances(3, 4, 5).into_iter().map(|i| i.poly).collect();
    let sums: Vec<Fe> = instances.iter().map(|i| i.sum).collect();
    let mut t1 = init_transcript();
    let mut t2 = init_transcript();
    let (folded, sfp) = prove_sumfold(instances, &mut t1).unwrap();
    let (proof, sum_t, aux, folded_poly, v) = sum_fold(polys, sums, &mut t2).unwrap();
    assert_eq!(sfp.proof, proof);
    assert_eq!(sfp.sum_t, sum_t);
    assert_eq!(sfp.q_aux_info, aux);
    assert_eq!(sfp.v, v);
    assert_eq!(folded.sum, v);
    assert_eq!(folded.poly.aux_info, folded_poly.aux_info);
    for j in 0..folded_poly.flattened_ml_extensions.len() {
        assert_eq!(
            folded.poly.flattened_ml_extensions[j].evaluations,
            folded_poly.flattened_ml_extensions[j].evaluations
        );
    }
    assert_eq!(
        t1.get_and_append_challenge("next".as_bytes()).unwrap(),
        t2.get_and_append_challenge("next".as_bytes()).unwrap()
    );
}

#[test]
fn refused_folding_leaves_the_transcript_as_it_was() {
    let mut t1 = init_transcript();
    let mut t2 = init_transcript();
    t1.append_message("m".as_bytes(), &[1, 2, 3]);
    t2.append_message("m".as_bytes(), &[1, 2, 3]);
    assert!(prove_sumfold(vec![], &mut t1).is_err());
    assert!(prove_sumfold(zero_sum_instances(1, 6, 2), &mut t1).is_err());
    assert_eq!(
        t1.get_and_append_challenge("next".as_bytes()).unwrap(),
        t2.get_and_append_challenge("next".as_bytes()).unwrap()
    );
    // a fresh transcript stays without messages
    let mut t3 = init_transcript();
    let mut t4 = init_transcript();
    assert!(prove_sumfold(vec![], &mut t3).is_err());
    assert_eq!(
        t3.get_and_append_challenge("next".as_bytes()).ok(),
        t4.get_and_append_challenge("next".as_bytes()).ok()
    );
}

#[test]
fn guards_follow_the_transcript_message_limit() {
    // a round message of d + 2 elements takes 8 + 32 (d + 2) bytes, at most u32::MAX
    let mut fits = zero_sum_instances(1, 2, 13);
    for inst in fits.iter_mut() {
        inst.poly.aux_info.max_degree = 0x7FF_FFFD;
    }
    assert!(sumfold_instances_fit(&fits));
    let mut too_big = zero_sum_instances(1, 2, 13);
    for inst in too_big.iter_mut() {
        inst.poly.aux_info.max_degree = 0x7FF_FFFE;
    }
    assert!(!sumfold_instances_fit(&too_big));
}
