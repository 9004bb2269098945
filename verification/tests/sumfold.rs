use desnark::field::Fe;
use desnark::poly::{build_eq_x_r_vec, eq_evaluate, Mle, VirtualPolynomial};
use desnark::sumcheck::{init_transcript, PolyIOPErrors};
use desnark::sumfold::{sum_fold, sum_fold_v2, verify_sum_fold};

/// A small deterministic source of field elements (xorshift64*).
struct Rng(u64);

impl Rng {
    fn next(&mut self) -> u64 {
        self.0 ^= self.0 >> 12;
        self.0 ^= self.0 << 25;
        self.0 ^= self.0 >> 27;
        self.0.wrapping_mul(0x2545_f491_4f6c_dd1d)
    }

    fn fe(&mut self) -> Fe {
        Fe::from_u64(self.next())
    }

    fn below(&mut self, lo: usize, hi: usize) -> usize {
        lo + (self.next() % ((hi - lo) as u64)) as usize
    }
}

fn test_rng() -> Rng {
    Rng(0x9e37_79b9_7f4a_7c15)
}

fn rand_mle(nv: usize, rng: &mut Rng) -> Mle {
    let evals: Vec<Fe> = (0..(1usize << nv)).map(|_| rng.fe()).collect();
    Mle::from_evaluations_vec(nv, evals)
}

/// The structure of a random polynomial: its products over fresh multiplicands.
fn rand_template(
    nv: usize,
    num_multiplicands_range: (usize, usize),
    num_products: usize,
    rng: &mut Rng,
) -> (usize, Vec<(Fe, Vec<usize>)>, usize) {
    let mut t = 0;
    let mut products = Vec::new();
    let mut max_degree = 0;
    for _ in 0..num_products {
        let k = rng.below(num_multiplicands_range.0, num_multiplicands_range.1);
        let idx: Vec<usize> = (t..t + k).collect();
        t += k;
        max_degree = max_degree.max(k);
        products.push((rng.fe(), idx));
    }
    let _ = nv;
    (t, products, max_degree)
}

/// `m` instances with one structure and random tables, and for each the sum the
/// comparison tests claim for it: the coefficient times the product of the sums
/// of the multiplicands, over the products.
fn instances(
    nv: usize,
    m: usize,
    num_multiplicands: usize,
    num_products: usize,
) -> (Vec<VirtualPolynomial>, Vec<Fe>) {
    let mut rng = test_rng();
    let (t, products, max_degree) =
        rand_template(nv, (num_multiplicands, num_multiplicands + 1), num_products, &mut rng);
    let mut polys = Vec::with_capacity(m);
    let mut sums = Vec::with_capacity(m);
    for _ in 0..m {
        let mut poly = VirtualPolynomial::new(nv);
        poly.aux_info.max_degree = max_degree;
        poly.products = products.clone();
        for _ in 0..t {
            poly.flattened_ml_extensions.push(rand_mle(nv, &mut rng));
        }
        let mut sum = Fe::zero();
        for (coefficient, product_indices) in poly.products.iter() {
            let mut product = Fe::one();
            for &idx in product_indices.iter() {
                let mle_sum = poly.flattened_ml_extensions[idx]
                    .evaluations
                    .iter()
                    .fold(Fe::zero(), |a, b| a.add(*b));
                product = product.mul(mle_sum);
            }
            sum = sum.add(coefficient.mul(product));
        }
        sums.push(sum);
        polys.push(poly);
    }
    (polys, sums)
}

#[test]
fn test_sum_fold_v2_equivalence() -> Result<(), PolyIOPErrors> {
    let nv = 10;
    let m = 4;
    let num_multiplicands = 3;
    let num_products = 2;

    let (polys, sums) = instances(nv, m, num_multiplicands, num_products);
    let (polys_clone, sums_clone) = instances(nv, m, num_multiplicands, num_products);

    let mut transcript1 = init_transcript();
    let (proof1, sum_t1, aux_info1, folded_poly1, v1) = sum_fold(polys, sums, &mut transcript1)?;

    let mut transcript2 = init_transcript();
    let (proof2, sum_t2, aux_info2, folded_poly2, v2) =
        sum_fold_v2(polys_clone, sums_clone, &mut transcript2)?;

    assert_eq!(proof1, proof2, "sum_fold and sum_fold_v2 proofs must be identical");
    assert_eq!(sum_t1, sum_t2, "sum_t values must match");
    assert_eq!(v1, v2, "v values must match");
    assert_eq!(
        aux_info1.max_degree, aux_info2.max_degree,
        "aux_info max_degree must match"
    );
    assert_eq!(
        aux_info1.num_variables, aux_info2.num_variables,
        "aux_info num_variables must match"
    );
    assert_eq!(
        folded_poly1.flattened_ml_extensions.len(),
        folded_poly2.flattened_ml_extensions.len(),
        "folded_poly MLE count must match"
    );
    for j in 0..folded_poly1.flattened_ml_extensions.len() {
        assert_eq!(
            folded_poly1.flattened_ml_extensions[j].evaluations,
            folded_poly2.flattened_ml_extensions[j].evaluations,
            "folded_poly MLE[{}] evaluations must match",
            j
        );
    }
    Ok(())
}

#[test]
fn test_sum_fold_v2_multiple_configs() -> Result<(), PolyIOPErrors> {
    let configs = [(8, 4, 3, 2), (10, 8, 2, 2), (12, 4, 3, 3)];

    for (nv, m, num_multiplicands, num_products) in configs {
        let (polys, sums) = instances(nv, m, num_multiplicands, num_products);
        let (polys_clone, sums_clone) = instances(nv, m, num_multiplicands, num_products);

        let mut transcript1 = init_transcript();
        let (proof1, sum_t1, _, folded_poly1, v1) = sum_fold(polys, sums, &mut transcript1)?;

        let mut transcript2 = init_transcript();
        let (proof2, sum_t2, _, folded_poly2, v2) =
            sum_fold_v2(polys_clone, sums_clone, &mut transcript2)?;

        assert_eq!(
            proof1, proof2,
            "Config (nv={}, m={}): proofs must be identical",
            nv, m
        );
        assert_eq!(sum_t1, sum_t2, "Config (nv={}, m={}): sum_t must match", nv, m);
        assert_eq!(v1, v2, "Config (nv={}, m={}): v must match", nv, m);
        for j in 0..folded_poly1.flattened_ml_extensions.len() {
            assert_eq!(
                folded_poly1.flattened_ml_extensions[j].evaluations,
                folded_poly2.flattened_ml_extensions[j].evaluations,
                "Config (nv={}, m={}): folded MLE[{}] must match",
                nv,
                m,
                j
            );
        }
    }
    Ok(())
}

/// The sum of a polynomial over the hypercube.
fn hypercube_sum(poly: &VirtualPolynomial) -> Fe {
    let mut acc = Fe::zero();
    for x in 0..(1usize << poly.aux_info.num_variables) {
        for (c, idx) in &poly.products {
            let mut prod = Fe::one();
            for &j in idx {
                prod = prod.mul(poly.flattened_ml_extensions[j].evaluations[x]);
            }
            acc = acc.add(c.mul(prod));
        }
    }
    acc
}

#[test]
fn folded_claim_is_the_sum_of_the_folded_polynomial() {
    let (polys, sums) = instances(4, 4, 2, 2);
    let mut transcript = init_transcript();
    let (proof, _, aux, folded, v) = sum_fold(polys, sums, &mut transcript).unwrap();
    assert_eq!(aux.num_variables, 2);
    assert_eq!(proof.proofs.len(), 2);
    assert_eq!(folded.aux_info.num_variables, 4);
    assert_eq!(v, hypercube_sum(&folded));
}

#[test]
fn folded_tables_weight_instances_by_eq_of_the_challenges() {
    let (polys, sums) = instances(3, 2, 2, 1);
    let tables: Vec<Vec<Fe>> = polys
        .iter()
        .map(|p| p.flattened_ml_extensions[0].evaluations.clone())
        .collect();
    let mut transcript = init_transcript();
    let (proof, _, _, folded, _) = sum_fold(polys, sums, &mut transcript).unwrap();
    let r = proof.point[0];
    for x in 0..8 {
        let expected = Fe::one().sub(r).mul(tables[0][x]).add(r.mul(tables[1][x]));
        assert_eq!(folded.flattened_ml_extensions[0].evaluations[x], expected);
    }
}

#[test]
fn honest_sumfold_proof_verifies_with_the_true_sums() {
    // claimed sums that are the true sums over the hypercube
    let (polys, _) = instances(3, 4, 2, 2);
    let sums: Vec<Fe> = polys.iter().map(hypercube_sum).collect();
    let mut transcript = init_transcript();
    let (proof, sum_t, aux, _, v) = sum_fold(polys, sums, &mut transcript).unwrap();
    let (sub, rho) = verify_sum_fold(sum_t, &proof, &aux).unwrap();
    assert_eq!(sub.point, proof.point);
    assert_eq!(rho.len(), 2);
    assert_eq!(sub.expected_evaluation, v.mul(eq_evaluate(&rho, &sub.point)));
    // a claim off by one is rejected
    assert_eq!(
        verify_sum_fold(sum_t.add(Fe::one()), &proof, &aux).map(|_| ()),
        Err(PolyIOPErrors::InvalidProof)
    );
}

#[test]
fn claimed_sums_reach_only_the_claim() {
    let (polys1, _) = instances(3, 4, 2, 2);
    let (polys2, _) = instances(3, 4, 2, 2);
    let s1: Vec<Fe> = polys1.iter().map(hypercube_sum).collect();
    let s2: Vec<Fe> = vec![Fe::from_u64(5), Fe::zero(), Fe::from_u64(9), s1[3]];
    let mut t1 = init_transcript();
    let mut t2 = init_transcript();
    let (proof1, sum_t1, aux1, folded1, v1) = sum_fold(polys1, s1.clone(), &mut t1).unwrap();
    let (proof2, sum_t2, aux2, folded2, v2) = sum_fold(polys2, s2.clone(), &mut t2).unwrap();
    assert_eq!(proof1, proof2);
    assert_eq!(aux1, aux2);
    assert_eq!(v1, v2);
    assert_eq!(folded1.aux_info, folded2.aux_info);
    for j in 0..folded1.flattened_ml_extensions.len() {
        assert_eq!(
            folded1.flattened_ml_extensions[j].evaluations,
            folded2.flattened_ml_extensions[j].evaluations
        );
    }
    // both transcripts go on alike
    assert_eq!(
        t1.get_and_append_challenge("next".as_bytes()).unwrap(),
        t2.get_and_append_challenge("next".as_bytes()).unwrap()
    );
    // the claims differ by the eq-weighted differences of the sums
    let (_, rho) = verify_sum_fold(sum_t1, &proof1, &aux1).unwrap();
    let eq = build_eq_x_r_vec(&rho).unwrap();
    let mut diff = Fe::zero();
    for i in 0..4 {
        diff = diff.add(eq[i].mul(s1[i].sub(s2[i])));
    }
    assert_ne!(sum_t1, sum_t2);
    assert_eq!(sum_t1.sub(sum_t2), diff);
}
