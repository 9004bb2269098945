use desnark::field::Fe;
use desnark::poly::{fix_variable, Mle, VirtualPolynomial};
use desnark::sumcheck::{extract_sum, init_transcript, prove, verify, PolyIOPErrors};

/// A small deterministic source of field elements (xorshift64*).
struct Rng(u64);

impl Rng {
    fn next(&mut self) -> u64 {
        self.0 ^= self.0 >> 12;
        self.0 ^= self.0 << 25;
        self.0 ^= self.0 >> 27;
        self.0.wrapping_mul(0x2545_f491_4f6c_dd1d)
    }

    fn fe(&mut self) -> Fe {
        Fe::from_u64(self.next())
    }

    fn below(&mut self, lo: usize, hi: usize) -> usize {
        lo + (self.next() % ((hi - lo) as u64)) as usize
    }
}

fn test_rng() -> Rng {
    Rng(0x9e37_79b9_7f4a_7c15)
}

fn rand_mle(nv: usize, rng: &mut Rng) -> Mle {
    let evals: Vec<Fe> = (0..(1usize << nv)).map(|_| rng.fe()).collect();
    Mle::from_evaluations_vec(nv, evals)
}

/// The value of the polynomial at entry `x` of its tables.
fn value_at(poly: &VirtualPolynomial, x: usize) -> Fe {
    let mut acc = Fe::zero();
    for (c, idx) in &poly.products {
        let mut prod = Fe::one();
        for &j in idx {
            prod = prod.mul(poly.flattened_ml_extensions[j].evaluations[x]);
        }
        acc = acc.add(c.mul(prod));
    }
    acc
}

/// The sum of the polynomial over the boolean hypercube.
fn hypercube_sum(poly: &VirtualPolynomial) -> Fe {
    let mut acc = Fe::zero();
    for x in 0..(1usize << poly.aux_info.num_variables) {
        acc = acc.add(value_at(poly, x));
    }
    acc
}

/// The polynomial at a point, its lowest variable first.
fn evaluate(poly: &VirtualPolynomial, point: &[Fe]) -> Fe {
    let mut tables: Vec<Vec<Fe>> =
        poly.flattened_ml_extensions.iter().map(|m| m.evaluations.clone()).collect();
    for r in point {
        tables = tables.iter().map(|t| fix_variable(t, *r)).collect();
    }
    let mut acc = Fe::zero();
    for (c, idx) in &poly.products {
        let mut prod = Fe::one();
        for &j in idx {
            prod = prod.mul(tables[j][0]);
        }
        acc = acc.add(c.mul(prod));
    }
    acc
}

fn add_mle_list(poly: &mut VirtualPolynomial, mles: Vec<usize>, coefficient: Fe) {
    if mles.len() > poly.aux_info.max_degree {
        poly.aux_info.max_degree = mles.len();
    }
    poly.products.push((coefficient, mles));
}

/// A random polynomial: `num_products` products of fresh random multiplicands,
/// their number drawn from the range, with random coefficients; and its sum.
fn rand_poly(
    nv: usize,
    num_multiplicands_range: (usize, usize),
    num_products: usize,
    rng: &mut Rng,
) -> (VirtualPolynomial, Fe) {
    let mut poly = VirtualPolynomial::new(nv);
    for _ in 0..num_products {
        let k = rng.below(num_multiplicands_range.0, num_multiplicands_range.1);
        let mut idx = Vec::new();
        for _ in 0..k {
            idx.push(poly.flattened_ml_extensions.len());
            poly.flattened_ml_extensions.push(rand_mle(nv, rng));
        }
        let c = rng.fe();
        add_mle_list(&mut poly, idx, c);
    }
    let sum = hypercube_sum(&poly);
    (poly, sum)
}

fn test_sumcheck(
    nv: usize,
    num_multiplicands_range: (usize, usize),
    num_products: usize,
) -> Result<(), PolyIOPErrors> {
    let mut rng = test_rng();
    let mut transcript = init_transcript();

    let (poly, asserted_sum) = rand_poly(nv, num_multiplicands_range, num_products, &mut rng);
    let proof = prove(&poly, &mut transcript)?;
    let poly_info = poly.aux_info;
    let mut transcript = init_transcript();
    let subclaim = verify(asserted_sum, &proof, &poly_info, &mut transcript)?;
    assert!(
        evaluate(&poly, &subclaim.point) == subclaim.expected_evaluation,
        "wrong subclaim"
    );
    Ok(())
}

#[test]
fn test_trivial_polynomial() -> Result<(), PolyIOPErrors> {
    let nv = 1;
    let num_multiplicands_range = (4, 13);
    let num_products = 5;

    test_sumcheck(nv, num_multiplicands_range, num_products)
}

#[test]
fn test_normal_polynomial() -> Result<(), PolyIOPErrors> {
    let nv = 12;
    let num_multiplicands_range = (4, 9);
    let num_products = 5;

    test_sumcheck(nv, num_multiplicands_range, num_products)
}

#[test]
fn zero_polynomial_should_error() {
    let nv = 0;
    let num_multiplicands_range = (4, 13);
    let num_products = 5;

    assert!(test_sumcheck(nv, num_multiplicands_range, num_products).is_err());
}

#[test]
fn test_extract_sum() -> Result<(), PolyIOPErrors> {
    let mut rng = test_rng();
    let mut transcript = init_transcript();
    let (poly, asserted_sum) = rand_poly(8, (3, 4), 3, &mut rng);

    let proof = prove(&poly, &mut transcript)?;
    assert_eq!(extract_sum(&proof), asserted_sum);
    Ok(())
}

#[test]
fn test_shared_reference() -> Result<(), PolyIOPErrors> {
    let mut rng = test_rng();
    let mut poly = VirtualPolynomial::new(8);
    for _ in 0..5 {
        let m = rand_mle(8, &mut rng);
        poly.flattened_ml_extensions.push(m);
    }
    let c = rng.fe();
    add_mle_list(&mut poly, vec![2, 3, 0], c);
    let c = rng.fe();
    add_mle_list(&mut poly, vec![1, 4, 4], c);
    let c = rng.fe();
    add_mle_list(&mut poly, vec![3, 2, 1], c);
    let c = rng.fe();
    add_mle_list(&mut poly, vec![0, 0], c);
    let c = rng.fe();
    add_mle_list(&mut poly, vec![4], c);

    assert_eq!(poly.flattened_ml_extensions.len(), 5);

    let mut transcript = init_transcript();
    let poly_info = poly.aux_info;
    let proof = prove(&poly, &mut transcript)?;
    let asserted_sum = extract_sum(&proof);

    let mut transcript = init_transcript();
    let subclaim = verify(asserted_sum, &proof, &poly_info, &mut transcript)?;
    assert!(
        evaluate(&poly, &subclaim.point) == subclaim.expected_evaluation,
        "wrong subclaim"
    );
    Ok(())
}

/// f = x0 + 2 x1 + 1 on two variables, as the table [1, 2, 3, 4].
fn small_poly() -> VirtualPolynomial {
    let mut poly = VirtualPolynomial::new(2);
    poly.flattened_ml_extensions.push(Mle::from_evaluations_vec(
        2,
        vec![Fe::from_u64(1), Fe::from_u64(2), Fe::from_u64(3), Fe::from_u64(4)],
    ));
    add_mle_list(&mut poly, vec![0], Fe::one());
    poly
}

#[test]
fn prove_sends_round_polynomials_and_verify_accepts_the_true_sum() {
    let poly = small_poly();
    let mut transcript = init_transcript();
    let proof = prove(&poly, &mut transcript).unwrap();
    assert_eq!(proof.proofs.len(), 2);
    assert_eq!(proof.point.len(), 2);
    // first round: the table summed over x1 at x0 = 0 and x0 = 1
    assert_eq!(
        proof.proofs[0].evaluations,
        vec![Fe::from_u64(1 + 3), Fe::from_u64(2 + 4)]
    );
    assert_eq!(extract_sum(&proof), Fe::from_u64(10));
    let mut transcript = init_transcript();
    let sub = verify(Fe::from_u64(10), &proof, &poly.aux_info, &mut transcript).unwrap();
    assert_eq!(sub.point, proof.point);
    assert_eq!(sub.expected_evaluation, evaluate(&poly, &sub.point));
}

#[test]
fn verify_rejects_a_wrong_sum() {
    let poly = small_poly();
    let mut transcript = init_transcript();
    let proof = prove(&poly, &mut transcript).unwrap();
    let mut transcript = init_transcript();
    let r = verify(Fe::from_u64(11), &proof, &poly.aux_info, &mut transcript);
    assert_eq!(r, Err(PolyIOPErrors::InvalidProof));
}

#[test]
fn verify_rejects_messages_of_the_wrong_length() {
    let poly = small_poly();
    let mut transcript = init_transcript();
    let mut proof = prove(&poly, &mut transcript).unwrap();
    proof.proofs[1].evaluations.push(Fe::zero());
    let mut transcript = init_transcript();
    let r = verify(Fe::from_u64(10), &proof, &poly.aux_info, &mut transcript);
    assert_eq!(r, Err(PolyIOPErrors::InvalidVerifier));
}

#[test]
fn verify_rejects_a_tampered_later_round() {
    let poly = small_poly();
    let mut transcript = init_transcript();
    let mut proof = prove(&poly, &mut transcript).unwrap();
    proof.proofs[1].evaluations[0] = proof.proofs[1].evaluations[0].add(Fe::one());
    let mut transcript = init_transcript();
    let r = verify(Fe::from_u64(10), &proof, &poly.aux_info, &mut transcript);
    assert_eq!(r, Err(PolyIOPErrors::InvalidProof));
}

#[test]
fn prove_refuses_a_polynomial_in_no_variable() {
    let mut poly = VirtualPolynomial::new(0);
    poly.flattened_ml_extensions.push(Mle::from_evaluations_vec(0, vec![Fe::from_u64(5)]));
    add_mle_list(&mut poly, vec![0], Fe::one());
    let mut transcript = init_transcript();
    assert_eq!(
        prove(&poly, &mut transcript),
        Err(PolyIOPErrors::InvalidParameters)
    );
}
