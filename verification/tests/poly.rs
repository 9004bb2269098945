use desnark::field::Fe;
use desnark::poly::{
    build_eq_x_r_vec, eq_evaluate, fix_variable, interpolate_uni_poly, ArithError, Mle,
    VirtualPolynomial,
};

fn fe(x: u64) -> Fe {
    Fe::from_u64(x)
}

fn fes(xs: &[u64]) -> Vec<Fe> {
    xs.iter().map(|x| fe(*x)).collect()
}

#[test]
fn fixing_the_lowest_variable_interpolates_pairs() {
    let t = fes(&[1, 2, 3, 4]);
    assert_eq!(fix_variable(&t, fe(0)), fes(&[1, 3]));
    assert_eq!(fix_variable(&t, fe(1)), fes(&[2, 4]));
    assert_eq!(fix_variable(&t, fe(2)), fes(&[3, 5]));
    assert_eq!(fix_variable(&fes(&[7]), fe(5)), Vec::<Fe>::new());
}

#[test]
fn eq_table_of_empty_point_is_refused() {
    assert_eq!(build_eq_x_r_vec(&vec![]), Err(ArithError::InvalidParameters));
}

#[test]
fn eq_table_has_lowest_variable_first() {
    let r = fes(&[3]);
    let one_minus_3 = Fe::one().sub(fe(3));
    assert_eq!(build_eq_x_r_vec(&r).unwrap(), vec![one_minus_3, fe(3)]);
    let r = fes(&[2, 5]);
    let e = build_eq_x_r_vec(&r).unwrap();
    let (a, b) = (fe(2), fe(5));
    let (na, nb) = (Fe::one().sub(a), Fe::one().sub(b));
    assert_eq!(e, vec![na.mul(nb), a.mul(nb), na.mul(b), a.mul(b)]);
}

#[test]
fn eq_evaluate_on_hypercube_points() {
    assert_eq!(eq_evaluate(&fes(&[0, 1]), &fes(&[0, 1])), Fe::one());
    assert_eq!(eq_evaluate(&fes(&[0, 1]), &fes(&[1, 1])), Fe::zero());
    assert_eq!(eq_evaluate(&vec![], &vec![]), Fe::one());
    // eq(r, b) for a point b of the hypercube is the entry b of the eq table
    let r = fes(&[4, 9]);
    let table = build_eq_x_r_vec(&r).unwrap();
    assert_eq!(eq_evaluate(&r, &fes(&[1, 0])), table[1]);
    assert_eq!(eq_evaluate(&r, &fes(&[0, 1])), table[2]);
}

#[test]
fn interpolation_recovers_low_degree_polynomials() {
    // 2x + 1 through 0, 1, 2
    assert_eq!(interpolate_uni_poly(&fes(&[1, 3, 5]), fe(10)), Some(fe(21)));
    // x^2 through 0, 1, 2
    assert_eq!(interpolate_uni_poly(&fes(&[0, 1, 4]), fe(5)), Some(fe(25)));
    // x^3 - x through 0..3
    assert_eq!(interpolate_uni_poly(&fes(&[0, 0, 6, 24]), fe(7)), Some(fe(336)));
    // at a node it gives the value there
    assert_eq!(interpolate_uni_poly(&fes(&[9, 8, 7, 6, 5]), fe(3)), Some(fe(6)));
}

#[test]
fn virtual_polynomial_starts_empty() {
    let p = VirtualPolynomial::new(3);
    assert_eq!(p.aux_info.num_variables, 3);
    assert_eq!(p.aux_info.max_degree, 0);
    assert!(p.products.is_empty());
    assert!(p.flattened_ml_extensions.is_empty());
    let m = Mle::from_evaluations_vec(1, fes(&[4, 5]));
    assert_eq!(m.to_evaluations(), fes(&[4, 5]));
    assert_eq!(m.num_vars, 1);
}

#[test]
fn fixing_every_variable_evaluates_the_multilinear_extension() {
    let t = fes(&[3, 1, 4, 1, 5, 9, 2, 6]);
    let r = fes(&[7, 11, 13]);
    let mut cur = t.clone();
    for x in &r {
        cur = fix_variable(&cur, *x);
    }
    assert_eq!(cur.len(), 1);
    let mut expected = Fe::zero();
    for b in 0..8u64 {
        let bits = fes(&[b & 1, (b >> 1) & 1, (b >> 2) & 1]);
        expected = expected.add(eq_evaluate(&r, &bits).mul(t[b as usize]));
    }
    assert_eq!(cur[0], expected);
    // the eq table holds the same weights
    let table = build_eq_x_r_vec(&r).unwrap();
    for b in 0..8u64 {
        let bits = fes(&[b & 1, (b >> 1) & 1, (b >> 2) & 1]);
        assert_eq!(table[b as usize], eq_evaluate(&r, &bits));
    }
}

#[test]
fn interpolation_through_many_points_is_always_defined() {
    // a polynomial of degree 39 through the points 0, ..., 39, read back at 100
    let coeffs: Vec<Fe> = (0..40u64).map(|k| Fe::from_u64(3 * k + 1)).collect();
    let eval = |x: Fe| {
        let mut acc = Fe::zero();
        for c in coeffs.iter().rev() {
            acc = acc.mul(x).add(*c);
        }
        acc
    };
    let ys: Vec<Fe> = (0..40u64).map(|i| eval(Fe::from_u64(i))).collect();
    assert_eq!(interpolate_uni_poly(&ys, Fe::from_u64(100)), Some(eval(Fe::from_u64(100))));
}
