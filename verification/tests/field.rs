use desnark::field::Fe;

const MODULUS_LE: [u8; 32] = [
    1, 0, 0, 0, 255, 255, 255, 255, 254, 91, 254, 255, 2, 164, 189, 83, 5, 216, 161, 9, 8, 216,
    57, 51, 72, 125, 157, 41, 83, 167, 237, 115,
];

fn fe(x: u64) -> Fe {
    Fe::from_u64(x)
}

#[test]
fn small_arithmetic_is_integer_arithmetic() {
    assert_eq!(fe(3).add(fe(5)), fe(8));
    assert_eq!(fe(9).sub(fe(4)), fe(5));
    assert_eq!(fe(6).mul(fe(7)), fe(42));
    assert_eq!(Fe::zero(), fe(0));
    assert_eq!(Fe::one(), fe(1));
}

#[test]
fn subtraction_wraps_modulo_the_order() {
    let minus_one = Fe::zero().sub(Fe::one());
    assert_eq!(minus_one.add(Fe::one()), Fe::zero());
    let mut expected = MODULUS_LE.to_vec();
    expected[0] = 0;
    assert_eq!(minus_one.to_bytes(), expected);
}

#[test]
fn inverse_is_none_exactly_for_zero() {
    assert!(Fe::zero().inverse().is_none());
    let inv = fe(7).inverse().unwrap();
    assert_eq!(inv.mul(fe(7)), Fe::one());
    let expected =
        "14981678621464625851270783002338847382197300714436467949315331057125308909861";
    assert_eq!(inv, decimal(expected));
}

#[test]
fn equals_compares_values() {
    assert!(fe(12).equals(&fe(5).add(fe(7))));
    assert!(!fe(12).equals(&fe(13)));
}

#[test]
fn bytes_round_trip_and_reduce() {
    let one = Fe::one().to_bytes();
    assert_eq!(one.len(), 32);
    assert_eq!(one[0], 1);
    assert!(one[1..].iter().all(|b| *b == 0));
    assert_eq!(Fe::from_le_bytes_mod_order(&vec![1, 2]), fe(513));
    assert_eq!(Fe::from_le_bytes_mod_order(&MODULUS_LE.to_vec()), Fe::zero());
    let mut above = MODULUS_LE.to_vec();
    above[0] = 6;
    assert_eq!(Fe::from_le_bytes_mod_order(&above), fe(5));
    let x = fe(0x1234_5678_9abc_def0).mul(fe(0xfedc_ba98_7654_3210));
    assert_eq!(Fe::from_le_bytes_mod_order(&x.to_bytes()), x);
}

fn decimal(s: &str) -> Fe {
    let ten = fe(10);
    s.bytes().fold(Fe::zero(), |acc, d| acc.mul(ten).add(fe((d - b'0') as u64)))
}
