use zqz::ciphertext::CiphertextState;
use zqz::params::{LweSetting, Parameters, RlweSetting};
use zqz::ZqzError;

fn params_mod16_pad1() -> Parameters {
    Parameters::new(
        4,
        1,
        6,
        1,
        1,
        1,
        RlweSetting { polynomial_size: 1024, dimension: 1, log2_std_dev: -25 },
        LweSetting { dimension: 1024, log2_std_dev: -25 },
        false,
    )
}

#[test]
fn scenario_modulo_sixteen() {
    let p = params_mod16_pad1();
    assert_eq!(p.modulo, 16);

    let c5 = CiphertextState::fresh(&p, 5);
    assert_eq!(c5.decrypt_value(5), 5);

    let c15 = c5.add_scalar(10);
    assert_eq!(c15.decrypt_value(15), 15);

    let c13 = CiphertextState::fresh(&p, 13);
    let sum = match c5.add_ciphertext(&c13) {
        Ok(c) => c,
        Err(_) => panic!("compatible fresh ciphertexts must add"),
    };
    assert_eq!(sum.enc.lo, 0);
    assert_eq!(sum.enc.hi, 32);
    assert_eq!(sum.enc.nb_bit_padding, 0);
    assert_eq!(sum.decrypt_value(18), 2);
}

#[test]
fn round_trip_every_message() {
    let p = params_mod16_pad1();
    for m in 0..16usize {
        let c = CiphertextState::fresh(&p, m);
        assert_eq!(c.decrypt_value(m as i64), m);
    }
    // A message past the modulus is reduced on encryption.
    let c = CiphertextState::fresh(&p, 21);
    assert_eq!(c.decrypt_value(5), 5);
}

#[test]
fn subtraction_wraps_into_range() {
    let p = params_mod16_pad1();
    let c5 = CiphertextState::fresh(&p, 5);
    let c13 = CiphertextState::fresh(&p, 13);
    let diff = match c5.sub_ciphertext(&c13) {
        Ok(c) => c,
        Err(_) => panic!("compatible fresh ciphertexts must subtract"),
    };
    assert_eq!(diff.enc.lo, -16);
    assert_eq!(diff.enc.hi, 16);
    assert_eq!(diff.decrypt_value(-8), 8);
}

#[test]
fn scalar_subtraction() {
    let p = params_mod16_pad1();
    let c13 = CiphertextState::fresh(&p, 13);
    let c7 = c13.sub_scalar(6);
    assert_eq!(c7.enc, c13.enc);
    assert_eq!(c7.decrypt_value(7), 7);
}

#[test]
fn scalar_multiplication() {
    let p = params_mod16_pad1();
    let c5 = CiphertextState::fresh(&p, 5);
    let c15 = c5.mul_scalar(3);
    assert_eq!(c15.enc, c5.enc);
    assert_eq!(c15.decrypt_value(15), 15);
}

#[test]
fn ciphertext_multiplication_model() {
    let p = Parameters::z8z();
    let a = CiphertextState::fresh(&p, 5);
    let b = CiphertextState::fresh(&p, 7);
    let prod = match a.mul_ciphertext(&b) {
        Ok(c) => c,
        Err(_) => panic!("two padding bits allow one multiplication"),
    };
    assert_eq!(prod.enc.lo, 0);
    assert_eq!(prod.enc.hi, 64);
    assert_eq!(prod.enc.nb_bit_padding, 1);
    // 5 * 7 = 35 decodes to 35 mod 8.
    assert_eq!(prod.decrypt_value(35), 3);
}

#[test]
fn mismatched_operands_are_rejected() {
    let p8 = Parameters::z8z();
    let p16 = params_mod16_pad1();
    let a = CiphertextState::fresh(&p8, 1);
    let b = CiphertextState::fresh(&p16, 1);
    assert!(matches!(a.add_ciphertext(&b), Err(ZqzError::MismatchedOperands)));
    assert!(matches!(a.sub_ciphertext(&b), Err(ZqzError::MismatchedOperands)));

    // A combined ciphertext no longer matches a fresh one: its
    // interval is twice as wide and a padding bit is gone.
    let c = CiphertextState::fresh(&p8, 2);
    let d = CiphertextState::fresh(&p8, 3);
    let cd = c.add_ciphertext(&d).ok().unwrap_or_else(|| panic!("fresh pair must add"));
    assert!(matches!(cd.add_ciphertext(&c), Err(ZqzError::MismatchedOperands)));
}

#[test]
fn padding_exhaustion_is_reported() {
    let p = params_mod16_pad1();
    let a = CiphertextState::fresh(&p, 1);
    let b = CiphertextState::fresh(&p, 2);
    let c = CiphertextState::fresh(&p, 3);
    let d = CiphertextState::fresh(&p, 4);
    let ab = a.add_ciphertext(&b).ok().unwrap_or_else(|| panic!("fresh pair must add"));
    let cd = c.add_ciphertext(&d).ok().unwrap_or_else(|| panic!("fresh pair must add"));
    // Both sums are compatible but their padding budget is spent.
    assert!(matches!(ab.add_ciphertext(&cd), Err(ZqzError::PaddingExhausted)));
    // Multiplication needs two padding bits; one is not enough.
    let e = CiphertextState::fresh(&p, 5);
    let f = CiphertextState::fresh(&p, 6);
    assert!(matches!(e.mul_ciphertext(&f), Err(ZqzError::PaddingExhausted)));
}
