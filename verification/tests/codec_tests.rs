use zqz::codec::round_modulo;

#[test]
fn round_modulo_identity_in_range() {
    assert_eq!(round_modulo(0, 16), 0);
    assert_eq!(round_modulo(5, 16), 5);
    assert_eq!(round_modulo(15, 16), 15);
    assert_eq!(round_modulo(7, 8), 7);
}

#[test]
fn round_modulo_wraps_past_modulus() {
    assert_eq!(round_modulo(16, 16), 0);
    assert_eq!(round_modulo(18, 16), 2);
    assert_eq!(round_modulo(32, 16), 0);
    assert_eq!(round_modulo(35, 8), 3);
}

#[test]
fn round_modulo_wraps_negative_values() {
    assert_eq!(round_modulo(-8, 16), 8);
    assert_eq!(round_modulo(-1, 16), 15);
    assert_eq!(round_modulo(-16, 16), 0);
    assert_eq!(round_modulo(-17, 16), 15);
    assert_eq!(round_modulo(-3, 8), 5);
}

#[test]
fn round_modulo_extreme_values() {
    assert_eq!(round_modulo(i64::MAX, 16), 15);
    assert_eq!(round_modulo(i64::MIN, 16), 0);
    assert_eq!(round_modulo(i64::MIN + 1, 16), 1);
}
