use zqz::params::{
    bootstrapping_key_file, keyswitching_key_file, secret_key_file, LweSetting, Parameters,
    RlweSetting,
};

#[test]
fn preset_z8z_fields() {
    let p = Parameters::z8z();
    assert_eq!(p.nb_bit_precision, 3);
    assert_eq!(p.nb_bit_padding, 2);
    assert_eq!(p.modulo, 8);
    assert_eq!(p.max, 8);
    assert_eq!(p.bs_base_log, 6);
    assert_eq!(p.bs_level, 4);
    assert_eq!(p.ks_base_log, 1);
    assert_eq!(p.ks_level, 1);
    assert!(!p.with_ks);
    assert_eq!(p.rlwe_setting.polynomial_size, 1024);
    assert_eq!(p.rlwe_setting.dimension, 1);
    assert_eq!(p.rlwe_setting.log2_std_dev, -25);
    assert_eq!(p.lwe_setting.dimension, 1024);
}

#[test]
fn preset_z16z_ks_fields() {
    let p = Parameters::z16z_ks();
    assert_eq!(p.nb_bit_precision, 4);
    assert_eq!(p.modulo, 16);
    assert!(p.with_ks);
    assert_eq!(p.rlwe_setting.polynomial_size, 2048);
    assert_eq!(p.rlwe_setting.log2_std_dev, -52);
    assert_eq!(p.lwe_setting.dimension, 750);
    assert_eq!(p.lwe_setting.log2_std_dev, -18);
}

#[test]
fn modulo_is_derived_from_precision() {
    let p = Parameters::new(
        5,
        1,
        6,
        4,
        1,
        1,
        RlweSetting { polynomial_size: 1024, dimension: 1, log2_std_dev: -25 },
        LweSetting { dimension: 1024, log2_std_dev: -25 },
        false,
    );
    assert_eq!(p.modulo, 32);
    assert_eq!(p.max, 32);
}

#[test]
fn prefix_is_deterministic_and_exact() {
    let p = Parameters::z8z();
    assert_eq!(p.gen_prefix(), "zqz_3_2_6_4_1_1_1024_1_1024_noks");
    assert_eq!(p.gen_prefix(), p.gen_prefix());
    let q = Parameters::z16z_ks();
    assert_eq!(q.gen_prefix(), "zqz_4_2_7_3_2_7_2048_1_750_ks");
}

#[test]
fn prefixes_of_different_parameter_sets_differ() {
    let a = Parameters::z8z().gen_prefix();
    let b = Parameters::z8z_ks().gen_prefix();
    let c = Parameters::z16z_ks().gen_prefix();
    assert_ne!(a, b);
    assert_ne!(b, c);
    assert_ne!(a, c);
}

#[test]
fn decimal_rendering() {
    assert_eq!(zqz::text::dec_string(0), "0");
    assert_eq!(zqz::text::dec_string(7), "7");
    assert_eq!(zqz::text::dec_string(10), "10");
    assert_eq!(zqz::text::dec_string(305), "305");
    assert_eq!(zqz::text::dec_string(1024), "1024");
    assert_eq!(zqz::text::dec_string(usize::MAX), "18446744073709551615");
}

#[test]
fn artifact_file_names() {
    assert_eq!(secret_key_file("test"), "test_secret_key.json");
    assert_eq!(bootstrapping_key_file("test"), "test_bootstrapping_key.txt");
    assert_eq!(keyswitching_key_file("test"), "test_keyswitching_key.txt");
}
