use zqz::counter::DemoCounter;
use zqz::get_result;
use zqz::keys::{keygen_plan, provision_action, KeyswitchPlan, ProvisionAction};
use zqz::params::Parameters;

#[test]
fn provisioning_decision() {
    assert!(matches!(provision_action(false), ProvisionAction::Generate));
    assert!(matches!(provision_action(true), ProvisionAction::Load));
}

#[test]
fn keygen_plan_without_keyswitch() {
    let plan = keygen_plan(&Parameters::z8z());
    assert!(!plan.separate_lwe_secret);
    assert!(matches!(plan.keyswitch, KeyswitchPlan::ZeroPlaceholder));
    assert_eq!(plan.bs_base_log, 6);
    assert_eq!(plan.bs_level, 4);
    assert_eq!(plan.rlwe.polynomial_size, 1024);
}

#[test]
fn keygen_plan_with_keyswitch() {
    let plan = keygen_plan(&Parameters::z16z_ks());
    assert!(plan.separate_lwe_secret);
    assert!(matches!(plan.keyswitch, KeyswitchPlan::Real));
    assert_eq!(plan.ks_base_log, 2);
    assert_eq!(plan.ks_level, 7);
    assert_eq!(plan.lwe.dimension, 750);
}

#[test]
fn counter_reads_back_the_square() {
    let mut c = DemoCounter::new();
    assert_eq!(c.n, 5);
    assert_eq!(c.get(), 25);
    c.set(7);
    assert_eq!(c.get(), 49);
    c.set(0);
    assert_eq!(c.get(), 0);
    c.set(65535);
    assert_eq!(c.get(), 4294836225);
}

#[test]
fn echo_prepends_greeting() {
    assert_eq!(get_result("ping"), "Rust says: ping");
    assert_eq!(get_result(""), "Rust says: ");
}
