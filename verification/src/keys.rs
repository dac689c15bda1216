//! Key-lifecycle decisions: what to generate for a parameter set, and
//! whether a prefix must be provisioned or can be loaded.
//!
//! The key material itself — secret, bootstrapping and keyswitching
//! keys — is opaque lattice data created and persisted by the host
//! around this library. What is verified here is the shape of a
//! generation event (which secrets are drawn, whether the keyswitching
//! key is real or an explicit placeholder, which decomposition settings
//! each key uses) and the idempotent load-or-generate decision: a
//! prefix whose three artifacts exist is loaded, never regenerated.
use vstd::prelude::*;

verus! {

use crate::params::{LweSetting, Parameters, RlweSetting};

/// What an ensure-key step does for a prefix.
#[derive(Clone, Copy, PartialEq, Eq, Structural, Debug)]
pub enum ProvisionAction {
    /// No complete key set under the prefix: generate one and save it
    /// immediately.
    Generate,
    /// All three artifacts exist: load them; never regenerate.
    Load,
}

/// The load-or-generate decision for a prefix: generate exactly when
/// the persisted key set is not complete. Run after a successful save,
/// when every artifact exists, it therefore always decides to load —
/// at most one generation happens per prefix across sequential runs.
pub fn provision_action(keys_present: bool) -> (r: ProvisionAction)
    ensures
        r is Load <==> keys_present,
        r is Generate <==> !keys_present,
{
    if keys_present {
        ProvisionAction::Load
    } else {
        ProvisionAction::Generate
    }
}

/// How the keyswitching key of a generation event is made: a real key,
/// or an explicit all-zero placeholder so both branches persist the
/// same artifact shape.
#[derive(Clone, Copy, PartialEq, Eq, Structural, Debug)]
pub enum KeyswitchPlan {
    ZeroPlaceholder,
    Real,
}

/// The shape of one key-generation event: which secrets are drawn and
/// with which settings each evaluation key is built. A bootstrapping
/// key is always built; the secret key is a dedicated narrow one
/// exactly when keyswitching is enabled, and is otherwise derived from
/// the ring secret.
#[derive(Clone, Copy, PartialEq, Eq, Structural, Debug)]
pub struct KeyGenPlan {
    pub separate_lwe_secret: bool,
    pub rlwe: RlweSetting,
    pub lwe: LweSetting,
    pub bs_base_log: usize,
    pub bs_level: usize,
    pub ks_base_log: usize,
    pub ks_level: usize,
    pub keyswitch: KeyswitchPlan,
}

/// Lays out the generation event for a parameter set. The keyswitching
/// key is real exactly when the parameters enable keyswitching, and the
/// secret key is then drawn separately at the narrower dimension.
pub fn keygen_plan(params: &Parameters) -> (r: KeyGenPlan)
    requires
        params.wf(),
    ensures
        r.separate_lwe_secret == params.with_ks,
        r.keyswitch is Real <==> params.with_ks,
        r.keyswitch is ZeroPlaceholder <==> !params.with_ks,
        r.rlwe == params.rlwe_setting,
        r.lwe == params.lwe_setting,
        r.bs_base_log == params.bs_base_log,
        r.bs_level == params.bs_level,
        r.ks_base_log == params.ks_base_log,
        r.ks_level == params.ks_level,
{
    KeyGenPlan {
        separate_lwe_secret: params.with_ks,
        rlwe: params.rlwe_setting,
        lwe: params.lwe_setting,
        bs_base_log: params.bs_base_log,
        bs_level: params.bs_level,
        ks_base_log: params.ks_base_log,
        ks_level: params.ks_level,
        keyswitch: if params.with_ks {
            KeyswitchPlan::Real
        } else {
            KeyswitchPlan::ZeroPlaceholder
        },
    }
}

} // verus!
