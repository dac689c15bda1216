//! Modular-integer homomorphic arithmetic over an external lattice
//! encryption library.
//!
//! The crate manages the key lifecycle (generation, lineage between a
//! secret key and its evaluation keys, deterministic file prefixes for
//! persistence), encodes plaintext integers modulo `M` into the encrypted
//! domain, and gives every homomorphic operation an exact plaintext
//! semantics. The lattice mathematics itself — secret and evaluation
//! keys, encryption, noise — is an external collaborator that the host
//! drives around this library; what is verified here is everything the
//! host decides with: parameter consistency, prefix derivation, the
//! modular codec, the per-ciphertext encoder state with its padding
//! budget, and the key-provisioning decisions.
use vstd::prelude::*;

pub mod ciphertext;
pub mod codec;
pub mod counter;
pub mod keys;
pub mod params;
pub mod text;

verus! {

use vstd::string::StringExecFns;

/// What can go wrong at this layer. Failures of the key store are
/// fatal for the operation that met them and are reported, never
/// recovered, here; operand mismatches mirror the checks the lattice
/// backend makes before combining two ciphertexts.
#[derive(Clone, Copy, PartialEq, Eq, Structural, Debug)]
pub enum ZqzError {
    /// An explicit load found no secret-key file under the prefix.
    KeyFileMissing,
    /// A persisted artifact was present but could not be decoded.
    Serialization,
    /// Two ciphertext operands disagree on modulus, interval width or
    /// padding budget and cannot be combined.
    MismatchedOperands,
    /// The operation needs more padding or precision headroom than the
    /// operands have left.
    PaddingExhausted,
}

/// Diagnostic echo for bridge smoke-testing; carries no design weight.
pub fn get_result(val: &str) -> (r: String)
    ensures
        r@ == "Rust says: "@ + val@,
{
    let mut s = String::from_str("Rust says: ");
    s.append(val);
    s
}

} // verus!
