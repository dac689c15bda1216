//! The plaintext codec: what encryption does to a message and what
//! decoding does to the exact value a ciphertext carries.
//!
//! A ciphertext made for modulus `M` carries an integer. Encryption
//! stores the message reduced into `[0, M)`; homomorphic operations move
//! the carried value through `Z` (it may grow past `M` or drop below `0`
//! inside the headroom that the padding bits reserve); decoding rounds
//! and reduces back into `[0, M)`. The two spec functions below are the
//! reference semantics that every contract in the crate speaks of.
use vstd::prelude::*;

verus! {

use vstd::arithmetic::div_mod::{
    lemma_add_mod_noop,
    lemma_fundamental_div_mod,
    lemma_fundamental_div_mod_converse_mod,
    lemma_mod_twice,
    lemma_mod_bound,
    lemma_mul_mod_noop_left,
    lemma_small_mod,
    lemma_sub_mod_noop,
};

/// The value a fresh encryption of `m` carries: `m` reduced into
/// `[0, modulo)`.
pub open spec fn encode_value(m: int, modulo: int) -> int
    recommends
        modulo > 0,
{
    m % modulo
}

/// The plaintext that decoding recovers from the exact value `v` carried
/// by a ciphertext: `v` reduced into `[0, modulo)`.
pub open spec fn decode_value(v: int, modulo: int) -> int
    recommends
        modulo > 0,
{
    v % modulo
}

/// Reduces an already-rounded decoded value into `[0, modulo)`, wrapping
/// negative values upward.
pub fn round_modulo(v: i64, modulo: usize) -> (r: usize)
    requires
        0 < modulo,
        modulo <= 0x4000_0000,
    ensures
        r as int == decode_value(v as int, modulo as int),
        r < modulo,
{
    let mu = modulo as u64;
    if v >= 0 {
        ((v as u64) % mu) as usize
    } else {
        let a: u64 = ((-(v + 1)) as u64) + 1;
        let rem: u64 = a % mu;
        proof {
            let m = modulo as int;
            let q = (a as int) / m;
            lemma_fundamental_div_mod(a as int, m);
            lemma_mod_bound(a as int, m);
            if rem == 0 {
                assert(v as int == (-q) * m + 0) by (nonlinear_arith)
                    requires
                        a as int == q * m + rem as int,
                        rem as int == 0,
                        v as int == -(a as int),
                ;
                lemma_fundamental_div_mod_converse_mod(v as int, m, -q, 0);
            } else {
                assert(v as int == (-q - 1) * m + (m - rem as int)) by (nonlinear_arith)
                    requires
                        a as int == q * m + rem as int,
                        v as int == -(a as int),
                ;
                lemma_fundamental_div_mod_converse_mod(v as int, m, -q - 1, m - rem as int);
            }
        }
        if rem == 0 {
            0
        } else {
            (mu - rem) as usize
        }
    }
}

/// A round trip through the codec is the identity: a message already in
/// `[0, modulo)` is encoded and then decoded back to itself.
pub proof fn lemma_round_trip(m: int, modulo: int)
    requires
        0 < modulo,
        0 <= m < modulo,
    ensures
        decode_value(encode_value(m, modulo), modulo) == m,
{
    lemma_small_mod(m as nat, modulo as nat);
}

/// Adding a scalar to the carried value decodes to modular addition of
/// the messages: `decode(encode(m) + s) == (m + s) % modulo`.
pub proof fn lemma_scalar_add_decodes(m: int, s: int, modulo: int)
    requires
        0 < modulo,
        0 <= m,
        0 <= s,
    ensures
        decode_value(encode_value(m, modulo) + s, modulo) == (m + s) % modulo,
{
    lemma_add_mod_noop(m, s, modulo);
    lemma_mod_twice(m, modulo);
    lemma_mod_twice(s, modulo);
    lemma_add_mod_noop(m % modulo, s, modulo);
}

/// Subtracting a scalar from the carried value decodes to modular
/// subtraction: `decode(encode(m) - s) == (m - s) % modulo`, negative
/// differences wrapping into `[0, modulo)`.
pub proof fn lemma_scalar_sub_decodes(m: int, s: int, modulo: int)
    requires
        0 < modulo,
        0 <= m,
        0 <= s,
    ensures
        decode_value(encode_value(m, modulo) - s, modulo) == (m - s) % modulo,
        0 <= decode_value(encode_value(m, modulo) - s, modulo) < modulo,
{
    lemma_sub_mod_noop(m, s, modulo);
    lemma_mod_twice(m, modulo);
    lemma_mod_twice(s, modulo);
    lemma_sub_mod_noop(m % modulo, s, modulo);
    lemma_mod_bound(m % modulo - s, modulo);
}

/// Adding the values carried by two ciphertexts decodes to modular
/// addition: `decode(encode(a) + encode(b)) == (a + b) % modulo`.
pub proof fn lemma_ciphertext_add_decodes(a: int, b: int, modulo: int)
    requires
        0 < modulo,
        0 <= a,
        0 <= b,
    ensures
        decode_value(encode_value(a, modulo) + encode_value(b, modulo), modulo) == (a + b)
            % modulo,
{
    lemma_add_mod_noop(a, b, modulo);
}

/// Subtracting the values carried by two ciphertexts decodes to modular
/// subtraction, negative results wrapping into `[0, modulo)`:
/// `decode(encode(a) - encode(b)) == (a - b) % modulo`.
pub proof fn lemma_ciphertext_sub_decodes(a: int, b: int, modulo: int)
    requires
        0 < modulo,
        0 <= a,
        0 <= b,
    ensures
        decode_value(encode_value(a, modulo) - encode_value(b, modulo), modulo) == (a - b)
            % modulo,
        0 <= decode_value(encode_value(a, modulo) - encode_value(b, modulo), modulo) < modulo,
{
    lemma_sub_mod_noop(a, b, modulo);
    lemma_mod_bound(encode_value(a, modulo) - encode_value(b, modulo), modulo);
}

/// Multiplying the carried value by a scalar decodes to modular
/// multiplication: `decode(encode(a) * s) == (a * s) % modulo`.
pub proof fn lemma_scalar_mul_decodes(a: int, s: int, modulo: int)
    requires
        0 < modulo,
        0 <= a,
        0 <= s,
    ensures
        decode_value(encode_value(a, modulo) * s, modulo) == (a * s) % modulo,
{
    lemma_mul_mod_noop_left(a, s, modulo);
}

/// Multiplying the values carried by two ciphertexts decodes to modular
/// multiplication: `decode(encode(a) * encode(b)) == (a * b) % modulo`.
pub proof fn lemma_ciphertext_mul_decodes(a: int, b: int, modulo: int)
    requires
        0 < modulo,
        0 <= a,
        0 <= b,
    ensures
        decode_value(encode_value(a, modulo) * encode_value(b, modulo), modulo) == (a * b)
            % modulo,
{
    vstd::arithmetic::div_mod::lemma_mul_mod_noop(a, b, modulo);
}

} // verus!
