//! Scheme configuration: lattice settings, decomposition bases and
//! levels, plaintext precision and padding, and the modulus they induce.
//!
//! A `Parameters` value is immutable and fully determines both the
//! encoder (`modulo = 2^nb_bit_precision`, plaintext bound `max`) and
//! the deterministic file prefix under which keys generated for it are
//! persisted, so that different parameter sets never collide on disk.
use vstd::prelude::*;

verus! {

use vstd::arithmetic::power2::{lemma2_to64, lemma_pow2_strictly_increases, pow2};
use vstd::bits::{lemma_u64_pow2_no_overflow, lemma_u64_shl_is_mul};
use vstd::string::StringExecFns;
use crate::text::{dec_digits, dec_string, identifier_char, lemma_dec_digits_identifier_chars};

/// Settings of the ring-lattice (RLWE) problem: ring polynomial size,
/// mask dimension, and the log2 of the noise standard deviation.
#[derive(Clone, Copy, PartialEq, Eq, Structural, Debug)]
pub struct RlweSetting {
    pub polynomial_size: usize,
    pub dimension: usize,
    pub log2_std_dev: i32,
}

/// Settings of the plain lattice (LWE) problem: mask dimension and the
/// log2 of the noise standard deviation.
#[derive(Clone, Copy, PartialEq, Eq, Structural, Debug)]
pub struct LweSetting {
    pub dimension: usize,
    pub log2_std_dev: i32,
}

/// One scheme configuration. `modulo` is derived as
/// `2^nb_bit_precision` and `max` is the plaintext bound of the encoder,
/// equal to `modulo`; the padding bits reserve headroom above it.
#[derive(Clone, Copy, PartialEq, Eq, Structural, Debug)]
pub struct Parameters {
    pub nb_bit_precision: usize,
    pub nb_bit_padding: usize,
    pub bs_base_log: usize,
    pub bs_level: usize,
    pub ks_base_log: usize,
    pub ks_level: usize,
    pub with_ks: bool,
    pub modulo: usize,
    pub max: usize,
    pub rlwe_setting: RlweSetting,
    pub lwe_setting: LweSetting,
}

impl Parameters {
    /// Consistency of a parameter set: the modulus matches the precision
    /// bits (so decode rounding stays aligned with the plaintext range),
    /// the precision and padding bits fit the encoded word, and every
    /// lattice or decomposition size is positive.
    pub open spec fn wf(self) -> bool {
        &&& 1 <= self.nb_bit_precision
        &&& 1 <= self.nb_bit_padding
        &&& self.nb_bit_precision + self.nb_bit_padding <= 31
        &&& self.modulo == pow2(self.nb_bit_precision as nat)
        &&& self.modulo <= 0x4000_0000
        &&& self.max == self.modulo
        &&& 1 <= self.bs_base_log
        &&& 1 <= self.bs_level
        &&& 1 <= self.ks_base_log
        &&& 1 <= self.ks_level
        &&& 1 <= self.rlwe_setting.polynomial_size
        &&& 1 <= self.rlwe_setting.dimension
        &&& 1 <= self.lwe_setting.dimension
    }

    /// Builds a parameter set, deriving `modulo` and `max` from the
    /// precision bits. Invalid combinations are ruled out up front: they
    /// are a build-time contract, not a runtime error.
    pub fn new(
        nb_bit_precision: usize,
        nb_bit_padding: usize,
        bs_base_log: usize,
        bs_level: usize,
        ks_base_log: usize,
        ks_level: usize,
        rlwe_setting: RlweSetting,
        lwe_setting: LweSetting,
        with_ks: bool,
    ) -> (r: Parameters)
        requires
            1 <= nb_bit_precision,
            1 <= nb_bit_padding,
            nb_bit_precision + nb_bit_padding <= 31,
            1 <= bs_base_log,
            1 <= bs_level,
            1 <= ks_base_log,
            1 <= ks_level,
            1 <= rlwe_setting.polynomial_size,
            1 <= rlwe_setting.dimension,
            1 <= lwe_setting.dimension,
        ensures
            r.wf(),
            r.nb_bit_precision == nb_bit_precision,
            r.nb_bit_padding == nb_bit_padding,
            r.bs_base_log == bs_base_log,
            r.bs_level == bs_level,
            r.ks_base_log == ks_base_log,
            r.ks_level == ks_level,
            r.with_ks == with_ks,
            r.rlwe_setting == rlwe_setting,
            r.lwe_setting == lwe_setting,
            r.modulo == pow2(nb_bit_precision as nat),
            r.max == r.modulo,
    {
        proof {
            lemma_u64_pow2_no_overflow(nb_bit_precision as nat);
            lemma_u64_shl_is_mul(1u64, nb_bit_precision as u64);
            lemma_pow2_strictly_increases(nb_bit_precision as nat, 31);
            lemma2_to64();
        }
        let modulo_word: u64 = 1u64 << (nb_bit_precision as u64);
        let modulo: usize = modulo_word as usize;
        Parameters {
            nb_bit_precision,
            nb_bit_padding,
            bs_base_log,
            bs_level,
            ks_base_log,
            ks_level,
            with_ks,
            modulo,
            max: modulo,
            rlwe_setting,
            lwe_setting,
        }
    }

    /// The preset for arithmetic modulo 8 without keyswitching.
    pub fn z8z() -> (r: Parameters)
        ensures
            r.wf(),
            r.nb_bit_precision == 3,
            r.nb_bit_padding == 2,
            r.modulo == 8,
            r.max == 8,
            !r.with_ks,
            r.bs_base_log == 6,
            r.bs_level == 4,
            r.ks_base_log == 1,
            r.ks_level == 1,
            r.rlwe_setting == (RlweSetting { polynomial_size: 1024usize, dimension: 1usize, log2_std_dev: -25i32 }),
            r.lwe_setting == (LweSetting { dimension: 1024usize, log2_std_dev: -25i32 }),
    {
        proof {
            lemma2_to64();
        }
        Parameters::new(
            3,
            2,
            6,
            4,
            1,
            1,
            RlweSetting { polynomial_size: 1024, dimension: 1, log2_std_dev: -25 },
            LweSetting { dimension: 1024, log2_std_dev: -25 },
            false,
        )
    }

    /// The preset for arithmetic modulo 8 with keyswitching.
    pub fn z8z_ks() -> (r: Parameters)
        ensures
            r.wf(),
            r.nb_bit_precision == 3,
            r.nb_bit_padding == 2,
            r.modulo == 8,
            r.max == 8,
            r.with_ks,
            r.bs_base_log == 7,
            r.bs_level == 3,
            r.ks_base_log == 2,
            r.ks_level == 7,
            r.rlwe_setting == (RlweSetting { polynomial_size: 1024usize, dimension: 1usize, log2_std_dev: -25i32 }),
            r.lwe_setting == (LweSetting { dimension: 750usize, log2_std_dev: -18i32 }),
    {
        proof {
            lemma2_to64();
        }
        Parameters::new(
            3,
            2,
            7,
            3,
            2,
            7,
            RlweSetting { polynomial_size: 1024, dimension: 1, log2_std_dev: -25 },
            LweSetting { dimension: 750, log2_std_dev: -18 },
            true,
        )
    }

    /// The preset for arithmetic modulo 16 with keyswitching.
    pub fn z16z_ks() -> (r: Parameters)
        ensures
            r.wf(),
            r.nb_bit_precision == 4,
            r.nb_bit_padding == 2,
            r.modulo == 16,
            r.max == 16,
            r.with_ks,
            r.bs_base_log == 7,
            r.bs_level == 3,
            r.ks_base_log == 2,
            r.ks_level == 7,
            r.rlwe_setting == (RlweSetting { polynomial_size: 2048usize, dimension: 1usize, log2_std_dev: -52i32 }),
            r.lwe_setting == (LweSetting { dimension: 750usize, log2_std_dev: -18i32 }),
    {
        proof {
            lemma2_to64();
        }
        Parameters::new(
            4,
            2,
            7,
            3,
            2,
            7,
            RlweSetting { polynomial_size: 2048, dimension: 1, log2_std_dev: -52 },
            LweSetting { dimension: 750, log2_std_dev: -18 },
            true,
        )
    }

    /// The deterministic file prefix of this parameter set: its numeric
    /// fields joined by underscores, so that keys persisted for
    /// different parameter sets never collide.
    pub open spec fn prefix_spec(self) -> Seq<char> {
        "zqz_"@ + dec_digits(self.nb_bit_precision as nat) + "_"@ + dec_digits(
            self.nb_bit_padding as nat,
        ) + "_"@ + dec_digits(self.bs_base_log as nat) + "_"@ + dec_digits(self.bs_level as nat)
            + "_"@ + dec_digits(self.ks_base_log as nat) + "_"@ + dec_digits(self.ks_level as nat)
            + "_"@ + dec_digits(self.rlwe_setting.polynomial_size as nat) + "_"@ + dec_digits(
            self.rlwe_setting.dimension as nat,
        ) + "_"@ + dec_digits(self.lwe_setting.dimension as nat) + (if self.with_ks {
            "_ks"@
        } else {
            "_noks"@
        })
    }

    /// Derives the file prefix for this parameter set.
    pub fn gen_prefix(&self) -> (r: String)
        ensures
            r@ == self.prefix_spec(),
    {
        let mut s = String::from_str("zqz_");
        s.append(dec_string(self.nb_bit_precision).as_str());
        s.append("_");
        s.append(dec_string(self.nb_bit_padding).as_str());
        s.append("_");
        s.append(dec_string(self.bs_base_log).as_str());
        s.append("_");
        s.append(dec_string(self.bs_level).as_str());
        s.append("_");
        s.append(dec_string(self.ks_base_log).as_str());
        s.append("_");
        s.append(dec_string(self.ks_level).as_str());
        s.append("_");
        s.append(dec_string(self.rlwe_setting.polynomial_size).as_str());
        s.append("_");
        s.append(dec_string(self.rlwe_setting.dimension).as_str());
        s.append("_");
        s.append(dec_string(self.lwe_setting.dimension).as_str());
        if self.with_ks {
            s.append("_ks");
        } else {
            s.append("_noks");
        }
        s
    }
}

/// The derived prefix is filesystem-safe: every character of it is a
/// decimal digit, a lower-case marker letter, or an underscore.
pub proof fn lemma_prefix_filesystem_safe(p: Parameters)
    ensures
        forall|i: int|
            0 <= i < p.prefix_spec().len() ==> identifier_char(#[trigger] p.prefix_spec()[i]),
{
    reveal_strlit("zqz_");
    reveal_strlit("_");
    reveal_strlit("_ks");
    reveal_strlit("_noks");
    lemma_dec_digits_identifier_chars(p.nb_bit_precision as nat);
    lemma_dec_digits_identifier_chars(p.nb_bit_padding as nat);
    lemma_dec_digits_identifier_chars(p.bs_base_log as nat);
    lemma_dec_digits_identifier_chars(p.bs_level as nat);
    lemma_dec_digits_identifier_chars(p.ks_base_log as nat);
    lemma_dec_digits_identifier_chars(p.ks_level as nat);
    lemma_dec_digits_identifier_chars(p.rlwe_setting.polynomial_size as nat);
    lemma_dec_digits_identifier_chars(p.rlwe_setting.dimension as nat);
    lemma_dec_digits_identifier_chars(p.lwe_setting.dimension as nat);
}

/// The path of the persisted secret key for a prefix.
pub fn secret_key_file(prefix: &str) -> (r: String)
    ensures
        r@ == prefix@ + "_secret_key.json"@,
{
    String::from_str(prefix).concat("_secret_key.json")
}

/// The path of the persisted bootstrapping key for a prefix.
pub fn bootstrapping_key_file(prefix: &str) -> (r: String)
    ensures
        r@ == prefix@ + "_bootstrapping_key.txt"@,
{
    String::from_str(prefix).concat("_bootstrapping_key.txt")
}

/// The path of the persisted keyswitching key for a prefix.
pub fn keyswitching_key_file(prefix: &str) -> (r: String)
    ensures
        r@ == prefix@ + "_keyswitching_key.txt"@,
{
    String::from_str(prefix).concat("_keyswitching_key.txt")
}

} // verus!
