//! The verified semantics of ciphertexts: the exact integer a
//! ciphertext carries, the encoder interval it lives in, and what each
//! homomorphic operation does to both.
//!
//! The lattice payload itself is opaque to this layer and is held by
//! the host next to a `CiphertextState`. The state tracks, in the
//! `value` ghost field, the exact plaintext integer the payload
//! encodes, and in `enc` the encoder interval and padding budget the
//! backend maintains. Operations here decide admissibility exactly as
//! the backend does (equal widths and padding budgets, at least one
//! padding bit to absorb growth), compute the next state, and carry
//! the value through the arithmetic; decoding reduces it modulo `M`
//! (`codec::decode_value`). Fidelity of the payload to `value` holds
//! while the carried value stays inside its interval, which the
//! well-formedness predicate pins down.
use vstd::prelude::*;

verus! {

use vstd::arithmetic::power2::{lemma2_to64, lemma2_to64_rest, lemma_pow2_adds,
    lemma_pow2_strictly_increases, pow2};
use vstd::arithmetic::div_mod::lemma_mod_bound;
use crate::ZqzError;
use crate::codec::{decode_value, encode_value};
use crate::params::Parameters;

/// The integer-level view of the backend's encoder attached to one
/// ciphertext: decoded values live in `[lo, hi)`, `nb_bit_padding`
/// bits of headroom are left to absorb homomorphic growth, and
/// `nb_bit_precision` significant bits survive decoding.
#[derive(Clone, Copy, PartialEq, Eq, Structural, Debug)]
pub struct Encoding {
    pub lo: i64,
    pub hi: i64,
    pub nb_bit_padding: usize,
    pub nb_bit_precision: usize,
}

impl Encoding {
    /// The width of the decodable interval.
    pub open spec fn width(self) -> int {
        self.hi - self.lo
    }

    /// The absolute bound the remaining padding budget keeps the
    /// interval under: each consumed padding bit may double it, and
    /// the base is chosen so that interval arithmetic stays well
    /// inside the 64-bit signed word.
    pub open spec fn headroom(self) -> int {
        pow2((61 - self.nb_bit_padding) as nat) as int
    }

    /// Well-formedness: a nonempty interval within the headroom that
    /// the remaining padding budget allows.
    pub open spec fn wf(self) -> bool {
        &&& self.nb_bit_padding <= 31
        &&& 1 <= self.nb_bit_precision <= 31
        &&& -self.headroom() <= self.lo
        &&& self.lo < self.hi
        &&& self.hi <= self.headroom()
    }
}

/// The verified state of one ciphertext: the modulus it was encoded
/// for, its encoder interval, and (as ghost state) the exact integer
/// the payload carries.
#[derive(Clone, Copy)]
pub struct CiphertextState {
    pub modulo: usize,
    pub enc: Encoding,
    pub value: Ghost<int>,
}

impl CiphertextState {
    /// Well-formedness: the carried value sits inside the decodable
    /// interval, so decoding still recovers it exactly.
    pub open spec fn wf(self) -> bool {
        &&& 1 <= self.modulo <= 0x4000_0000
        &&& self.enc.wf()
        &&& self.enc.lo <= self.value@ < self.enc.hi
    }

    /// The plaintext this ciphertext decrypts to: its carried value
    /// reduced into `[0, modulo)`.
    pub open spec fn plaintext(self) -> int {
        decode_value(self.value@, self.modulo as int)
    }

    /// The state of a fresh encryption of `message` under `params`:
    /// the message reduced into `[0, modulo)`, carried in the interval
    /// `[0, modulo)` with the full padding budget.
    pub fn fresh(params: &Parameters, message: usize) -> (r: CiphertextState)
        requires
            params.wf(),
        ensures
            r.wf(),
            r.modulo == params.modulo,
            r.value@ == encode_value(message as int, params.modulo as int),
            r.plaintext() == encode_value(message as int, params.modulo as int),
            r.enc.lo == 0,
            r.enc.hi == params.modulo,
            r.enc.nb_bit_padding == params.nb_bit_padding,
            r.enc.nb_bit_precision == params.nb_bit_precision,
    {
        proof {
            vstd::arithmetic::power2::lemma_pow2_pos(params.nb_bit_precision as nat);
            lemma_mod_bound(message as int, params.modulo as int);
            lemma_pow2_strictly_increases(
                params.nb_bit_precision as nat,
                (61 - params.nb_bit_padding) as nat,
            );
            vstd::arithmetic::div_mod::lemma_mod_twice(message as int, params.modulo as int);
        }
        CiphertextState {
            modulo: params.modulo,
            enc: Encoding {
                lo: 0,
                hi: params.modulo as i64,
                nb_bit_padding: params.nb_bit_padding,
                nb_bit_precision: params.nb_bit_precision,
            },
            value: Ghost((message as int) % (params.modulo as int)),
        }
    }

    /// Adds a non-negative scalar to the carried value. The encoder is
    /// unchanged, so the caller keeps the result inside the interval;
    /// past it, the backend's representation would silently wrap.
    pub fn add_scalar(&self, s: usize) -> (r: CiphertextState)
        requires
            self.wf(),
            s <= 0x7FFF_FFFF,
            self.value@ + s < self.enc.hi as int,
        ensures
            r.wf(),
            r.modulo == self.modulo,
            r.enc == self.enc,
            r.value@ == self.value@ + s,
    {
        CiphertextState { modulo: self.modulo, enc: self.enc, value: Ghost(self.value@ + s) }
    }

    /// Subtracts a non-negative scalar from the carried value, under
    /// the same in-interval obligation as `add_scalar`.
    pub fn sub_scalar(&self, s: usize) -> (r: CiphertextState)
        requires
            self.wf(),
            s <= 0x7FFF_FFFF,
            self.enc.lo as int <= self.value@ - s,
        ensures
            r.wf(),
            r.modulo == self.modulo,
            r.enc == self.enc,
            r.value@ == self.value@ - s,
    {
        CiphertextState { modulo: self.modulo, enc: self.enc, value: Ghost(self.value@ - s) }
    }

    /// Multiplies the carried value by a non-negative scalar small
    /// enough for the backend's 32-bit scalar path, under the same
    /// in-interval obligation as `add_scalar`.
    pub fn mul_scalar(&self, s: usize) -> (r: CiphertextState)
        requires
            self.wf(),
            s <= 0x7FFF_FFFF,
            self.enc.lo as int <= self.value@ * s < self.enc.hi as int,
        ensures
            r.wf(),
            r.modulo == self.modulo,
            r.enc == self.enc,
            r.value@ == self.value@ * s,
    {
        CiphertextState { modulo: self.modulo, enc: self.enc, value: Ghost(self.value@ * s) }
    }

    /// Whether two ciphertexts can be combined at all: same modulus,
    /// same interval width and same padding budget, exactly the checks
    /// the backend makes before adding or subtracting payloads.
    pub open spec fn compatible(self, other: CiphertextState) -> bool {
        &&& self.modulo == other.modulo
        &&& self.enc.width() == other.enc.width()
        &&& self.enc.nb_bit_padding == other.enc.nb_bit_padding
    }

    /// Homomorphic addition of two ciphertexts. It succeeds exactly on
    /// compatible operands with a padding bit left to absorb the
    /// doubled interval; the result carries the sum of the values.
    pub fn add_ciphertext(&self, other: &CiphertextState) -> (r: Result<
        CiphertextState,
        ZqzError,
    >)
        requires
            self.wf(),
            other.wf(),
        ensures
            r is Ok <==> (self.compatible(*other) && self.enc.nb_bit_padding >= 1),
            r == Err::<CiphertextState, ZqzError>(ZqzError::MismatchedOperands) <==> !self.compatible(*other),
            r == Err::<CiphertextState, ZqzError>(ZqzError::PaddingExhausted) <==> (
            self.compatible(*other) && self.enc.nb_bit_padding == 0),
            r is Ok ==> {
                let c = r->Ok_0;
                &&& c.wf()
                &&& c.modulo == self.modulo
                &&& c.value@ == self.value@ + other.value@
                &&& c.enc.lo == self.enc.lo + other.enc.lo
                &&& c.enc.hi == self.enc.hi + other.enc.hi
                &&& c.enc.nb_bit_padding == self.enc.nb_bit_padding - 1
                &&& c.enc.nb_bit_precision == (if self.enc.nb_bit_precision
                    <= other.enc.nb_bit_precision {
                    self.enc.nb_bit_precision
                } else {
                    other.enc.nb_bit_precision
                })
                &&& c.plaintext() == decode_value(
                    self.value@ + other.value@,
                    self.modulo as int,
                )
            },
    {
        proof {
            lemma_headroom_bounds(self.enc);
            lemma_headroom_bounds(other.enc);
            lemma2_to64_rest();
        }
        if self.modulo != other.modulo || self.enc.hi - self.enc.lo != other.enc.hi - other.enc.lo
            || self.enc.nb_bit_padding != other.enc.nb_bit_padding {
            Err(ZqzError::MismatchedOperands)
        } else if self.enc.nb_bit_padding == 0 {
            Err(ZqzError::PaddingExhausted)
        } else {
            proof {
                lemma_padded_growth(self.enc, other.enc);
            }
            let prec = if self.enc.nb_bit_precision <= other.enc.nb_bit_precision {
                self.enc.nb_bit_precision
            } else {
                other.enc.nb_bit_precision
            };
            Ok(
                CiphertextState {
                    modulo: self.modulo,
                    enc: Encoding {
                        lo: self.enc.lo + other.enc.lo,
                        hi: self.enc.hi + other.enc.hi,
                        nb_bit_padding: self.enc.nb_bit_padding - 1,
                        nb_bit_precision: prec,
                    },
                    value: Ghost(self.value@ + other.value@),
                },
            )
        }
    }

    /// Homomorphic subtraction of two ciphertexts, under the same
    /// admissibility as addition; the result carries the difference,
    /// in the shifted interval `[lo - hi', hi - lo')`, so a negative
    /// difference decodes wrapped into `[0, modulo)`.
    pub fn sub_ciphertext(&self, other: &CiphertextState) -> (r: Result<
        CiphertextState,
        ZqzError,
    >)
        requires
            self.wf(),
            other.wf(),
        ensures
            r is Ok <==> (self.compatible(*other) && self.enc.nb_bit_padding >= 1),
            r == Err::<CiphertextState, ZqzError>(ZqzError::MismatchedOperands) <==> !self.compatible(*other),
            r == Err::<CiphertextState, ZqzError>(ZqzError::PaddingExhausted) <==> (
            self.compatible(*other) && self.enc.nb_bit_padding == 0),
            r is Ok ==> {
                let c = r->Ok_0;
                &&& c.wf()
                &&& c.modulo == self.modulo
                &&& c.value@ == self.value@ - other.value@
                &&& c.enc.lo == self.enc.lo - other.enc.hi
                &&& c.enc.hi == self.enc.hi - other.enc.lo
                &&& c.enc.nb_bit_padding == self.enc.nb_bit_padding - 1
                &&& c.enc.nb_bit_precision == (if self.enc.nb_bit_precision
                    <= other.enc.nb_bit_precision {
                    self.enc.nb_bit_precision
                } else {
                    other.enc.nb_bit_precision
                })
                &&& c.plaintext() == decode_value(
                    self.value@ - other.value@,
                    self.modulo as int,
                )
            },
    {
        proof {
            lemma_headroom_bounds(self.enc);
            lemma_headroom_bounds(other.enc);
            lemma2_to64_rest();
        }
        if self.modulo != other.modulo || self.enc.hi - self.enc.lo != other.enc.hi - other.enc.lo
            || self.enc.nb_bit_padding != other.enc.nb_bit_padding {
            Err(ZqzError::MismatchedOperands)
        } else if self.enc.nb_bit_padding == 0 {
            Err(ZqzError::PaddingExhausted)
        } else {
            proof {
                lemma_padded_growth(self.enc, other.enc);
            }
            let prec = if self.enc.nb_bit_precision <= other.enc.nb_bit_precision {
                self.enc.nb_bit_precision
            } else {
                other.enc.nb_bit_precision
            };
            Ok(
                CiphertextState {
                    modulo: self.modulo,
                    enc: Encoding {
                        lo: self.enc.lo - other.enc.hi,
                        hi: self.enc.hi - other.enc.lo,
                        nb_bit_padding: self.enc.nb_bit_padding - 1,
                        nb_bit_precision: prec,
                    },
                    value: Ghost(self.value@ - other.value@),
                },
            )
        }
    }

    /// Homomorphic multiplication of two ciphertexts, the most
    /// range-sensitive operation: the backend evaluates it through two
    /// refreshes and needs two padding bits and two precision bits; no
    /// refresh of the result is performed here. It is modeled for
    /// operands still in their fresh interval `[0, hi)` with `hi` at
    /// most `2^30`; the result carries the product in `[0, hi * hi')`
    /// with a single padding bit left.
    pub fn mul_ciphertext(&self, other: &CiphertextState) -> (r: Result<
        CiphertextState,
        ZqzError,
    >)
        requires
            self.wf(),
            other.wf(),
            self.enc.lo == 0,
            other.enc.lo == 0,
            self.enc.hi <= 0x4000_0000,
            other.enc.hi <= 0x4000_0000,
        ensures
            r is Ok <==> (self.compatible(*other) && self.enc.nb_bit_padding >= 2
                && self.enc.nb_bit_precision >= 2 && other.enc.nb_bit_precision >= 2),
            r == Err::<CiphertextState, ZqzError>(ZqzError::MismatchedOperands) <==> !self.compatible(*other),
            r == Err::<CiphertextState, ZqzError>(ZqzError::PaddingExhausted) <==> (
            self.compatible(*other) && (self.enc.nb_bit_padding < 2
                || self.enc.nb_bit_precision < 2 || other.enc.nb_bit_precision < 2)),
            r is Ok ==> {
                let c = r->Ok_0;
                &&& c.wf()
                &&& c.modulo == self.modulo
                &&& c.value@ == self.value@ * other.value@
                &&& c.enc.lo == 0
                &&& c.enc.hi == self.enc.hi * other.enc.hi
                &&& c.enc.nb_bit_padding == 1
                &&& c.enc.nb_bit_precision == (if self.enc.nb_bit_precision
                    <= other.enc.nb_bit_precision {
                    self.enc.nb_bit_precision
                } else {
                    other.enc.nb_bit_precision
                })
                &&& c.plaintext() == decode_value(
                    self.value@ * other.value@,
                    self.modulo as int,
                )
            },
    {
        if self.modulo != other.modulo || self.enc.hi - self.enc.lo != other.enc.hi - other.enc.lo
            || self.enc.nb_bit_padding != other.enc.nb_bit_padding {
            Err(ZqzError::MismatchedOperands)
        } else if self.enc.nb_bit_padding < 2 || self.enc.nb_bit_precision < 2
            || other.enc.nb_bit_precision < 2 {
            Err(ZqzError::PaddingExhausted)
        } else {
            proof {
                lemma_product_interval(
                    self.value@,
                    other.value@,
                    self.enc.hi as int,
                    other.enc.hi as int,
                );
                lemma2_to64();
                lemma2_to64_rest();
            }
            let prec = if self.enc.nb_bit_precision <= other.enc.nb_bit_precision {
                self.enc.nb_bit_precision
            } else {
                other.enc.nb_bit_precision
            };
            Ok(
                CiphertextState {
                    modulo: self.modulo,
                    enc: Encoding {
                        lo: 0,
                        hi: self.enc.hi * other.enc.hi,
                        nb_bit_padding: 1,
                        nb_bit_precision: prec,
                    },
                    value: Ghost(self.value@ * other.value@),
                },
            )
        }
    }

    /// What a decoded and rounded raw value decrypts to: its reduction
    /// into `[0, modulo)`. Whenever the backend's decode returned the
    /// carried value — which it does while the state stays well-formed
    /// — the result is exactly this ciphertext's plaintext.
    pub fn decrypt_value(&self, raw: i64) -> (r: usize)
        requires
            self.wf(),
        ensures
            r as int == decode_value(raw as int, self.modulo as int),
            r < self.modulo,
            raw as int == self.value@ ==> r as int == self.plaintext(),
    {
        crate::codec::round_modulo(raw, self.modulo)
    }
}

/// The numeric reach of a well-formed encoding: both interval ends fit
/// comfortably under `2^61`.
proof fn lemma_headroom_bounds(e: Encoding)
    requires
        e.wf(),
    ensures
        -(pow2(61) as int) <= e.lo,
        e.hi <= pow2(61) as int,
{
    if e.nb_bit_padding >= 1 {
        lemma_pow2_strictly_increases((61 - e.nb_bit_padding) as nat, 61);
    }
}

/// Consuming one padding bit doubles the allowed headroom: two
/// intervals within the headroom of budget `p >= 1` combine into one
/// within the headroom of budget `p - 1`.
proof fn lemma_padded_growth(a: Encoding, b: Encoding)
    requires
        a.wf(),
        b.wf(),
        a.nb_bit_padding == b.nb_bit_padding,
        a.nb_bit_padding >= 1,
    ensures
        pow2((61 - a.nb_bit_padding) as nat) * 2 == pow2((61 - (a.nb_bit_padding - 1)) as nat),
        pow2((61 - a.nb_bit_padding) as nat) * 2 <= pow2(61),
{
    lemma_pow2_adds((61 - a.nb_bit_padding) as nat, 1);
    lemma2_to64();
    if a.nb_bit_padding > 1 {
        lemma_pow2_strictly_increases((61 - (a.nb_bit_padding - 1)) as nat, 61);
    }
}

/// Two values in fresh intervals `[0, ha)` and `[0, hb)` have their
/// product in `[0, ha * hb)`, and the product interval stays under the
/// headroom of a single remaining padding bit.
proof fn lemma_product_interval(va: int, vb: int, ha: int, hb: int)
    requires
        0 <= va < ha,
        0 <= vb < hb,
        ha <= 0x4000_0000,
        hb <= 0x4000_0000,
    ensures
        0 <= va * vb,
        va * vb < ha * hb,
        ha * hb <= pow2(60),
{
    vstd::arithmetic::power2::lemma2_to64_rest();
    assert(0 <= va * vb && va * vb < ha * hb && ha * hb <= 0x4000_0000 * 0x4000_0000)
        by (nonlinear_arith)
        requires
            0 <= va < ha,
            0 <= vb < hb,
            ha <= 0x4000_0000,
            hb <= 0x4000_0000,
    ;
}

} // verus!
