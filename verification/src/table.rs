//! Sample table for the two complete elliptic integrals.
//!
//! The field of a circular current loop is written in terms of the complete
//! elliptic integrals K (first kind) and E (second kind) of a modulus
//! `k` in `[0, 1)`. Rather than evaluate the transcendental approximations
//! per step, the simulator samples both integrals once at `i / n` for
//! `i` in `[0, n)` and afterwards only reads the table.
//!
//! The entries are opaque 64-bit words: the embedding application computes
//! the floating-point sample values and stores their IEEE-754 bit patterns
//! here, and decodes them again after a lookup. This module owns everything
//! else: a table is only built from two equally long, non-empty sample
//! columns, and every lookup clamps its index, so a modulus at or above 1
//! (or a negative one, which the caller's conversion turns into index 0 or
//! a huge index) reads the last or first entry instead of out of bounds.

use vstd::prelude::*;

use vstd::arithmetic::div_mod::lemma_basic_div;
use vstd::arithmetic::div_mod::lemma_multiply_divide_lt;
use vstd::arithmetic::mul::lemma_mul_strict_inequality;
use vstd::arithmetic::mul::lemma_mul_upper_bound;
use vstd::arithmetic::power2::lemma2_to64;
use vstd::arithmetic::power2::lemma2_to64_rest;
use vstd::arithmetic::power2::lemma_pow2_adds;
use vstd::arithmetic::power2::lemma_pow2_pos;
use vstd::arithmetic::power2::lemma_pow2_strictly_increases;
use vstd::arithmetic::power2::pow2;
use vstd::bits::lemma_u128_shr_is_div;

use crate::integrals::INFINITY_MAGNITUDE;
use crate::integrals::ONE_WORD;

verus! {

/// Number of samples the simulator builds its table with.
pub const SAMPLES: usize = 100_000;

/// Dense samples of the two complete elliptic integrals at `i / n`.
///
/// `first[i]` holds the sample word of the first-kind integral K at
/// modulus `i / n`, `second[i]` the one of the second-kind integral E,
/// for `n` the common length of the two columns.
pub struct EllipticTable {
    pub first: Vec<u64>,
    pub second: Vec<u64>,
}

impl EllipticTable {
    /// Both columns are equally long and hold at least one sample, so
    /// every clamped index has an entry.
    pub open spec fn wf(self) -> bool {
        &&& self.first@.len() == self.second@.len()
        &&& self.first@.len() >= 1
    }

    /// Number of samples in the table.
    pub open spec fn spec_len(self) -> nat {
        self.first@.len()
    }

    /// The first-kind column.
    pub open spec fn firsts(self) -> Seq<u64> {
        self.first@
    }

    /// The second-kind column.
    pub open spec fn seconds(self) -> Seq<u64> {
        self.second@
    }

    /// The entry a raw index reads after clamping: the index itself while
    /// it is in range, else the last one.
    pub open spec fn spec_clamp(self, raw: int) -> int {
        if raw < self.spec_len() {
            raw
        } else {
            self.spec_len() - 1
        }
    }

    /// Builds a table from the two sample columns. Succeeds exactly when
    /// the columns are equally long and non-empty, and keeps them as given.
    pub fn new(first: Vec<u64>, second: Vec<u64>) -> (r: Option<EllipticTable>)
        ensures
            r is Some <==> (first@.len() == second@.len() && first@.len() >= 1),
            r is Some ==> {
                &&& r->Some_0.wf()
                &&& r->Some_0.firsts() == first@
                &&& r->Some_0.seconds() == second@
            },
    {
        if first.len() == second.len() && first.len() >= 1 {
            Some(EllipticTable { first, second })
        } else {
            None
        }
    }

    /// Number of samples.
    pub fn len(&self) -> (n: usize)
        ensures
            n == self.spec_len(),
    {
        self.first.len()
    }

    /// Clamps a raw sample index into the table's bounds: an index past the
    /// end (a modulus at or above 1) reads the last sample.
    pub fn clamp_index(&self, raw: usize) -> (i: usize)
        requires
            self.wf(),
        ensures
            i == self.spec_clamp(raw as int),
            i < self.spec_len(),
    {
        if raw < self.first.len() {
            raw
        } else {
            self.first.len() - 1
        }
    }

    /// Reads both integral samples at a raw index: the first-kind and the
    /// second-kind word at the clamped position. Total for every index, so
    /// no caller can reach past the columns.
    pub fn lookup(&self, raw: usize) -> (kv: (u64, u64))
        requires
            self.wf(),
        ensures
            kv.0 == self.firsts()[self.spec_clamp(raw as int)],
            kv.1 == self.seconds()[self.spec_clamp(raw as int)],
    {
        let i = self.clamp_index(raw);
        (self.first[i], self.second[i])
    }

    /// Reads both integral samples for a continuous modulus word: the
    /// exact `floor(k * n)` sample for an encoded modulus `k` below one,
    /// and the last sample for `k` at or above one (the out-of-range
    /// index clamps). The word must be at most the infinity pattern: a
    /// nonnegative, non-NaN modulus.
    pub fn lookup_modulus(&self, w: u64) -> (kv: (u64, u64))
        requires
            self.wf(),
            w <= INFINITY_MAGNITUDE,
        ensures
            ({
                let raw = if w < ONE_WORD {
                    spec_modulus_index(w, self.spec_len()) as int
                } else {
                    self.spec_len() as int
                };
                kv.0 == self.firsts()[self.spec_clamp(raw)] && kv.1
                    == self.seconds()[self.spec_clamp(raw)]
            }),
    {
        let i = modulus_raw_index(w, self.first.len());
        self.lookup(i)
    }
}

/// Exponent field of a scalar word: the eleven bits under the sign.
pub open spec fn exponent_field(w: u64) -> u64 {
    w >> 52
}

/// Mantissa field of a scalar word: its low 52 bits.
pub open spec fn mantissa_field(w: u64) -> u64 {
    w & 0x000FFFFFFFFFFFFF
}

/// Integer significand of a clear-sign word: the mantissa alone when the
/// exponent field is zero (a subnormal), else the mantissa with the
/// implicit leading bit set.
pub open spec fn significand(w: u64) -> nat {
    if exponent_field(w) == 0 {
        mantissa_field(w) as nat
    } else {
        mantissa_field(w) as nat + 0x0010000000000000
    }
}

/// The power of two the significand is scaled down by: the value a
/// clear-sign word below one encodes is
/// `significand(w) / 2^halving_exponent(w)`.
pub open spec fn halving_exponent(w: u64) -> nat {
    if exponent_field(w) == 0 {
        1074
    } else {
        (1075 - exponent_field(w)) as nat
    }
}

/// The sample index a modulus word below one selects in a table of `n`
/// samples: exactly `floor(k * n)` for the encoded modulus `k`, written
/// over the word's integer fields.
pub open spec fn spec_modulus_index(w: u64, n: nat) -> nat {
    significand(w) * n / pow2(halving_exponent(w))
}

/// Computes `floor(k * n)` exactly for the modulus `k` a clear-sign,
/// non-NaN word encodes, by integer arithmetic on the word's exponent and
/// mantissa fields. A modulus at or above one answers `n` itself: an
/// out-of-range index, which a clamped lookup turns into the last sample.
pub fn modulus_raw_index(w: u64, n: usize) -> (i: usize)
    requires
        n >= 1,
        w <= INFINITY_MAGNITUDE,
    ensures
        w < ONE_WORD ==> i == spec_modulus_index(w, n as nat) && i < n,
        w >= ONE_WORD ==> i == n,
{
    if w >= ONE_WORD {
        return n;
    }
    proof {
        // Below the word of one the exponent field stays below 1023, and
        // a mantissa field always fits its 52 bits.
        assert(w < 0x3FF0000000000000u64 ==> (w >> 52) < 0x3FFu64) by (bit_vector);
        assert((w & 0x000FFFFFFFFFFFFFu64) < 0x0010000000000000u64) by (bit_vector);
    }
    let e: u64 = w >> 52;
    let m: u64 = w & 0x000FFFFFFFFFFFFF;
    let sig: u64;
    let shift: u64;
    if e == 0 {
        sig = m;
        shift = 1074;
    } else {
        sig = 0x0010000000000000 + m;
        shift = 1075 - e;
    }
    proof {
        lemma2_to64();
        lemma2_to64_rest();
        assert(sig as nat == significand(w));
        assert(shift as nat == halving_exponent(w));
        assert(shift >= 53);
        assert(sig < 0x0020000000000000);
        // The numerator stays below 2^53 * 2^64 = 2^117.
        lemma_mul_upper_bound(
            sig as int,
            0x001FFFFFFFFFFFFFu64 as int,
            n as int,
            u64::MAX as int,
        );
        lemma_pow2_adds(53, 64);
        assert(significand(w) * (n as nat) < pow2(117));
    }
    if shift >= 128 {
        proof {
            // The divisor is at least 2^128, above the numerator's 2^117
            // bound, so the exact index is zero.
            lemma_pow2_strictly_increases(117, shift as nat);
            lemma_pow2_pos(shift as nat);
            lemma_basic_div((significand(w) * (n as nat)) as int, pow2(shift as nat) as int);
        }
        return 0;
    }
    let prod: u128 = (sig as u128) * (n as u128);
    let idx: u128 = prod >> (shift as u128);
    proof {
        lemma_u128_shr_is_div(prod, shift as u128);
        lemma_pow2_pos(shift as nat);
        if shift > 53 {
            lemma_pow2_strictly_increases(53, shift as nat);
        }
        assert(significand(w) < pow2(shift as nat));
        lemma_mul_strict_inequality(
            significand(w) as int,
            pow2(shift as nat) as int,
            n as int,
        );
        lemma_multiply_divide_lt(prod as int, pow2(shift as nat) as int, n as int);
    }
    idx as usize
}

} // verus!
