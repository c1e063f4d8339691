//! Domain handling of the two complete elliptic integrals.
//!
//! `completeFirstKind` (K) and `completeSecondKind` (E) take a
//! modulus-style argument conventionally in `[0, 1]` and answer arguments
//! at or beyond the domain edges with defined fallback values, never with
//! an error path: E maps `0` to `1` and everything else outside `(0, 1]`
//! to `0`; K maps everything outside `[0, 1]` to `0`, exactly `0` to the
//! largest finite value (a defined "infinite" sentinel), and a tiny
//! positive argument to its logarithmic asymptote. The table builder
//! relies on exactly these conventions.
//!
//! Which arm answers is decided here, on the argument's IEEE-754 bit
//! pattern, and proved to follow the floating-point comparisons that
//! define the arms: for words with a clear sign bit the integer order of
//! the patterns is the order of the encoded values, a set sign bit (on a
//! non-zero, non-NaN word) means a negative value, and a NaN word
//! compares false to everything and so falls through every test. The
//! minimax evaluation and the asymptote themselves are floating point and
//! live with the embedding application, which dispatches on the verified
//! classification.

use vstd::prelude::*;

verus! {

/// Sign bit of a scalar word.
pub const SIGN_MASK: u64 = 0x8000000000000000;

/// Everything but the sign bit of a scalar word.
pub const MAGNITUDE_MASK: u64 = 0x7FFFFFFFFFFFFFFF;

/// Magnitude of the infinity pattern; a larger magnitude is a NaN.
pub const INFINITY_MAGNITUDE: u64 = 0x7FF0000000000000;

/// Word (IEEE-754 bit pattern) of 1.0: the value the second-kind integral
/// takes at zero, and the upper domain edge of both integrals.
pub const ONE_WORD: u64 = 0x3FF0000000000000;

/// Word of the largest finite value: the defined "infinite" sentinel the
/// first-kind integral answers at exactly zero.
pub const MAX_FINITE_WORD: u64 = 0x7FEFFFFFFFFFFFFF;

/// Word of the machine-epsilon threshold 1.11022302462515654042e-16, at
/// or below which a positive argument takes the first-kind integral to
/// its logarithmic asymptote instead of the minimax evaluation.
pub const MACHEP_WORD: u64 = 0x3CA0000000000000;

/// The magnitude bits of a word: everything but the sign.
pub open spec fn magnitude(w: u64) -> u64 {
    w & MAGNITUDE_MASK
}

/// Whether the word is a NaN pattern: exponent all ones and a non-zero
/// mantissa. Every floating-point comparison on such a value is false.
pub open spec fn is_nan_word(w: u64) -> bool {
    magnitude(w) > INFINITY_MAGNITUDE
}

/// Whether the word encodes zero of either sign, the one value that
/// compares equal to 0.0.
pub open spec fn is_zero_word(w: u64) -> bool {
    magnitude(w) == 0
}

/// Whether the word compares strictly below 0.0: its sign bit is set and
/// it is neither a zero nor a NaN.
pub open spec fn lt_zero_word(w: u64) -> bool {
    &&& !is_nan_word(w)
    &&& w >= SIGN_MASK
    &&& !is_zero_word(w)
}

/// Whether the word compares strictly above the positive finite word
/// `bound`: it is not a NaN, its sign bit is clear, and its pattern lies
/// above `bound` (on clear-sign words the integer order of the patterns
/// is the floating-point order of the values, infinity included).
pub open spec fn gt_word(w: u64, bound: u64) -> bool {
    &&& !is_nan_word(w)
    &&& w < SIGN_MASK
    &&& w > bound
}

/// The arm that answers the second-kind integral for one argument word.
#[derive(Clone, Copy, Debug, PartialEq, Eq, Structural)]
pub enum SecondKindCase {
    /// The argument compares equal to zero: the integral is exactly 1.0
    /// (the word `ONE_WORD`).
    One,
    /// The argument compares below zero or above one: the defined
    /// fallback 0.0.
    Zero,
    /// The argument lies in (0, 1]: the minimax evaluation answers.
    Evaluate,
}

/// The arm that answers the first-kind integral for one argument word.
#[derive(Clone, Copy, Debug, PartialEq, Eq, Structural)]
pub enum FirstKindCase {
    /// The argument compares below zero or above one: the defined
    /// fallback 0.0.
    Zero,
    /// The argument lies above the machine-epsilon threshold (and at most
    /// at one): the minimax evaluation answers.
    Evaluate,
    /// The argument compares equal to zero: the largest finite value (the
    /// word `MAX_FINITE_WORD`) stands in for the integral's pole.
    MaxSentinel,
    /// A tiny positive argument: the asymptote `ln(4) - 0.5*ln(x)`
    /// answers. A NaN argument falls through every comparison into this
    /// arm too, where the evaluation stays NaN.
    Asymptote,
}

/// Decides which arm answers the second-kind integral, following the
/// floating-point tests `x == 0.0`, `x <= 0.0` and `x > 1.0` on the
/// encoded value.
pub fn classify_second_kind(w: u64) -> (c: SecondKindCase)
    ensures
        c == SecondKindCase::One <==> is_zero_word(w),
        c == SecondKindCase::Zero <==> (lt_zero_word(w) || gt_word(w, ONE_WORD)),
        c == SecondKindCase::Evaluate <==> !is_zero_word(w) && !lt_zero_word(w) && !gt_word(
            w,
            ONE_WORD,
        ),
{
    proof {
        // On a clear sign bit the magnitude is the word itself.
        assert(w < 0x8000000000000000u64 ==> (w & 0x7FFFFFFFFFFFFFFFu64) == w) by (bit_vector);
    }
    let mag = w & MAGNITUDE_MASK;
    if mag > INFINITY_MAGNITUDE {
        // A NaN compares false to every bound, so it falls through to the
        // evaluation arm (and stays NaN there).
        SecondKindCase::Evaluate
    } else if mag == 0 {
        SecondKindCase::One
    } else if w >= SIGN_MASK || w > ONE_WORD {
        SecondKindCase::Zero
    } else {
        SecondKindCase::Evaluate
    }
}

/// Decides which arm answers the first-kind integral, following the
/// floating-point tests `x < 0.0`, `x > 1.0`, `x > machine epsilon` and
/// `x == 0.0` on the encoded value, in that order.
pub fn classify_first_kind(w: u64) -> (c: FirstKindCase)
    ensures
        c == FirstKindCase::Zero <==> (lt_zero_word(w) || gt_word(w, ONE_WORD)),
        c == FirstKindCase::Evaluate <==> (gt_word(w, MACHEP_WORD) && !gt_word(w, ONE_WORD)),
        c == FirstKindCase::MaxSentinel <==> is_zero_word(w),
        c == FirstKindCase::Asymptote <==> (is_nan_word(w) || (1 <= w <= MACHEP_WORD)),
{
    proof {
        // On a clear sign bit the magnitude is the word itself.
        assert(w < 0x8000000000000000u64 ==> (w & 0x7FFFFFFFFFFFFFFFu64) == w) by (bit_vector);
    }
    let mag = w & MAGNITUDE_MASK;
    if mag > INFINITY_MAGNITUDE {
        FirstKindCase::Asymptote
    } else if (w >= SIGN_MASK && mag != 0) || (w < SIGN_MASK && w > ONE_WORD) {
        FirstKindCase::Zero
    } else if w < SIGN_MASK && w > MACHEP_WORD {
        FirstKindCase::Evaluate
    } else if mag == 0 {
        FirstKindCase::MaxSentinel
    } else {
        FirstKindCase::Asymptote
    }
}

} // verus!
