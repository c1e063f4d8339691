use cusp_sim::integrals::classify_first_kind;
use cusp_sim::integrals::classify_second_kind;
use cusp_sim::integrals::FirstKindCase;
use cusp_sim::integrals::SecondKindCase;
use cusp_sim::integrals::MACHEP_WORD;
use cusp_sim::integrals::MAX_FINITE_WORD;
use cusp_sim::integrals::ONE_WORD;

const MACHEP: f64 = 1.110_223_024_625_156_54e-16;

#[test]
fn the_constant_words_decode_as_documented() {
    assert_eq!(f64::from_bits(ONE_WORD), 1.0);
    assert_eq!(f64::from_bits(MAX_FINITE_WORD), f64::MAX);
    assert_eq!(f64::from_bits(MACHEP_WORD), MACHEP);
}

#[test]
fn second_kind_is_one_exactly_at_zero() {
    assert_eq!(classify_second_kind(0.0f64.to_bits()), SecondKindCase::One);
    assert_eq!(classify_second_kind((-0.0f64).to_bits()), SecondKindCase::One);
    assert_eq!(f64::from_bits(ONE_WORD), 1.0);
}

#[test]
fn second_kind_is_zero_outside_the_domain() {
    for x in [-1.5f64, -1e-300, -f64::MAX, f64::NEG_INFINITY] {
        assert_eq!(classify_second_kind(x.to_bits()), SecondKindCase::Zero);
    }
    for x in [1.0000000000000002f64, 2.0, 1e300, f64::INFINITY] {
        assert_eq!(classify_second_kind(x.to_bits()), SecondKindCase::Zero);
    }
}

#[test]
fn second_kind_evaluates_inside_the_domain() {
    for x in [1e-300f64, MACHEP, 0.1, 0.5, 0.9999, 1.0] {
        assert_eq!(classify_second_kind(x.to_bits()), SecondKindCase::Evaluate);
    }
}

#[test]
fn first_kind_sentinel_stands_at_zero() {
    assert_eq!(
        classify_first_kind(0.0f64.to_bits()),
        FirstKindCase::MaxSentinel
    );
    assert_eq!(
        classify_first_kind((-0.0f64).to_bits()),
        FirstKindCase::MaxSentinel
    );
    assert_eq!(f64::from_bits(MAX_FINITE_WORD), f64::MAX);
}

#[test]
fn first_kind_is_zero_outside_the_domain() {
    for x in [-1.0f64, -1e-300, f64::NEG_INFINITY, 1.5, f64::INFINITY] {
        assert_eq!(classify_first_kind(x.to_bits()), FirstKindCase::Zero);
    }
}

#[test]
fn first_kind_splits_at_the_machine_epsilon_threshold() {
    for x in [1e-300f64, 1e-17, MACHEP] {
        assert_eq!(classify_first_kind(x.to_bits()), FirstKindCase::Asymptote);
    }
    for x in [1.2e-16f64, 0.1, 0.5, 1.0] {
        assert_eq!(classify_first_kind(x.to_bits()), FirstKindCase::Evaluate);
    }
}

#[test]
fn classification_follows_the_floating_point_comparisons() {
    // The verified arms are stated over bit patterns; the floating-point
    // branch tests they mirror are re-run here on the values themselves.
    let samples = [
        f64::NEG_INFINITY,
        -f64::MAX,
        -1.0,
        -1e-300,
        -0.0,
        0.0,
        5e-324,
        1e-17,
        MACHEP,
        1.2e-16,
        0.25,
        0.9999999,
        1.0,
        1.0000000000000002,
        3.0,
        f64::MAX,
        f64::INFINITY,
        f64::NAN,
    ];
    for x in samples {
        let second = if x <= 0.0 || x > 1.0 {
            if x == 0.0 {
                SecondKindCase::One
            } else {
                SecondKindCase::Zero
            }
        } else {
            SecondKindCase::Evaluate
        };
        assert_eq!(classify_second_kind(x.to_bits()), second, "at {x}");

        let first = if x < 0.0 || x > 1.0 {
            FirstKindCase::Zero
        } else if x > MACHEP {
            FirstKindCase::Evaluate
        } else if x == 0.0 {
            FirstKindCase::MaxSentinel
        } else {
            FirstKindCase::Asymptote
        };
        assert_eq!(classify_first_kind(x.to_bits()), first, "at {x}");
    }
}
