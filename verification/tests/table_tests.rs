use cusp_sim::table::modulus_raw_index;
use cusp_sim::table::EllipticTable;
use cusp_sim::table::SAMPLES;

#[test]
fn build_requires_matching_nonempty_columns() {
    assert!(EllipticTable::new(vec![1, 2], vec![3]).is_none());
    assert!(EllipticTable::new(vec![], vec![]).is_none());
    assert!(EllipticTable::new(vec![1], vec![2]).is_some());
}

#[test]
fn build_keeps_columns_as_given() {
    let table = EllipticTable::new(vec![10, 20, 30], vec![40, 50, 60]).unwrap();
    assert_eq!(table.len(), 3);
    assert_eq!(table.first, vec![10, 20, 30]);
    assert_eq!(table.second, vec![40, 50, 60]);
}

#[test]
fn lookup_reads_both_columns_at_the_index() {
    let table = EllipticTable::new(vec![10, 20, 30], vec![40, 50, 60]).unwrap();
    assert_eq!(table.lookup(0), (10, 40));
    assert_eq!(table.lookup(1), (20, 50));
    assert_eq!(table.lookup(2), (30, 60));
}

#[test]
fn lookup_clamps_an_index_past_the_end() {
    let table = EllipticTable::new(vec![10, 20, 30], vec![40, 50, 60]).unwrap();
    // A modulus of exactly 1 lands one past the end; any larger raw index,
    // usize::MAX included (a negative modulus converted to an index), reads
    // the last sample instead of out of bounds.
    assert_eq!(table.lookup(3), (30, 60));
    assert_eq!(table.lookup(1000), (30, 60));
    assert_eq!(table.lookup(usize::MAX), (30, 60));
}

#[test]
fn clamp_index_is_identity_in_range() {
    let table = EllipticTable::new(vec![0; 5], vec![0; 5]).unwrap();
    for raw in 0..5 {
        assert_eq!(table.clamp_index(raw), raw);
    }
    assert_eq!(table.clamp_index(5), 4);
    assert_eq!(table.clamp_index(usize::MAX), 4);
}

#[test]
fn sample_words_round_trip_through_the_table() {
    // The embedding stores IEEE-754 bit patterns of the integral samples;
    // the table must hand the exact words back.
    let n = 32;
    let first: Vec<u64> = (0..n)
        .map(|i| (1.0 + i as f64 / n as f64).to_bits())
        .collect();
    let second: Vec<u64> = (0..n)
        .map(|i| (1.0 - 0.5 * i as f64 / n as f64).to_bits())
        .collect();
    let table = EllipticTable::new(first, second).unwrap();
    let (k_word, e_word) = table.lookup(7);
    assert_eq!(f64::from_bits(k_word), 1.0 + 7.0 / 32.0);
    assert_eq!(f64::from_bits(e_word), 1.0 - 0.5 * 7.0 / 32.0);
}

#[test]
fn sample_count_matches_the_simulator_resolution() {
    assert_eq!(SAMPLES, 100_000);
}

#[test]
fn modulus_index_is_the_floor_of_the_scaled_modulus() {
    let n = 100_000;
    assert_eq!(modulus_raw_index(0.0f64.to_bits(), n), 0);
    assert_eq!(modulus_raw_index(0.25f64.to_bits(), n), 25_000);
    assert_eq!(modulus_raw_index(0.5f64.to_bits(), n), 50_000);
    assert_eq!(modulus_raw_index(0.123456f64.to_bits(), n), 12_345);
    assert_eq!(modulus_raw_index(0.999999999f64.to_bits(), n), 99_999);
    assert_eq!(modulus_raw_index(5e-324f64.to_bits(), n), 0);
    // A modulus at or above one answers n itself, the out-of-range index
    // a clamped lookup turns into the last sample.
    assert_eq!(modulus_raw_index(1.0f64.to_bits(), n), n);
    assert_eq!(modulus_raw_index(1.5f64.to_bits(), n), n);
}

#[test]
fn modulus_index_is_exact_where_a_float_product_rounds() {
    // The double nearest to 0.00031 lies just below 31/100000, so the
    // true floor of the scaled modulus is 30 - but the floating-point
    // product rounds up to exactly 31.0. The index computation follows
    // the true floor.
    let k: f64 = 0.00031;
    assert_eq!((k * 100_000.0) as usize, 31);
    assert_eq!(modulus_raw_index(k.to_bits(), 100_000), 30);
}

#[test]
fn lookup_by_modulus_reads_the_floor_sample() {
    let table = EllipticTable::new(vec![10, 20, 30, 40], vec![50, 60, 70, 80]).unwrap();
    assert_eq!(table.lookup_modulus(0.0f64.to_bits()), (10, 50));
    assert_eq!(table.lookup_modulus(0.26f64.to_bits()), (20, 60));
    assert_eq!(table.lookup_modulus(0.75f64.to_bits()), (40, 80));
    // At or above one the lookup clamps to the last sample.
    assert_eq!(table.lookup_modulus(1.0f64.to_bits()), (40, 80));
    assert_eq!(table.lookup_modulus(f64::INFINITY.to_bits()), (40, 80));
}
