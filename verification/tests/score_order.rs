use vector_search::score::{order_key, order_keys};

#[test]
fn nan_maps_to_zero() {
    assert_eq!(order_key(f64::NAN.to_bits()), 0);
    assert_eq!(order_key((-f64::NAN).to_bits()), 0);
    // A quiet NaN with extra payload bits is still a NaN.
    assert_eq!(order_key(0x7ff8_0000_0000_1234), 0);
    assert_eq!(order_key(0xfff8_0000_0000_1234), 0);
}

#[test]
fn nan_sorts_below_every_numeric_score() {
    let nan_key: u64 = order_key(f64::NAN.to_bits());
    let numerics: Vec<f64> = vec![
        f64::NEG_INFINITY,
        f64::MIN,
        -1.0,
        -f64::MIN_POSITIVE,
        -0.0,
        0.0,
        f64::MIN_POSITIVE,
        1.0,
        f64::MAX,
        f64::INFINITY,
    ];
    for v in numerics {
        assert!(nan_key < order_key(v.to_bits()));
    }
}

#[test]
fn keys_follow_numeric_order() {
    let ascending: Vec<f64> = vec![
        f64::NEG_INFINITY,
        -1.0e300,
        -2.5,
        -1.0,
        -1.0e-12,
        -0.0,
        0.0,
        1.0e-12,
        0.5,
        1.0,
        1.0e300,
        f64::INFINITY,
    ];
    for w in ascending.windows(2) {
        let lo: u64 = order_key(w[0].to_bits());
        let hi: u64 = order_key(w[1].to_bits());
        assert!(lo <= hi);
    }
    assert!(order_key((-1.0f64).to_bits()) < order_key(1.0f64.to_bits()));
}

#[test]
fn the_two_zeros_are_one_score() {
    // -0.0 == 0.0 as scores, so they share a sort key: ranking ties
    // between them fall back to the original index, as for any equal
    // scores.
    assert_eq!(
        order_key((-0.0f64).to_bits()),
        order_key(0.0f64.to_bits())
    );
}

#[test]
fn key_lists_are_mapped_elementwise() {
    let values: Vec<f64> = vec![0.5, f64::NAN, -3.25, 0.0];
    let patterns: Vec<u64> = values.iter().map(|v| v.to_bits()).collect();
    let keys: Vec<u64> = order_keys(&patterns);
    assert_eq!(keys.len(), patterns.len());
    for (i, p) in patterns.iter().enumerate() {
        assert_eq!(keys[i], order_key(*p));
    }
    assert_eq!(keys[1], 0);
}

#[test]
fn equal_scores_share_a_key() {
    let a: f64 = 0.123456789;
    assert_eq!(order_key(a.to_bits()), order_key(a.to_bits()));
    assert_eq!(
        order_key(f64::NAN.to_bits()),
        order_key(0xfff0_0000_0000_0001)
    );
}
