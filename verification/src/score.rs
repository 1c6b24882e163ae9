use vstd::prelude::*;

verus! {

/// Bit weight of the IEEE-754 double-precision sign bit.
pub const F64_SIGN_BIT: u64 = 0x8000_0000_0000_0000;

/// Bit weight of the lowest exponent bit (the fraction holds 52 bits).
pub const F64_FRACTION_SPAN: u64 = 0x10_0000_0000_0000;

/// Number of distinct exponent values (the exponent holds 11 bits).
pub const F64_EXPONENT_SPAN: u64 = 0x800;

/// All-ones exponent, the marker of infinities and NaNs.
pub const F64_EXPONENT_MAX: u64 = 0x7ff;

/// The exponent field of the double-precision pattern `bits`.
pub open spec fn exponent_bits(bits: u64) -> u64 {
    ((bits / F64_FRACTION_SPAN) % F64_EXPONENT_SPAN) as u64
}

/// The fraction field of the double-precision pattern `bits`.
pub open spec fn fraction_bits(bits: u64) -> u64 {
    (bits % F64_FRACTION_SPAN) as u64
}

/// Whether the pattern carries a set sign bit.
pub open spec fn sign_bit(bits: u64) -> bool {
    bits >= F64_SIGN_BIT
}

/// The pattern without its sign bit: exponent and fraction together.
pub open spec fn magnitude_bits(bits: u64) -> u64 {
    if bits >= F64_SIGN_BIT {
        (bits - F64_SIGN_BIT) as u64
    } else {
        bits
    }
}

/// Whether the pattern encodes a NaN: all-ones exponent with a nonzero
/// fraction.
pub open spec fn is_nan_bits(bits: u64) -> bool {
    exponent_bits(bits) == F64_EXPONENT_MAX && fraction_bits(bits) != 0
}

/// The pattern with a negative zero folded onto the positive one: the two
/// zeros are numerically equal scores, so they must share one rank.
pub open spec fn canonical_bits(bits: u64) -> u64 {
    if bits == F64_SIGN_BIT {
        0
    } else {
        bits
    }
}

/// The ranking order on score patterns: `a` ranks at or below `b`.
///
/// Every NaN sorts below every numeric score (and NaNs tie with each
/// other); numeric patterns follow the sign-magnitude order of IEEE-754,
/// except that the two zero patterns are one rank: they are equal scores.
pub open spec fn score_le_bits(a: u64, b: u64) -> bool {
    if is_nan_bits(a) {
        true
    } else if is_nan_bits(b) {
        false
    } else {
        let ca = canonical_bits(a);
        let cb = canonical_bits(b);
        if sign_bit(ca) != sign_bit(cb) {
            sign_bit(ca)
        } else if sign_bit(ca) {
            magnitude_bits(cb) <= magnitude_bits(ca)
        } else {
            magnitude_bits(ca) <= magnitude_bits(cb)
        }
    }
}

/// The sort key of the score pattern `bits`: every NaN maps to zero, the
/// two zero patterns share one key, and the keys of numeric patterns
/// preserve `score_le_bits` in the plain `u64` order.
pub open spec fn spec_order_key(bits: u64) -> u64 {
    if is_nan_bits(bits) {
        0
    } else if canonical_bits(bits) >= F64_SIGN_BIT {
        (u64::MAX - canonical_bits(bits)) as u64
    } else {
        (canonical_bits(bits) + F64_SIGN_BIT) as u64
    }
}

/// Computes the sort key of one double-precision score pattern.
pub fn order_key(bits: u64) -> (key: u64)
    ensures
        key == spec_order_key(bits),
{
    let exponent = (bits / F64_FRACTION_SPAN) % F64_EXPONENT_SPAN;
    let fraction = bits % F64_FRACTION_SPAN;
    let canonical: u64 = if bits == F64_SIGN_BIT {
        0
    } else {
        bits
    };
    if exponent == F64_EXPONENT_MAX && fraction != 0 {
        0
    } else if canonical >= F64_SIGN_BIT {
        u64::MAX - canonical
    } else {
        canonical + F64_SIGN_BIT
    }
}

/// Computes the sort key of each score pattern in a list, in order.
#[verifier::loop_isolation(false)]
pub fn order_keys(patterns: &Vec<u64>) -> (keys: Vec<u64>)
    ensures
        keys@.len() == patterns@.len(),
        forall|i: int| 0 <= i < keys@.len() ==> keys@[i] == spec_order_key(patterns@[i]),
{
    let mut keys: Vec<u64> = Vec::new();
    let mut i: usize = 0;
    while i < patterns.len()
        invariant
            i <= patterns@.len(),
            keys@.len() == i,
            forall|j: int| 0 <= j < i ==> keys@[j] == spec_order_key(patterns@[j]),
        decreases patterns@.len() - i,
    {
        let key = order_key(patterns[i]);
        keys.push(key);
        i = i + 1;
    }
    keys
}

/// The key of a numeric (non-NaN) pattern is never zero; zero keys name
/// NaNs alone.
pub proof fn lemma_numeric_key_positive(bits: u64)
    requires
        !is_nan_bits(bits),
    ensures
        spec_order_key(bits) >= 1,
{
    if bits >= F64_SIGN_BIT {
        if bits == u64::MAX {
            assert(is_nan_bits(u64::MAX));
        }
    }
}

/// Law: comparing sort keys is exactly the ranking order on score
/// patterns — NaNs below every numeric score, numeric scores in
/// sign-magnitude order with the two zeros tied.
pub proof fn lemma_order_key_total_order(a: u64, b: u64)
    ensures
        spec_order_key(a) <= spec_order_key(b) <==> score_le_bits(a, b),
{
    if !is_nan_bits(a) {
        lemma_numeric_key_positive(a);
    }
    if !is_nan_bits(b) {
        lemma_numeric_key_positive(b);
    }
}

/// Law: equal sort keys name patterns with the same rank — two NaNs, the
/// same numeric pattern, or the two zeros.
pub proof fn lemma_order_key_injective_on_numeric(a: u64, b: u64)
    requires
        spec_order_key(a) == spec_order_key(b),
        !is_nan_bits(a),
    ensures
        canonical_bits(a) == canonical_bits(b),
{
    lemma_numeric_key_positive(a);
}

} // verus!
