//! Conversion of raw sample words to physical units.
//!
//! The sensor's ADC output occupies the full signed 16-bit range:
//! `+32767` represents the configured full-scale magnitude and `-32768`
//! represents approximately its negative (the one-count asymmetry at the
//! negative extreme is the standard, accepted approximation). Magnitudes
//! and results are in micro-units, so the conversion
//! `raw * magnitude / 32767` is exact integer arithmetic with the
//! quotient rounded towards zero.

use vstd::arithmetic::div_mod::{
    lemma_div_is_ordered, lemma_div_multiples_vanish, lemma_hoist_over_denominator,
};
use vstd::arithmetic::mul::lemma_mul_upper_bound;
use vstd::prelude::*;

verus! {

/// The physical value, in micro-units, that the raw sample word `raw`
/// represents under a full-scale magnitude of `magnitude` micro-units:
/// `raw * magnitude / 32767`, rounded towards zero.
pub open spec fn to_physical_spec(raw: int, magnitude: int) -> int {
    if raw >= 0 {
        (raw * magnitude) / 32767
    } else {
        -(((-raw) * magnitude) / 32767)
    }
}

/// Converts the raw sample word `raw` to micro-units of the physical
/// quantity, under a full-scale magnitude of `magnitude_micro`
/// micro-units.
pub fn to_physical(raw: i16, magnitude_micro: u32) -> (r: i64)
    ensures
        r as int == to_physical_spec(raw as int, magnitude_micro as int),
{
    let magnitude: u64 = magnitude_micro as u64;
    if raw >= 0 {
        let word: u64 = raw as u64;
        proof {
            lemma_mul_upper_bound(word as int, 0x7fff, magnitude as int, 0xffff_ffff);
        }
        let product: u64 = word * magnitude;
        proof {
            lemma_div_is_ordered(product as int, 0x7fff as int * 0xffff_ffff, 32767);
        }
        (product / 32767) as i64
    } else {
        let word: u64 = (-(raw as i64)) as u64;
        proof {
            lemma_mul_upper_bound(word as int, 0x8000, magnitude as int, 0xffff_ffff);
        }
        let product: u64 = word * magnitude;
        proof {
            lemma_div_is_ordered(product as int, 0x8000 as int * 0xffff_ffff, 32767);
        }
        -((product / 32767) as i64)
    }
}

/// At the extremes of the raw range the conversion behaves as the
/// full-scale contract promises: `+32767` converts to the magnitude
/// itself, exactly, and `-32768` converts to its negative overshot by
/// exactly `magnitude / 32767` micro-units (the one-count asymmetry of
/// the two's-complement range).
pub proof fn lemma_full_scale_endpoints(magnitude: int)
    requires
        0 <= magnitude,
    ensures
        to_physical_spec(32767, magnitude) == magnitude,
        to_physical_spec(-32768, magnitude) == -(magnitude + magnitude / 32767),
        to_physical_spec(0, magnitude) == 0,
{
    lemma_div_multiples_vanish(magnitude, 32767);
    assert(32767 * magnitude == magnitude * 32767) by (nonlinear_arith);
    assert((32767 * magnitude) / 32767 == magnitude);
    lemma_hoist_over_denominator(magnitude, magnitude, 32767);
    assert(32768 * magnitude == magnitude + magnitude * 32767) by (nonlinear_arith);
    assert((32768 * magnitude) / 32767 == magnitude + magnitude / 32767);
}

/// For every supported accelerometer scale, a raw word of `+32767`
/// converts to the scale's magnitude itself and a raw word of `-32768`
/// converts to its negative, overshot by the expected single count
/// `magnitude / 32767`.
pub proof fn lemma_accel_full_scale(scale: crate::scale::AccelScale)
    ensures
        to_physical_spec(32767, scale.magnitude_micro_spec()) == scale.magnitude_micro_spec(),
        to_physical_spec(-32768, scale.magnitude_micro_spec()) == -(
        scale.magnitude_micro_spec() + scale.magnitude_micro_spec() / 32767),
{
    lemma_full_scale_endpoints(scale.magnitude_micro_spec());
}

/// For every supported gyro scale, a raw word of `+32767` converts to the
/// scale's magnitude itself and a raw word of `-32768` converts to its
/// negative, overshot by the expected single count `magnitude / 32767`.
pub proof fn lemma_gyro_full_scale(scale: crate::scale::GyroScale)
    ensures
        to_physical_spec(32767, scale.magnitude_micro_spec()) == scale.magnitude_micro_spec(),
        to_physical_spec(-32768, scale.magnitude_micro_spec()) == -(
        scale.magnitude_micro_spec() + scale.magnitude_micro_spec() / 32767),
{
    lemma_full_scale_endpoints(scale.magnitude_micro_spec());
}

} // verus!
