//! The bit-level widening of single-precision values to doubles agrees
//! with the hardware conversion.

use fakeit_ext::widen_f32_bits;

fn agrees(x: f32) {
    let widened = f64::from_bits(widen_f32_bits(x.to_bits()));
    let cast = x as f64;
    assert_eq!(
        widened.to_bits(),
        cast.to_bits(),
        "widening {x:?} (bits {:#010x})",
        x.to_bits()
    );
}

#[test]
fn widening_agrees_on_ordinary_values() {
    for x in [
        0.0f32, 1.0, -1.0, 1.5, -2.5, 90.0, -90.0, 180.0, -179.99, 3.14159265,
        1.0e-10, -1.0e10, f32::MAX, f32::MIN, f32::MIN_POSITIVE,
    ] {
        agrees(x);
    }
}

#[test]
fn widening_agrees_on_signed_zero_and_infinities() {
    agrees(0.0);
    agrees(-0.0);
    agrees(f32::INFINITY);
    agrees(f32::NEG_INFINITY);
}

#[test]
fn widening_agrees_on_subnormals() {
    // Smallest positive subnormal, largest subnormal, and a few between.
    for bits in [1u32, 2, 3, 0x0000_7FFF, 0x0040_0000, 0x007F_FFFF] {
        agrees(f32::from_bits(bits));
        agrees(-f32::from_bits(bits));
    }
}

#[test]
fn widening_keeps_not_a_number() {
    let widened = f64::from_bits(widen_f32_bits(f32::NAN.to_bits()));
    assert!(widened.is_nan());
}

#[test]
fn widening_sweeps_exponent_range() {
    // One value for every biased exponent of a single-precision float.
    for e in 0u32..=254 {
        let bits = (e << 23) | 0x0012_3456;
        agrees(f32::from_bits(bits));
        agrees(f32::from_bits(bits | 0x8000_0000));
    }
}
