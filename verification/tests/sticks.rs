use aoko::gamepads::{clamp_circle, isqrt64, Vec2, MAX_RAW, SCALE};

const MULT: i64 = 32_767 * SCALE;

#[test]
fn isqrt_matches_on_squares_and_between() {
    assert_eq!(isqrt64(0), 0);
    assert_eq!(isqrt64(1), 1);
    assert_eq!(isqrt64(3), 1);
    assert_eq!(isqrt64(4), 2);
    assert_eq!(isqrt64(1_000_000_000_000), 1_000_000);
    assert_eq!(isqrt64(1_620_000_000_000), 1_272_792);
    assert_eq!(isqrt64(u64::MAX), 4_294_967_295);
}

#[test]
fn sample_inside_unit_disk_passes_through() {
    let v = clamp_circle(Vec2 { x: 500_000, y: 0 });
    assert_eq!(v, Vec2 { x: 500_000, y: 0 });
    let w = clamp_circle(Vec2 { x: -600_000, y: 800_000 });
    assert_eq!(w, Vec2 { x: -600_000, y: 800_000 });
}

#[test]
fn corner_sample_clamps_to_unit_vector_same_direction() {
    // raw (0.9, 0.9) has norm ~1.273; it clamps to ~(0.7071, 0.7071)
    let v = clamp_circle(Vec2 { x: 900_000, y: 900_000 });
    assert_eq!(v, Vec2 { x: 707_106, y: 707_106 });
    // direction is preserved for a negative coordinate too
    let w = clamp_circle(Vec2 { x: -900_000, y: 900_000 });
    assert_eq!(w, Vec2 { x: -707_106, y: 707_106 });
}

#[test]
fn clamped_output_never_leaves_unit_range() {
    let v = clamp_circle(Vec2 { x: MAX_RAW, y: -MAX_RAW });
    assert!(v.x.abs() <= SCALE && v.y.abs() <= SCALE);
    let w = clamp_circle(Vec2 { x: 1_500_000, y: 0 });
    assert_eq!(w, Vec2 { x: 1_000_000, y: 0 });
}

#[test]
fn full_deflection_scales_to_multiplier() {
    let v = Vec2 { x: 1_000_000i64, y: 0 };
    let out = v.into_i32_multiplied(MULT, MULT);
    assert_eq!(out, Vec2 { x: 32_767, y: 0 });
}

#[test]
fn inverted_axis_negates_full_deflection() {
    // clamped 1.0 with multiplier 32767 and that axis inverted gives -32767
    let v = Vec2 { x: 1_000_000i64, y: 0 };
    let out = v.into_i32_multiplied(-MULT, MULT);
    assert_eq!(out, Vec2 { x: -32_767, y: 0 });
}

#[test]
fn scaling_truncates_toward_zero() {
    let v = Vec2 { x: 500_000i64, y: -250_000 };
    let out = v.into_i32_multiplied(MULT, MULT);
    // 0.5 * 32767 = 16383.5 -> 16383; -0.25 * 32767 = -8191.75 -> -8191
    assert_eq!(out, Vec2 { x: 16_383, y: -8_191 });
}
