use minigames::digits::{i64_to_string, u64_to_string};
use minigames::geom::{clamp_i64, clamp_to_rect, reflect_y, scale_velocity, Vec2i};

#[test]
fn renders_zero() {
    assert_eq!(u64_to_string(0), "0");
}

#[test]
fn renders_single_digit() {
    assert_eq!(u64_to_string(7), "7");
}

#[test]
fn renders_multi_digit() {
    assert_eq!(u64_to_string(42), "42");
    assert_eq!(u64_to_string(1000), "1000");
    assert_eq!(u64_to_string(987654321), "987654321");
}

#[test]
fn renders_largest_u64() {
    assert_eq!(u64_to_string(u64::MAX), "18446744073709551615");
}

#[test]
fn renders_signed() {
    assert_eq!(i64_to_string(0), "0");
    assert_eq!(i64_to_string(15), "15");
    assert_eq!(i64_to_string(-7), "-7");
    assert_eq!(i64_to_string(i64::MIN), "-9223372036854775808");
}

#[test]
fn clamps_scalar() {
    assert_eq!(clamp_i64(5, 0, 10), 5);
    assert_eq!(clamp_i64(-3, 0, 10), 0);
    assert_eq!(clamp_i64(42, 0, 10), 10);
    assert_eq!(clamp_i64(0, 0, 0), 0);
}

#[test]
fn clamps_to_rect() {
    let screen = Vec2i::new(640_000, 480_000);
    let inside = clamp_to_rect(Vec2i::new(100_000, 200_000), screen);
    assert_eq!((inside.x, inside.y), (100_000, 200_000));
    let outside = clamp_to_rect(Vec2i::new(-5_000, 500_000), screen);
    assert_eq!((outside.x, outside.y), (0, 480_000));
}

#[test]
fn reflection_preserves_squared_length() {
    let v = Vec2i::new(300, 400);
    let r = reflect_y(v);
    assert_eq!((r.x, r.y), (300, -400));
    assert_eq!(r.x * r.x + r.y * r.y, v.x * v.x + v.y * v.y);
}

#[test]
fn scales_velocity_toward_zero() {
    // 150 units/s for a 16 ms frame: 2.4 units.
    assert_eq!(scale_velocity(150_000, 16_000), 2_400);
    assert_eq!(scale_velocity(-150_000, 16_000), -2_400);
    assert_eq!(scale_velocity(0, 16_000), 0);
    assert_eq!(scale_velocity(1, 999_999), 0);
    assert_eq!(scale_velocity(-1, 999_999), 0);
}
