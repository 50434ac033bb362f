use locomotion::fixed::fdiv;
use locomotion::fixed::isqrt;
use locomotion::general_movement::horizontal_part;
use locomotion::general_movement::vertical_part;
use locomotion::general_movement::vertical_speed_milli;
use locomotion::vec3::Vec3;

#[test]
fn floor_division_rounds_toward_negative_infinity() {
    assert_eq!(fdiv(7, 2), 3);
    assert_eq!(fdiv(-7, 2), -4);
    assert_eq!(fdiv(-6, 3), -2);
    assert_eq!(fdiv(0, 5), 0);
    assert_eq!(fdiv(i64::MAX, 1), i64::MAX);
    assert_eq!(fdiv(i64::MIN + 1, 1), i64::MIN + 1);
}

#[test]
fn integer_square_root_is_the_floor_root() {
    assert_eq!(isqrt(0), 0);
    assert_eq!(isqrt(1), 1);
    assert_eq!(isqrt(3), 1);
    assert_eq!(isqrt(4), 2);
    assert_eq!(isqrt(19_600_000), 4_427);
    assert_eq!(isqrt(1_000_000_000_000), 1_000_000);
    assert_eq!(isqrt(u64::MAX), 4_294_967_295);
}

#[test]
fn decomposition_recomposes_and_is_exact_on_the_axis() {
    let up = Vec3::new(600, 800, 0);
    let v = Vec3::new(3_000_000, -1_234_567, 42_000);
    let vert = vertical_part(&v, &up);
    let horiz = horizontal_part(&v, &up);
    assert_eq!(Vec3::new(vert.x + horiz.x, vert.y + horiz.y, vert.z + horiz.z), v);
    // the horizontal part carries less than one milli unit of axis speed
    assert_eq!(vertical_speed_milli(&horiz, &up), 0);
    // and extracting the vertical part twice changes nothing
    assert_eq!(vertical_part(&vert, &up), vert);
}

#[test]
fn vertical_speed_floors_on_the_milli_scale() {
    let up = Vec3::new(0, 1_000, 0);
    assert_eq!(vertical_speed_milli(&Vec3::new(0, 4_427_999, 0), &up), 4_427);
    assert_eq!(vertical_speed_milli(&Vec3::new(0, -1, 0), &up), -1);
    assert_eq!(vertical_speed_milli(&Vec3::zero(), &up), 0);
}
