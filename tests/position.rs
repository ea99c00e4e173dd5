use bouncing_square::position::Position2d;
use bouncing_square::vector::{Vector2, Vector3};
use bouncing_square::SCALE;

#[test]
fn from_vec3_divides_by_z() {
    let p = Position2d::from_vec3(Vector3::new(6 * SCALE, -4 * SCALE, 2 * SCALE));
    assert_eq!(p, Position2d { x: 3 * SCALE, y: -2 * SCALE });
}

#[test]
fn from_vec3_rounds_toward_zero() {
    let p = Position2d::from_vec3(Vector3::new(1, -1, 3 * SCALE));
    assert_eq!(p, Position2d { x: 0, y: 0 });
    let q = Position2d::from_vec3(Vector3::new(10, -10, -3 * SCALE));
    assert_eq!(q, Position2d { x: -3, y: 3 });
}

#[test]
fn lossy_from_vec3_drops_z() {
    let p = Position2d::lossy_from_vec3(Vector3::new(7, -8, 9));
    assert_eq!(p, Position2d { x: 7, y: -8 });
}

#[test]
fn conversions_keep_coordinates() {
    let p = Position2d::from(Vector2::new(1, 2));
    assert_eq!(p, Position2d { x: 1, y: 2 });
    let v: Vector2 = p.into();
    assert_eq!(v, Vector2 { x: 1, y: 2 });
    let h: Vector3 = p.into();
    assert_eq!(h, Vector3 { x: 1, y: 2, z: SCALE });
    assert_eq!(Position2d::from_vec3(h), p);
}

#[test]
fn default_position_is_origin() {
    assert_eq!(Position2d::default(), Position2d { x: 0, y: 0 });
}
