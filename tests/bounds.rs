use bouncing_square::bounds::{Bounds, ConfigError};
use bouncing_square::SCALE;

#[test]
fn bounds_accept_ordered_walls() {
    let b = Bounds::new(200 * SCALE, -200 * SCALE).unwrap();
    assert_eq!(b.top, 200 * SCALE);
    assert_eq!(b.bottom, -200 * SCALE);
}

#[test]
fn bounds_refuse_equal_or_inverted_walls() {
    assert_eq!(Bounds::new(5, 5), Err(ConfigError::MalformedBounds));
    assert_eq!(Bounds::new(-5, 5), Err(ConfigError::MalformedBounds));
}

#[test]
fn centered_bounds_split_the_height() {
    let b = Bounds::centered(400 * SCALE).unwrap();
    assert_eq!(b.top, 200 * SCALE);
    assert_eq!(b.bottom, -200 * SCALE);
    let odd = Bounds::centered(5).unwrap();
    assert_eq!((odd.top, odd.bottom), (2, -2));
    assert_eq!(Bounds::centered(1), Err(ConfigError::MalformedBounds));
    assert_eq!(Bounds::centered(-10), Err(ConfigError::MalformedBounds));
}

#[test]
fn clamp_in_range_is_identity() {
    let b = Bounds::new(200, -200).unwrap();
    for y in [-200i128, -1, 0, 7, 200] {
        assert_eq!(b.clamp(y) as i128, y);
    }
}

#[test]
fn clamp_out_of_range_hits_nearest_wall() {
    let b = Bounds::new(200, -200).unwrap();
    assert_eq!(b.clamp(201), 200);
    assert_eq!(b.clamp(-201), -200);
    assert_eq!(b.clamp(i128::MAX), 200);
    assert_eq!(b.clamp(i128::MIN), -200);
}

#[test]
fn clamp_twice_equals_clamp_once() {
    let b = Bounds::new(200, -200).unwrap();
    for y in [-1000i128, -200, 3, 200, 1000] {
        let once = b.clamp(y);
        assert_eq!(b.clamp(once as i128), once);
    }
}
