use raymarch_scene::camera::{Camera, FOV_DEFAULT, FOV_MAX, FOV_MIN};
use raymarch_scene::scalar::{
    scalar_eq, scalar_is_nan, scalar_is_zero, scalar_magnitude, HALF, INFINITY, ONE, SIGN, ZERO,
};

fn samples() -> Vec<f32> {
    vec![
        0.0,
        -0.0,
        1.0,
        -1.0,
        0.5,
        0.001,
        0.0009999,
        0.0010001,
        80.0,
        100000.0,
        100000.01,
        99999.99,
        3.0e38,
        -3.0e38,
        1.0e-40,
        -1.0e-40,
        f32::MIN_POSITIVE,
        f32::MAX,
        f32::MIN,
        f32::INFINITY,
        f32::NEG_INFINITY,
        f32::NAN,
        -f32::NAN,
        f32::from_bits(0x7f80_0001),
        f32::from_bits(0xffff_ffff),
        f32::EPSILON,
    ]
}

#[test]
fn constants_are_the_patterns_of_their_numbers() {
    assert_eq!(ZERO, 0.0f32.to_bits());
    assert_eq!(HALF, 0.5f32.to_bits());
    assert_eq!(ONE, 1.0f32.to_bits());
    assert_eq!(SIGN, (-0.0f32).to_bits());
    assert_eq!(INFINITY, f32::INFINITY.to_bits());
    assert_eq!(FOV_MIN, 0.001f32.to_bits());
    assert_eq!(FOV_MAX, 100000.0f32.to_bits());
    assert_eq!(FOV_DEFAULT, 80.0f32.to_bits());
}

#[test]
fn magnitude_clears_the_sign() {
    for x in samples() {
        assert_eq!(scalar_magnitude(x.to_bits()), x.to_bits() & 0x7fff_ffff);
    }
    assert_eq!(scalar_magnitude(0x8000_0000), 0);
    assert_eq!(scalar_magnitude(0xc040_0000), 0x4040_0000);
    assert_eq!(scalar_magnitude(0x4040_0000), 0x4040_0000);
}

#[test]
fn nan_test_agrees_with_floats() {
    for x in samples() {
        assert_eq!(scalar_is_nan(x.to_bits()), x.is_nan(), "{:?}", x);
    }
    assert!(!scalar_is_nan(INFINITY));
    assert!(scalar_is_nan(INFINITY + 1));
    assert!(!scalar_is_nan(0xff80_0000));
    assert!(scalar_is_nan(0xff80_0001));
}

#[test]
fn zero_test_agrees_with_floats() {
    for x in samples() {
        assert_eq!(scalar_is_zero(x.to_bits()), x == 0.0, "{:?}", x);
    }
    assert!(scalar_is_zero(0));
    assert!(scalar_is_zero(0x8000_0000));
    assert!(!scalar_is_zero(1));
}

#[test]
fn equality_agrees_with_floats() {
    for x in samples() {
        for y in samples() {
            assert_eq!(scalar_eq(x.to_bits(), y.to_bits()), x == y, "{:?} {:?}", x, y);
        }
    }
}

#[test]
fn equality_on_the_edge_cases() {
    assert!(scalar_eq(0.0f32.to_bits(), (-0.0f32).to_bits()));
    assert!(!scalar_eq(f32::NAN.to_bits(), f32::NAN.to_bits()));
    assert!(scalar_eq(f32::INFINITY.to_bits(), f32::INFINITY.to_bits()));
    assert!(!scalar_eq(f32::INFINITY.to_bits(), f32::NEG_INFINITY.to_bits()));
    assert!(!scalar_eq(1.0f32.to_bits(), (-1.0f32).to_bits()));
}

#[test]
fn new_camera_is_at_rest() {
    let camera = Camera::new();
    assert_eq!(camera.pos, [0.0f32.to_bits(); 3]);
    assert_eq!(camera.rotation_axis, [0.0f32.to_bits(), 1.0f32.to_bits(), 0.0f32.to_bits()]);
    assert_eq!(camera.angle, 0.0f32.to_bits());
    assert_eq!(camera.fov, 80.0f32.to_bits());
}

#[test]
fn field_of_view_rule_agrees_with_floats() {
    for x in samples() {
        let mut camera = Camera::new();
        let before = camera;
        let taken = camera.set_field_of_view(x.to_bits());
        let expected = x >= 0.001 && x <= 100000.0;
        assert_eq!(taken, expected, "{:?}", x);
        if expected {
            assert_eq!(camera.fov, x.to_bits());
            assert_eq!(camera.pos, before.pos);
            assert_eq!(camera.rotation_axis, before.rotation_axis);
            assert_eq!(camera.angle, before.angle);
        } else {
            assert_eq!(camera, before);
        }
    }
}

#[test]
fn field_of_view_takes_both_bounds() {
    let mut camera = Camera::new();
    assert!(camera.set_field_of_view(0.001f32.to_bits()));
    assert_eq!(f32::from_bits(camera.fov), 0.001);
    assert!(camera.set_field_of_view(100000.0f32.to_bits()));
    assert_eq!(f32::from_bits(camera.fov), 100000.0);
}

#[test]
fn field_of_view_drops_what_is_just_outside() {
    let mut camera = Camera::new();
    assert!(!camera.set_field_of_view(FOV_MIN - 1));
    assert_eq!(camera.fov, FOV_DEFAULT);
    assert!(!camera.set_field_of_view(FOV_MAX + 1));
    assert_eq!(camera.fov, FOV_DEFAULT);
}

#[test]
fn zoom_inside_the_range_moves_by_the_scaled_delta() {
    let mut camera = Camera::new();
    let sensitivity = 0.05f32;
    let delta = -12.0f32;
    let asked = f32::from_bits(camera.fov) + delta * sensitivity;
    assert!(camera.set_field_of_view(asked.to_bits()));
    assert_eq!(f32::from_bits(camera.fov), 80.0 + delta * sensitivity);
    assert_eq!(f32::from_bits(camera.fov), 79.4);
}

#[test]
fn zoom_below_the_range_is_dropped_not_clamped() {
    let mut camera = Camera::new();
    assert!(camera.set_field_of_view(0.002f32.to_bits()));
    let asked = f32::from_bits(camera.fov) + (-1.0) * 0.05;
    assert!(!camera.set_field_of_view(asked.to_bits()));
    assert_eq!(f32::from_bits(camera.fov), 0.002);
}

#[test]
fn zoom_above_the_range_is_dropped_not_clamped() {
    let mut camera = Camera::new();
    assert!(camera.set_field_of_view(99999.0f32.to_bits()));
    let asked = f32::from_bits(camera.fov) + 100.0 * 0.05 * 1000.0;
    assert!(!camera.set_field_of_view(asked.to_bits()));
    assert_eq!(f32::from_bits(camera.fov), 99999.0);
}
