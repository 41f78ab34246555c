use raymarch_scene::shapes::{
    gl_spheres_size, to_gl_spheres, vector_eq, Cube, GlSphere, MengerSponge, Sphere, Triangle,
    GL_SPHERE_BYTES,
};

fn v(x: f32, y: f32, z: f32) -> [u32; 3] {
    [x.to_bits(), y.to_bits(), z.to_bits()]
}

#[test]
fn constructors_keep_their_arguments() {
    let s = Sphere::new(v(0.0, 1.0, 0.0), v(0.0078, 0.1647, 0.3569), 0.7f32.to_bits());
    assert_eq!(s.pos, v(0.0, 1.0, 0.0));
    assert_eq!(s.color, v(0.0078, 0.1647, 0.3569));
    assert_eq!(s.radius, 0.7f32.to_bits());

    let t = Triangle::new(v(-1.5, -1.5, 1.0), v(-1.5, 1.5, 1.0), v(1.5, -1.5, 1.0), v(0.8, 0.1, 0.3));
    assert_eq!(t.v1, v(-1.5, -1.5, 1.0));
    assert_eq!(t.v2, v(-1.5, 1.5, 1.0));
    assert_eq!(t.v3, v(1.5, -1.5, 1.0));
    assert_eq!(t.color, v(0.8, 0.1, 0.3));

    let c = Cube::new(v(0.0, 0.0, 0.0), v(0.4, 2.0, 0.4), v(0.8, 0.1, 0.3));
    assert_eq!(c.pos, v(0.0, 0.0, 0.0));
    assert_eq!(c.dim, v(0.4, 2.0, 0.4));
    assert_eq!(c.color, v(0.8, 0.1, 0.3));

    let m = MengerSponge::new(v(2.0, 0.0, 0.0), 10.0f32.to_bits(), v(0.8, 0.1, 0.3));
    assert_eq!(m.pos, v(2.0, 0.0, 0.0));
    assert_eq!(m.iterations, 10.0f32.to_bits());
    assert_eq!(m.color, v(0.8, 0.1, 0.3));
}

#[test]
fn a_negative_radius_is_kept() {
    let s = Sphere::new(v(0.0, 0.0, 0.0), v(2.0, -1.0, 0.5), (-3.0f32).to_bits());
    assert_eq!(f32::from_bits(s.radius), -3.0);
    assert_eq!(f32::from_bits(s.color[0]), 2.0);
}

#[test]
fn widened_sphere_has_one_in_the_fourth_place() {
    let g = GlSphere::new(v(1.0, 2.0, 3.0), v(0.1, 0.2, 0.3), 0.7f32.to_bits());
    let one = 1.0f32.to_bits();
    let zero = 0.0f32.to_bits();
    assert_eq!(g.pos, [1.0f32.to_bits(), 2.0f32.to_bits(), 3.0f32.to_bits(), one]);
    assert_eq!(g.color, [0.1f32.to_bits(), 0.2f32.to_bits(), 0.3f32.to_bits(), one]);
    assert_eq!(g.radius, [0.7f32.to_bits(), zero, zero, zero]);
}

#[test]
fn to_gl_sphere_widens_the_fields() {
    let s = Sphere::new(v(1.0, 2.0, 3.0), v(0.1, 0.2, 0.3), 0.7f32.to_bits());
    assert_eq!(s.to_gl_sphere(), GlSphere::new(s.pos, s.color, s.radius));
    assert_eq!(s.to_gl_sphere().radius[0], 0.7f32.to_bits());
}

#[test]
fn to_gl_spheres_keeps_the_order() {
    let a = Sphere::new(v(1.0, 2.0, 3.0), v(0.1, 0.2, 0.3), 0.7f32.to_bits());
    let b = Sphere::new(v(4.0, 5.0, 6.0), v(0.4, 0.5, 0.6), 0.9f32.to_bits());
    let out = to_gl_spheres(&vec![a, b]);
    assert_eq!(out, vec![a.to_gl_sphere(), b.to_gl_sphere()]);
    assert_eq!(to_gl_spheres(&Vec::new()), Vec::new());
}

#[test]
fn buffer_size_is_forty_eight_bytes_a_sphere() {
    assert_eq!(GL_SPHERE_BYTES, 48);
    assert_eq!(GL_SPHERE_BYTES, 3 * 4 * std::mem::size_of::<f32>());
    assert_eq!(gl_spheres_size(0), Some(0));
    assert_eq!(gl_spheres_size(2), Some(96));
    assert_eq!(gl_spheres_size(128), Some(6144));
    assert_eq!(gl_spheres_size(usize::MAX / 48), Some((usize::MAX / 48) * 48));
    assert_eq!(gl_spheres_size(usize::MAX / 48 + 1), None);
    assert_eq!(gl_spheres_size(usize::MAX), None);
}

#[test]
fn vectors_compare_as_numbers() {
    assert!(vector_eq(&v(0.0, 1.0, 2.0), &v(-0.0, 1.0, 2.0)));
    assert!(!vector_eq(&v(0.0, 1.0, 2.0), &v(0.0, 1.0, 2.5)));
    assert!(!vector_eq(&v(f32::NAN, 1.0, 2.0), &v(f32::NAN, 1.0, 2.0)));
    let samples = [0.0f32, -0.0, 1.0, f32::NAN, f32::INFINITY, -2.5];
    for a in samples {
        for b in samples {
            let x = [a, 1.0, b];
            let y = [b, 1.0, a];
            let expected = x == y;
            assert_eq!(vector_eq(&v(x[0], x[1], x[2]), &v(y[0], y[1], y[2])), expected);
        }
    }
}

#[test]
fn spheres_compare_as_numbers() {
    let a = Sphere::new(v(0.0, 1.0, 2.0), v(0.1, 0.2, 0.3), 0.7f32.to_bits());
    let b = Sphere::new(v(-0.0, 1.0, 2.0), v(0.1, 0.2, 0.3), 0.7f32.to_bits());
    let c = Sphere::new(v(0.0, 1.0, 2.0), v(0.1, 0.2, 0.3), 0.8f32.to_bits());
    let d = Sphere::new(v(0.0, 1.0, 2.0), v(0.1, 0.2, 0.3), f32::NAN.to_bits());
    let e = Sphere::new(v(0.0, 1.0, 2.0), v(0.1, 0.25, 0.3), 0.7f32.to_bits());
    assert!(a.same_as(&a));
    assert!(a.same_as(&b));
    assert!(b.same_as(&a));
    assert!(!a.same_as(&c));
    assert!(!a.same_as(&e));
    assert!(!d.same_as(&d));
    assert_ne!(a, b);
}
