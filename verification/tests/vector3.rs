use crml::vector3::Vector3;
use std::f64::consts;

const EPS: f64 = 2.2204460492503131e-16;

fn v3(x: f64, y: f64, z: f64) -> Vector3 {
    Vector3::new(x.to_bits(), y.to_bits(), z.to_bits())
}

fn fb(bits: u64) -> f64 {
    f64::from_bits(bits)
}

#[test]
fn vector3_create() {
    let a = v3(1.0, 2.0, 3.0);
    let o = Vector3::origin();
    let x = Vector3::unit_x();
    let y = Vector3::unit_y();
    let z = Vector3::unit_z();

    assert_eq!(fb(a.x), 1.0);
    assert_eq!(fb(a.y), 2.0);
    assert_eq!(fb(a.z), 3.0);

    assert_eq!(fb(o.x), 0.0);
    assert_eq!(fb(o.y), 0.0);
    assert_eq!(fb(o.z), 0.0);

    assert_eq!(fb(x.x), 1.0);
    assert_eq!(fb(x.y), 0.0);
    assert_eq!(fb(x.z), 0.0);

    assert_eq!(fb(y.x), 0.0);
    assert_eq!(fb(y.y), 1.0);
    assert_eq!(fb(y.z), 0.0);

    assert_eq!(fb(z.x), 0.0);
    assert_eq!(fb(z.y), 0.0);
    assert_eq!(fb(z.z), 1.0);
}

#[test]
fn vector3_eq() {
    let a = v3(1.0, 2.0, 3.0);
    let b = v3(1.0, 2.0, 3.0);
    let c = v3(1.0, 2.0, 4.0);

    assert_eq!(a == b, true);
    assert_eq!(a == c, false);
}

#[test]
fn vector3_add() {
    let a = v3(1.0, 2.0, 3.0);
    let b = v3(3.0, 2.0, 1.0);
    let c = v3(4.0, 4.0, 4.0);
    let d = v3(3.0, 4.0, 5.0);
    let s = 2.0f64.to_bits();

    assert_eq!(a.add(b), c);
    assert_eq!(a.add_scalar(s), d);
}

#[test]
fn vector3_sub() {
    let a = v3(1.0, 2.0, 3.0);
    let b = v3(3.0, 2.0, 1.0);
    let c = v3(-2.0, 0.0, 2.0);
    let d = v3(-1.0, 0.0, 1.0);
    let s = 2.0f64.to_bits();

    assert_eq!(a.sub(b), c);
    assert_eq!(a.sub_scalar(s), d);
}

#[test]
fn vector3_mul() {
    let a = v3(1.0, 2.0, 3.0);
    let b = v3(3.0, 2.0, 1.0);
    let c = v3(3.0, 4.0, 3.0);
    let d = v3(2.0, 4.0, 6.0);
    let s = 2.0f64.to_bits();

    assert_eq!(a.mul(b), c);
    assert_eq!(a.mul_scalar(s), d);
}

#[test]
fn vector3_div() {
    let a = v3(1.0, 2.0, 3.0);
    let b = v3(3.0, 2.0, 1.0);
    let c = v3(1.0 / 3.0, 1.0, 3.0);
    let d = v3(0.5, 1.0, 1.5);
    let s = 2.0f64.to_bits();

    assert_eq!(a.div(b), c);
    assert_eq!(a.div_scalar(s), d);
}

#[test]
fn vector3_is_origin() {
    let a = v3(1.0, 2.0, 3.0);
    let b = Vector3::origin();

    assert_eq!(a.is_origin(), false);
    assert_eq!(b.is_origin(), true);
}

#[test]
fn vector3_normalize() {
    let a = v3(1.0, 2.0, 3.0).normalize();
    let b = Vector3::origin().normalize();

    assert_eq!(fb(a.len()), 1.0);
    assert_eq!(fb(b.len()), 0.0);
}

#[test]
fn vector3_trim() {
    let a = v3(1.0, 2.0, 3.0).trim(0.5f64.to_bits());
    assert_eq!(fb(a.len()), 0.5);
}

#[test]
fn vector3_cross() {
    let a = v3(1.0, 2.0, 3.0);
    let b = v3(3.0, 2.0, 1.0);
    let c = a.cross(b);

    assert_eq!(fb(c.x), -4.0);
    assert_eq!(fb(c.y), 8.0);
    assert_eq!(fb(c.z), -4.0);
}

#[test]
fn vector3_dot() {
    let a = v3(1.0, 2.0, 3.0);
    let b = v3(3.0, 2.0, 1.0);
    assert_eq!(fb(a.dot(b)), 10.0);
}

#[test]
fn vector3_len() {
    let a = Vector3::unit_x();
    assert_eq!(fb(a.len()), 1.0);
}

#[test]
fn vector3_len2() {
    let a = Vector3::unit_x();
    assert_eq!(fb(a.len2()), 1.0);
}

#[test]
fn vector3_dist() {
    let a = Vector3::unit_x();
    assert_eq!(fb(a.dist(a)), 0.0);
}

#[test]
fn vector3_dist2() {
    let a = Vector3::unit_x();
    assert_eq!(fb(a.dist2(a)), 0.0);
}

#[test]
fn vector3_rotate() {
    let a = Vector3::unit_x().rotate(consts::PI.to_bits(), Vector3::unit_z());
    let b = Vector3::unit_x().mul_scalar((-1.0f64).to_bits());
    assert_eq!(fb(a.x), fb(b.x));
}

#[test]
fn vector3_perpendicular() {
    let a = v3(1.0, 2.0, 3.0);
    let b = v3(-2.0, 1.0, 0.0);
    assert_eq!(a.perpendicular(), b);
}

#[test]
fn vector3_lerp() {
    let a = Vector3::unit_x();
    let b = Vector3::unit_y();
    let c = v3(0.5, 0.5, 0.0);
    assert_eq!(a.lerp(b, 0.5f64.to_bits()), c);
}

#[test]
fn vector3_add_commutative() {
    let a = v3(0.1, -2.5, 1e300);
    let b = v3(0.2, 3.75, -7.0);
    assert_eq!(a.add(b), b.add(a));
}

#[test]
fn vector3_sub_self_is_origin() {
    for (x, y, z) in [(1.0, 2.0, 3.0), (-0.5, 1e300, -0.0), (1e-320, -7.25, 0.0)] {
        let a = v3(x, y, z);
        let d = a.sub(a);
        assert_eq!(d.x, 0.0f64.to_bits());
        assert_eq!(d.y, 0.0f64.to_bits());
        assert_eq!(d.z, 0.0f64.to_bits());
        assert!(d.is_origin());
    }
}

#[test]
fn vector3_normalize_unit_length() {
    for (x, y, z) in [(1.0, 2.0, 3.0), (-3.0, 4.0, 12.0), (1e-3, -1e3, 0.25)] {
        let n = v3(x, y, z).normalize();
        assert!((fb(n.len()) - 1.0).abs() <= EPS);
    }
    assert_eq!(Vector3::origin().normalize(), Vector3::origin());
}

#[test]
fn vector3_trim_within_bound() {
    let cases: [(f64, f64, f64, f64); 3] = [(1.0, 2.0, 3.0, 0.5), (0.1, 0.2, 0.3, 0.25), (5.0, -7.0, 2.0, 3.0)];
    for (x, y, z, max_len) in cases {
        let t = v3(x, y, z).trim(max_len.to_bits());
        assert!(fb(t.len()) <= max_len);
    }
}

#[test]
fn vector3_dist_symmetric() {
    let a = v3(0.1, -2.5, 7.0);
    let b = v3(3.75, 0.2, -1.5);
    assert_eq!(fb(a.dist(b)), fb(b.dist(a)));
    assert_eq!(fb(a.dist(a)), 0.0);
}

#[test]
fn vector3_cross_orthogonal() {
    let pairs = [
        (1.0, 2.0, 3.0, 3.0, 2.0, 1.0),
        (0.1, -2.5, 7.0, 3.75, 0.2, -1.5),
        (1e5, 2e-5, -3.0, 0.25, -4.0, 8.5),
    ];
    for (ax, ay, az, bx, by, bz) in pairs {
        let a = v3(ax, ay, az);
        let b = v3(bx, by, bz);
        let c = a.cross(b);
        let scale = fb(a.len()) * fb(b.len()) * fb(c.len());
        assert!(fb(c.dot(a)).abs() <= 4.0 * EPS * scale);
        assert!(fb(c.dot(b)).abs() <= 4.0 * EPS * scale);
    }
}

#[test]
fn vector3_rotate_preserves_axis() {
    let axis = v3(0.0, 0.0, 2.0);
    let a = Vector3::unit_z().rotate((consts::PI / 3.0).to_bits(), axis);
    assert_eq!(fb(a.x).abs(), 0.0);
    assert_eq!(fb(a.y).abs(), 0.0);
    assert_eq!(fb(a.z), 1.0);
}
