use plotpy::scalar::Scalar;
use plotpy::surface_geometry::{draw_hemisphere, draw_plane_nzz, draw_sphere, draw_superquadric};

/// The scalar used by the tests: a plain wrapper around a double-precision
/// float. The signed-power helpers preserve the sign under fractional
/// exponents, with the sign of zero taken as zero.
#[derive(Clone, Copy, Debug, PartialEq)]
struct R(f64);

fn sign(x: f64) -> f64 {
    if x < 0.0 {
        -1.0
    } else if x > 0.0 {
        1.0
    } else {
        0.0
    }
}

impl Scalar for R {
    fn plus(self, other: Self) -> Self {
        R(self.0 + other.0)
    }
    fn minus(self, other: Self) -> Self {
        R(self.0 - other.0)
    }
    fn times(self, other: Self) -> Self {
        R(self.0 * other.0)
    }
    fn divided_by(self, other: Self) -> Self {
        R(self.0 / other.0)
    }
    fn negated(self) -> Self {
        R(-self.0)
    }
    fn cos(self) -> Self {
        R(f64::cos(self.0))
    }
    fn sin(self) -> Self {
        R(f64::sin(self.0))
    }
    fn suq_cos(self, exponent: Self) -> Self {
        let c = f64::cos(self.0);
        R(sign(c) * f64::powf(f64::abs(c), exponent.0))
    }
    fn suq_sin(self, exponent: Self) -> Self {
        let s = f64::sin(self.0);
        R(sign(s) * f64::powf(f64::abs(s), exponent.0))
    }
    fn degrees_to_radians(self) -> Self {
        R(self.0 * std::f64::consts::PI / 180.0)
    }
    fn half_pi() -> Self {
        R(std::f64::consts::PI / 2.0)
    }
    fn from_i32(value: i32) -> Self {
        R(value as f64)
    }
    fn from_usize(value: usize) -> Self {
        R(value as f64)
    }
    fn is_negative(self) -> bool {
        self.0 < 0.0
    }
    fn is_near_zero(self) -> bool {
        f64::abs(self.0) < 1e-10
    }
}

fn vr(values: &[f64]) -> Vec<R> {
    values.iter().map(|x| R(*x)).collect()
}

fn shape_of(grid: &Vec<Vec<R>>) -> (usize, usize) {
    let rows = grid.len();
    let cols = if rows > 0 { grid[0].len() } else { 0 };
    for row in grid.iter() {
        assert_eq!(row.len(), cols);
    }
    (rows, cols)
}

#[test]
fn grids_have_expected_shape() {
    let (x, y, z) = draw_plane_nzz(
        &vr(&[0.0, 0.0, 0.0]),
        &vr(&[0.0, 0.0, 1.0]),
        R(-1.0),
        R(1.0),
        R(-1.0),
        R(1.0),
        3,
        2,
    )
    .unwrap();
    assert_eq!(shape_of(&x), (4, 3));
    assert_eq!(shape_of(&y), (4, 3));
    assert_eq!(shape_of(&z), (4, 3));

    let (x, y, z) = draw_hemisphere(
        &vr(&[0.0, 0.0, 0.0]),
        R(1.0),
        R(-180.0),
        R(180.0),
        5,
        4,
        false,
    )
    .unwrap();
    assert_eq!(shape_of(&x), (6, 5));
    assert_eq!(shape_of(&y), (6, 5));
    assert_eq!(shape_of(&z), (6, 5));

    let (x, y, z) = draw_superquadric(
        &vr(&[0.0, 0.0, 0.0]),
        &vr(&[1.0, 1.0, 1.0]),
        &vr(&[2.0, 2.0, 2.0]),
        R(-180.0),
        R(180.0),
        R(-90.0),
        R(90.0),
        7,
        6,
    )
    .unwrap();
    assert_eq!(shape_of(&x), (8, 7));
    assert_eq!(shape_of(&y), (8, 7));
    assert_eq!(shape_of(&z), (8, 7));

    let (x, y, z) = draw_sphere(&vr(&[0.0, 0.0, 0.0]), R(1.0), 4, 2).unwrap();
    assert_eq!(shape_of(&x), (5, 3));
    assert_eq!(shape_of(&y), (5, 3));
    assert_eq!(shape_of(&z), (5, 3));
}

#[test]
fn plane_points_satisfy_plane_equation() {
    let p = [0.5, 1.0, 2.0];
    let n = [1.0, 2.0, 3.0];
    let (x, y, z) = draw_plane_nzz(&vr(&p), &vr(&n), R(-1.0), R(2.0), R(-3.0), R(1.0), 4, 3)
        .unwrap();
    for i in 0..x.len() {
        for j in 0..x[i].len() {
            let dot = n[0] * (x[i][j].0 - p[0]) + n[1] * (y[i][j].0 - p[1])
                + n[2] * (z[i][j].0 - p[2]);
            assert!(dot.abs() <= 1e-9, "point off plane: {}", dot);
        }
    }
}

#[test]
fn plane_unit_square_grid() {
    let (x, y, z) = draw_plane_nzz(
        &vr(&[0.0, 0.0, 0.0]),
        &vr(&[0.0, 0.0, 1.0]),
        R(-1.0),
        R(1.0),
        R(-1.0),
        R(1.0),
        1,
        1,
    )
    .unwrap();
    assert_eq!(shape_of(&x), (2, 2));
    let mut corners = Vec::new();
    for i in 0..2 {
        for j in 0..2 {
            assert_eq!(z[i][j].0, 0.0);
            corners.push((x[i][j].0, y[i][j].0));
        }
    }
    corners.sort_by(|a, b| a.partial_cmp(b).unwrap());
    assert_eq!(corners, vec![(-1.0, -1.0), (-1.0, 1.0), (1.0, -1.0), (1.0, 1.0)]);
}

#[test]
fn sphere_points_lie_on_sphere() {
    let c = [1.0, -2.0, 0.5];
    let r = 2.5;
    let (x, y, z) = draw_sphere(&vr(&c), R(r), 7, 5).unwrap();
    for i in 0..x.len() {
        for j in 0..x[i].len() {
            let dx = x[i][j].0 - c[0];
            let dy = y[i][j].0 - c[1];
            let dz = z[i][j].0 - c[2];
            let dist = (dx * dx + dy * dy + dz * dz).sqrt();
            assert!((dist - r).abs() <= 1e-9, "off sphere: {}", dist);
        }
    }
}

#[test]
fn sphere_unit_points() {
    let (x, y, z) = draw_sphere(&vr(&[0.0, 0.0, 0.0]), R(1.0), 4, 2).unwrap();
    let mut count = 0;
    for i in 0..x.len() {
        for j in 0..x[i].len() {
            let s = x[i][j].0 * x[i][j].0 + y[i][j].0 * y[i][j].0 + z[i][j].0 * z[i][j].0;
            assert!((s - 1.0).abs() <= 1e-9, "not on unit sphere: {}", s);
            count += 1;
        }
    }
    assert_eq!(count, 15);
}

#[test]
fn hemisphere_z_respects_cup_flag() {
    let c = [0.3, 0.4, 1.5];
    let (_, _, z) = draw_hemisphere(&vr(&c), R(2.0), R(-180.0), R(180.0), 6, 4, false).unwrap();
    for row in z.iter() {
        for v in row.iter() {
            assert!(v.0 >= c[2] - 1e-12, "dome dips below center: {}", v.0);
        }
    }
    let (_, _, z) = draw_hemisphere(&vr(&c), R(2.0), R(-180.0), R(180.0), 6, 4, true).unwrap();
    for row in z.iter() {
        for v in row.iter() {
            assert!(v.0 <= c[2] + 1e-12, "cup rises above center: {}", v.0);
        }
    }
}

#[test]
fn superquadric_matches_sphere_and_hemisphere() {
    let c = [1.0, 2.0, 3.0];
    let r = 2.0;
    let n_alpha = 8;
    let n_theta = 3;
    let (sx, sy, sz) = draw_superquadric(
        &vr(&c),
        &vr(&[r, r, r]),
        &vr(&[2.0, 2.0, 2.0]),
        R(-180.0),
        R(180.0),
        R(0.0),
        R(90.0),
        n_alpha,
        n_theta,
    )
    .unwrap();
    // The upper half of a full sphere sampled with twice the polar divisions.
    let (fx, fy, fz) = draw_sphere(&vr(&c), R(r), n_alpha, 2 * n_theta).unwrap();
    for i in 0..=n_alpha {
        for j in 0..=n_theta {
            assert!((sx[i][j].0 - fx[i][n_theta + j].0).abs() <= 1e-12);
            assert!((sy[i][j].0 - fy[i][n_theta + j].0).abs() <= 1e-12);
            assert!((sz[i][j].0 - fz[i][n_theta + j].0).abs() <= 1e-12);
        }
    }
    // The hemisphere walks the polar angle from the pole down, so its
    // column order is reversed relative to the latitude walk above.
    let (hx, hy, hz) = draw_hemisphere(&vr(&c), R(r), R(-180.0), R(180.0), n_alpha, n_theta, false)
        .unwrap();
    for i in 0..=n_alpha {
        for j in 0..=n_theta {
            assert!((sx[i][j].0 - hx[i][n_theta - j].0).abs() <= 1e-12);
            assert!((sy[i][j].0 - hy[i][n_theta - j].0).abs() <= 1e-12);
            assert!((sz[i][j].0 - hz[i][n_theta - j].0).abs() <= 1e-12);
        }
    }
}

#[test]
fn plane_rejects_bad_vector_lengths() {
    let res = draw_plane_nzz(
        &vr(&[0.0, 0.0]),
        &vr(&[0.0, 0.0, 1.0]),
        R(-1.0),
        R(1.0),
        R(-1.0),
        R(1.0),
        1,
        1,
    );
    assert_eq!(res.unwrap_err(), "p.len() and n.len() must be equal to 3");
    let res = draw_plane_nzz(
        &vr(&[0.0, 0.0, 0.0]),
        &vr(&[0.0, 1.0, 0.0, 0.0]),
        R(-1.0),
        R(1.0),
        R(-1.0),
        R(1.0),
        1,
        1,
    );
    assert_eq!(res.unwrap_err(), "p.len() and n.len() must be equal to 3");
}

#[test]
fn plane_rejects_vertical_normal() {
    let res = draw_plane_nzz(
        &vr(&[0.0, 0.0, 0.0]),
        &vr(&[1.0, 1.0, 0.0]),
        R(-1.0),
        R(1.0),
        R(-1.0),
        R(1.0),
        1,
        1,
    );
    assert_eq!(res.unwrap_err(), "the z-component of the normal vector cannot be zero");
}

#[test]
fn plane_rejects_zero_divisions() {
    let res = draw_plane_nzz(
        &vr(&[0.0, 0.0, 0.0]),
        &vr(&[0.0, 0.0, 1.0]),
        R(-1.0),
        R(1.0),
        R(-1.0),
        R(1.0),
        0,
        1,
    );
    assert_eq!(res.unwrap_err(), "nx and ny must be greater than or equal to 2");
}

#[test]
fn hemisphere_rejects_bad_inputs() {
    let res = draw_hemisphere(&vr(&[0.0, 0.0, 0.0, 0.0]), R(1.0), R(0.0), R(90.0), 2, 2, false);
    assert_eq!(res.unwrap_err(), "c.len() must be equal to 3");
    let res = draw_hemisphere(&vr(&[0.0, 0.0, 0.0]), R(1.0), R(0.0), R(90.0), 0, 2, false);
    assert_eq!(res.unwrap_err(), "n_alpha and n_theta must be greater than or equal to 1");
}

#[test]
fn superquadric_rejects_bad_inputs() {
    let res = draw_superquadric(
        &vr(&[0.0, 0.0, 0.0]),
        &vr(&[1.0]),
        &vr(&[2.0, 2.0, 2.0]),
        R(-180.0),
        R(180.0),
        R(-90.0),
        R(90.0),
        2,
        2,
    );
    assert_eq!(res.unwrap_err(), "c.len(), r.len(), and k.len() must be equal to 3");
    let res = draw_superquadric(
        &vr(&[0.0, 0.0, 0.0]),
        &vr(&[1.0, 1.0, 1.0]),
        &vr(&[2.0, 2.0, 2.0]),
        R(-180.0),
        R(180.0),
        R(-90.0),
        R(90.0),
        2,
        0,
    );
    assert_eq!(res.unwrap_err(), "n_alpha and n_theta must be greater than or equal to 1");
    let res = draw_superquadric(
        &vr(&[0.0, 0.0, 0.0]),
        &vr(&[1.0, 1.0, 1.0]),
        &vr(&[2.0, -1.0, 2.0]),
        R(-180.0),
        R(180.0),
        R(-90.0),
        R(90.0),
        2,
        2,
    );
    assert_eq!(res.unwrap_err(), "exponents k must be greater than zero");
}

#[test]
fn sphere_rejects_bad_inputs() {
    let res = draw_sphere(&vr(&[]), R(1.0), 2, 2);
    assert_eq!(res.unwrap_err(), "c.len() must be equal to 3");
    let res = draw_sphere(&vr(&[0.0, 0.0, 0.0]), R(1.0), 0, 2);
    assert_eq!(res.unwrap_err(), "n_alpha and n_theta must be greater than or equal to 1");
}
