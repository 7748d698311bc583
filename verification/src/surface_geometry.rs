//! Parametric surface generators: plane, hemisphere, superquadric, sphere.
//!
//! Each generator validates its inputs first and never returns a partial
//! mesh: either every grid is produced with the promised shape, or an
//! error message describes the invalid input. The numerical evaluation is
//! delegated to the [`Scalar`] operations supplied by the caller, so the
//! contracts here pin down the validation outcomes and the shape of the
//! returned grids for every scalar implementation.

use crate::scalar::Scalar;
use crate::StrError;
use vstd::prelude::*;
use vstd::string::StringExecFns;

verus! {

/// Whether `g` is a grid with `n_rows` rows of `n_cols` entries each.
pub open spec fn grid_shape<T>(g: Seq<Vec<T>>, n_rows: nat, n_cols: nat) -> bool {
    &&& g.len() == n_rows
    &&& forall|i: int| 0 <= i < g.len() ==> (#[trigger] g[i])@.len() == n_cols
}

/// Whether every row of `g` repeats its first entry.
pub open spec fn rows_constant<T>(g: Seq<Vec<T>>) -> bool {
    forall|i: int, j: int|
        0 <= i < g.len() && 0 <= j < g[i]@.len() ==> (#[trigger] g[i]@[j]) == g[i]@[0]
}

proof fn lemma_msgs_distinct()
    ensures
        "c.len(), r.len(), and k.len() must be equal to 3"@
            != "n_alpha and n_theta must be greater than or equal to 1"@,
        "c.len(), r.len(), and k.len() must be equal to 3"@
            != "exponents k must be greater than zero"@,
        "n_alpha and n_theta must be greater than or equal to 1"@
            != "exponents k must be greater than zero"@,
        "c.len() must be equal to 3"@
            != "n_alpha and n_theta must be greater than or equal to 1"@,
        "p.len() and n.len() must be equal to 3"@
            != "the z-component of the normal vector cannot be zero"@,
        "p.len() and n.len() must be equal to 3"@
            != "nx and ny must be greater than or equal to 2"@,
        "the z-component of the normal vector cannot be zero"@
            != "nx and ny must be greater than or equal to 2"@,
{
    reveal_strlit("c.len(), r.len(), and k.len() must be equal to 3");
    reveal_strlit("n_alpha and n_theta must be greater than or equal to 1");
    reveal_strlit("exponents k must be greater than zero");
    reveal_strlit("c.len() must be equal to 3");
    reveal_strlit("p.len() and n.len() must be equal to 3");
    reveal_strlit("the z-component of the normal vector cannot be zero");
    reveal_strlit("nx and ny must be greater than or equal to 2");
    assert("c.len(), r.len(), and k.len() must be equal to 3"@[0] == 'c');
    assert("n_alpha and n_theta must be greater than or equal to 1"@[0] == 'n');
    assert("exponents k must be greater than zero"@[0] == 'e');
    assert("c.len() must be equal to 3"@[0] == 'c');
    assert("p.len() and n.len() must be equal to 3"@[0] == 'p');
    assert("the z-component of the normal vector cannot be zero"@[0] == 't');
    assert("nx and ny must be greater than or equal to 2"@[0] == 'n');
}

/// Samples the superquadric parametrization over the full angle grid.
/// The validation belongs to the callers; this routine always produces
/// the three grids, `n_alpha + 1` rows of `n_theta + 1` entries each.
fn superquadric_mesh<T: Scalar>(
    c: &Vec<T>,
    r: &Vec<T>,
    k: &Vec<T>,
    alpha_min: T,
    alpha_max: T,
    theta_min: T,
    theta_max: T,
    n_alpha: usize,
    n_theta: usize,
) -> (m: (Vec<Vec<T>>, Vec<Vec<T>>, Vec<Vec<T>>))
    requires
        c@.len() == 3,
        r@.len() == 3,
        k@.len() == 3,
        1 <= n_alpha < usize::MAX,
        1 <= n_theta < usize::MAX,
    ensures
        grid_shape(m.0@, (n_alpha + 1) as nat, (n_theta + 1) as nat),
        grid_shape(m.1@, (n_alpha + 1) as nat, (n_theta + 1) as nat),
        grid_shape(m.2@, (n_alpha + 1) as nat, (n_theta + 1) as nat),
{
    let two = T::from_i32(2);
    let aa = two.divided_by(k[0]);
    let bb = two.divided_by(k[1]);
    let cc = two.divided_by(k[2]);
    let a_min = alpha_min.degrees_to_radians();
    let a_max = alpha_max.degrees_to_radians();
    let t_min = theta_min.degrees_to_radians();
    let t_max = theta_max.degrees_to_radians();
    let d_alpha = a_max.minus(a_min).divided_by(T::from_usize(n_alpha));
    let d_theta = t_max.minus(t_min).divided_by(T::from_usize(n_theta));
    let mut xx: Vec<Vec<T>> = Vec::new();
    let mut yy: Vec<Vec<T>> = Vec::new();
    let mut zz: Vec<Vec<T>> = Vec::new();
    let mut i: usize = 0;
    while i <= n_alpha
        invariant
            n_alpha < usize::MAX,
            n_theta < usize::MAX,
            c@.len() == 3,
            r@.len() == 3,
            i <= n_alpha + 1,
            xx@.len() == i,
            yy@.len() == i,
            zz@.len() == i,
            forall|p: int| 0 <= p < i ==> (#[trigger] xx@[p])@.len() == n_theta + 1,
            forall|p: int| 0 <= p < i ==> (#[trigger] yy@[p])@.len() == n_theta + 1,
            forall|p: int| 0 <= p < i ==> (#[trigger] zz@[p])@.len() == n_theta + 1,
        decreases n_alpha + 1 - i,
    {
        let alpha = a_min.plus(T::from_usize(i).times(d_alpha));
        let mut row_x: Vec<T> = Vec::new();
        let mut row_y: Vec<T> = Vec::new();
        let mut row_z: Vec<T> = Vec::new();
        let mut j: usize = 0;
        while j <= n_theta
            invariant
                n_theta < usize::MAX,
                c@.len() == 3,
                r@.len() == 3,
                j <= n_theta + 1,
                row_x@.len() == j,
                row_y@.len() == j,
                row_z@.len() == j,
            decreases n_theta + 1 - j,
        {
            let theta = t_min.plus(T::from_usize(j).times(d_theta));
            row_x.push(c[0].plus(r[0].times(theta.suq_cos(aa)).times(alpha.suq_cos(aa))));
            row_y.push(c[1].plus(r[1].times(theta.suq_cos(bb)).times(alpha.suq_sin(bb))));
            row_z.push(c[2].plus(r[2].times(theta.suq_sin(cc))));
            j += 1;
        }
        xx.push(row_x);
        yy.push(row_y);
        zz.push(row_z);
        i += 1;
    }
    (xx, yy, zz)
}

/// Generates the mesh of a superquadric surface (a family including the
/// sphere, super-ellipsoid, and super-hyperboloid).
///
/// * `c` -- (len=3) center coordinates
/// * `r` -- (len=3) radii
/// * `k` -- (len=3) exponents, each at least zero
/// * `alpha_min`, `alpha_max` -- azimuth range in degrees
/// * `theta_min`, `theta_max` -- latitude range in degrees
/// * `n_alpha`, `n_theta` -- number of divisions along each angle
///
/// On success the three grids hold the x, y, and z coordinates of all
/// sampled points, each grid with `n_alpha + 1` rows of `n_theta + 1`
/// entries. Whether an exponent counts as negative is decided by the
/// scalar implementation, so success is promised only up to that test.
pub fn draw_superquadric<T: Scalar>(
    c: &Vec<T>,
    r: &Vec<T>,
    k: &Vec<T>,
    alpha_min: T,
    alpha_max: T,
    theta_min: T,
    theta_max: T,
    n_alpha: usize,
    n_theta: usize,
) -> (res: Result<(Vec<Vec<T>>, Vec<Vec<T>>, Vec<Vec<T>>), StrError>)
    requires
        n_alpha < usize::MAX,
        n_theta < usize::MAX,
    ensures
        (c@.len() != 3 || r@.len() != 3 || k@.len() != 3) ==> (res matches Err(e) && e@
            == "c.len(), r.len(), and k.len() must be equal to 3"@),
        (res matches Err(e) && e@ == "c.len(), r.len(), and k.len() must be equal to 3"@) ==> (
        c@.len() != 3 || r@.len() != 3 || k@.len() != 3),
        (c@.len() == 3 && r@.len() == 3 && k@.len() == 3 && (n_alpha < 1 || n_theta < 1)) ==> (
        res matches Err(e) && e@ == "n_alpha and n_theta must be greater than or equal to 1"@),
        (res matches Err(e) && e@ == "n_alpha and n_theta must be greater than or equal to 1"@)
            ==> (c@.len() == 3 && r@.len() == 3 && k@.len() == 3 && (n_alpha < 1 || n_theta < 1)),
        res matches Err(e) ==> (e@ == "c.len(), r.len(), and k.len() must be equal to 3"@ || e@
            == "n_alpha and n_theta must be greater than or equal to 1"@ || e@
            == "exponents k must be greater than zero"@),
        (res matches Err(e) && e@ == "exponents k must be greater than zero"@) ==> (c@.len() == 3
            && r@.len() == 3 && k@.len() == 3 && n_alpha >= 1 && n_theta >= 1),
        res matches Ok(m) ==> (c@.len() == 3 && r@.len() == 3 && k@.len() == 3 && n_alpha >= 1
            && n_theta >= 1 && grid_shape(m.0@, (n_alpha + 1) as nat, (n_theta + 1) as nat)
            && grid_shape(m.1@, (n_alpha + 1) as nat, (n_theta + 1) as nat) && grid_shape(
            m.2@,
            (n_alpha + 1) as nat,
            (n_theta + 1) as nat,
        )),
{
    proof {
        lemma_msgs_distinct();
    }
    if c.len() != 3 || r.len() != 3 || k.len() != 3 {
        return Err("c.len(), r.len(), and k.len() must be equal to 3");
    }
    if n_alpha < 1 || n_theta < 1 {
        return Err("n_alpha and n_theta must be greater than or equal to 1");
    }
    if k[0].is_negative() || k[1].is_negative() || k[2].is_negative() {
        return Err("exponents k must be greater than zero");
    }
    Ok(superquadric_mesh(c, r, k, alpha_min, alpha_max, theta_min, theta_max, n_alpha, n_theta))
}

/// Generates the mesh of a sphere: the superquadric parametrization with
/// equal radii, exponents of two, and full angular ranges.
///
/// * `c` -- (len=3) center coordinates
/// * `radius` -- the radius
/// * `n_alpha`, `n_theta` -- number of divisions along each angle
///
/// The exponents are the library's own constant two, which is never
/// negative, so success is promised outright: on a 3-vector center and
/// positive division counts the result is the mesh, each grid with
/// `n_alpha + 1` rows of `n_theta + 1` entries.
pub fn draw_sphere<T: Scalar>(c: &Vec<T>, radius: T, n_alpha: usize, n_theta: usize) -> (res:
    Result<(Vec<Vec<T>>, Vec<Vec<T>>, Vec<Vec<T>>), StrError>)
    requires
        n_alpha < usize::MAX,
        n_theta < usize::MAX,
    ensures
        (c@.len() != 3) ==> (res matches Err(e) && e@ == "c.len() must be equal to 3"@),
        (res matches Err(e) && e@ == "c.len() must be equal to 3"@) ==> c@.len() != 3,
        (c@.len() == 3 && (n_alpha < 1 || n_theta < 1)) ==> (res matches Err(e) && e@
            == "n_alpha and n_theta must be greater than or equal to 1"@),
        (res matches Err(e) && e@ == "n_alpha and n_theta must be greater than or equal to 1"@)
            ==> (c@.len() == 3 && (n_alpha < 1 || n_theta < 1)),
        (c@.len() == 3 && n_alpha >= 1 && n_theta >= 1) ==> (res matches Ok(m) && grid_shape(
            m.0@,
            (n_alpha + 1) as nat,
            (n_theta + 1) as nat,
        ) && grid_shape(m.1@, (n_alpha + 1) as nat, (n_theta + 1) as nat) && grid_shape(
            m.2@,
            (n_alpha + 1) as nat,
            (n_theta + 1) as nat,
        )),
        res matches Ok(m) ==> (c@.len() == 3 && n_alpha >= 1 && n_theta >= 1),
{
    proof {
        lemma_msgs_distinct();
    }
    if c.len() != 3 {
        return Err("c.len() must be equal to 3");
    }
    if n_alpha < 1 || n_theta < 1 {
        return Err("n_alpha and n_theta must be greater than or equal to 1");
    }
    let two = T::from_i32(2);
    let mut rr: Vec<T> = Vec::new();
    rr.push(radius);
    rr.push(radius);
    rr.push(radius);
    let mut kk: Vec<T> = Vec::new();
    kk.push(two);
    kk.push(two);
    kk.push(two);
    let alpha_min = T::from_i32(-180);
    let alpha_max = T::from_i32(180);
    let theta_min = T::from_i32(-90);
    let theta_max = T::from_i32(90);
    Ok(
        superquadric_mesh(
            c,
            &rr,
            &kk,
            alpha_min,
            alpha_max,
            theta_min,
            theta_max,
            n_alpha,
            n_theta,
        ),
    )
}

/// Generates the mesh of a hemisphere.
///
/// * `c` -- (len=3) center coordinates
/// * `radius` -- the radius
/// * `alpha_min`, `alpha_max` -- azimuth range in degrees
/// * `n_alpha`, `n_theta` -- number of divisions along each angle
/// * `cup` -- upside-down; like a cup
///
/// The polar angle always spans a quarter turn from the pole, so the
/// result is a half-sphere whatever the azimuth range. On success each
/// grid has `n_alpha + 1` rows of `n_theta + 1` entries; the validation
/// outcome is pinned down exactly.
pub fn draw_hemisphere<T: Scalar>(
    c: &Vec<T>,
    radius: T,
    alpha_min: T,
    alpha_max: T,
    n_alpha: usize,
    n_theta: usize,
    cup: bool,
) -> (res: Result<(Vec<Vec<T>>, Vec<Vec<T>>, Vec<Vec<T>>), StrError>)
    requires
        n_alpha < usize::MAX,
        n_theta < usize::MAX,
    ensures
        (c@.len() != 3) ==> (res matches Err(e) && e@ == "c.len() must be equal to 3"@),
        (res matches Err(e) && e@ == "c.len() must be equal to 3"@) ==> c@.len() != 3,
        (c@.len() == 3 && (n_alpha < 1 || n_theta < 1)) ==> (res matches Err(e) && e@
            == "n_alpha and n_theta must be greater than or equal to 1"@),
        (res matches Err(e) && e@ == "n_alpha and n_theta must be greater than or equal to 1"@)
            ==> (c@.len() == 3 && (n_alpha < 1 || n_theta < 1)),
        (c@.len() == 3 && n_alpha >= 1 && n_theta >= 1) ==> (res matches Ok(m) && grid_shape(
            m.0@,
            (n_alpha + 1) as nat,
            (n_theta + 1) as nat,
        ) && grid_shape(m.1@, (n_alpha + 1) as nat, (n_theta + 1) as nat) && grid_shape(
            m.2@,
            (n_alpha + 1) as nat,
            (n_theta + 1) as nat,
        )),
        res matches Ok(m) ==> (c@.len() == 3 && n_alpha >= 1 && n_theta >= 1),
{
    proof {
        lemma_msgs_distinct();
    }
    if c.len() != 3 {
        return Err("c.len() must be equal to 3");
    }
    if n_alpha < 1 || n_theta < 1 {
        return Err("n_alpha and n_theta must be greater than or equal to 1");
    }
    let a_min = alpha_min.degrees_to_radians();
    let a_max = alpha_max.degrees_to_radians();
    let d_alpha = a_max.minus(a_min).divided_by(T::from_usize(n_alpha));
    let d_theta = T::half_pi().divided_by(T::from_usize(n_theta));
    let mut xx: Vec<Vec<T>> = Vec::new();
    let mut yy: Vec<Vec<T>> = Vec::new();
    let mut zz: Vec<Vec<T>> = Vec::new();
    let mut i: usize = 0;
    while i <= n_alpha
        invariant
            n_alpha < usize::MAX,
            n_theta < usize::MAX,
            c@.len() == 3,
            i <= n_alpha + 1,
            xx@.len() == i,
            yy@.len() == i,
            zz@.len() == i,
            forall|p: int| 0 <= p < i ==> (#[trigger] xx@[p])@.len() == n_theta + 1,
            forall|p: int| 0 <= p < i ==> (#[trigger] yy@[p])@.len() == n_theta + 1,
            forall|p: int| 0 <= p < i ==> (#[trigger] zz@[p])@.len() == n_theta + 1,
        decreases n_alpha + 1 - i,
    {
        let alpha = a_min.plus(T::from_usize(i).times(d_alpha));
        let mut row_x: Vec<T> = Vec::new();
        let mut row_y: Vec<T> = Vec::new();
        let mut row_z: Vec<T> = Vec::new();
        let mut j: usize = 0;
        while j <= n_theta
            invariant
                n_theta < usize::MAX,
                c@.len() == 3,
                j <= n_theta + 1,
                row_x@.len() == j,
                row_y@.len() == j,
                row_z@.len() == j,
            decreases n_theta + 1 - j,
        {
            let theta = T::from_usize(j).times(d_theta);
            if cup {
                row_x.push(c[0].plus(radius.times(alpha.cos()).times(theta.sin())));
                row_y.push(c[1].plus(radius.times(alpha.sin()).times(theta.sin())));
                row_z.push(c[2].minus(radius.times(theta.cos())));
            } else {
                row_x.push(c[0].plus(radius.times(alpha.cos()).times(theta.sin())));
                row_y.push(c[1].plus(radius.times(alpha.sin()).times(theta.sin())));
                row_z.push(c[2].plus(radius.times(theta.cos())));
            }
            j += 1;
        }
        xx.push(row_x);
        yy.push(row_y);
        zz.push(row_z);
        i += 1;
    }
    Ok((xx, yy, zz))
}

/// Generates the mesh of a plane that has a normal vector with a non-zero
/// z component.
///
/// * `p` -- (len=3) a point on the plane
/// * `n` -- (len=3) the normal vector; its z component must not be near zero
/// * `xmin`, `xmax` -- limits along x
/// * `ymin`, `ymax` -- limits along y
/// * `nx`, `ny` -- number of divisions along x and y
///
/// The plane equation is solved for z over a grid linearly spaced in x
/// and y. On success each grid has `nx + 1` rows of `ny + 1` entries, and
/// each row of the x grid repeats a single sampled x value. Whether the
/// normal's z component counts as near zero is decided by the scalar
/// implementation, so success is promised only up to that test.
pub fn draw_plane_nzz<T: Scalar>(
    p: &Vec<T>,
    n: &Vec<T>,
    xmin: T,
    xmax: T,
    ymin: T,
    ymax: T,
    nx: usize,
    ny: usize,
) -> (res: Result<(Vec<Vec<T>>, Vec<Vec<T>>, Vec<Vec<T>>), StrError>)
    requires
        nx < usize::MAX,
        ny < usize::MAX,
    ensures
        (p@.len() != 3 || n@.len() != 3) ==> (res matches Err(e) && e@
            == "p.len() and n.len() must be equal to 3"@),
        (res matches Err(e) && e@ == "p.len() and n.len() must be equal to 3"@) ==> (p@.len() != 3
            || n@.len() != 3),
        (res matches Err(e) && e@ == "the z-component of the normal vector cannot be zero"@) ==> (
        p@.len() == 3 && n@.len() == 3),
        (res matches Err(e) && e@ == "nx and ny must be greater than or equal to 2"@) ==> (
        p@.len() == 3 && n@.len() == 3 && (nx < 1 || ny < 1)),
        res matches Err(e) ==> (e@ == "p.len() and n.len() must be equal to 3"@ || e@
            == "the z-component of the normal vector cannot be zero"@ || e@
            == "nx and ny must be greater than or equal to 2"@),
        (p@.len() == 3 && n@.len() == 3 && nx >= 1 && ny >= 1) ==> (res is Ok || (res matches Err(
            e,
        ) && e@ == "the z-component of the normal vector cannot be zero"@)),
        res matches Ok(m) ==> (p@.len() == 3 && n@.len() == 3 && nx >= 1 && ny >= 1 && grid_shape(
            m.0@,
            (nx + 1) as nat,
            (ny + 1) as nat,
        ) && grid_shape(m.1@, (nx + 1) as nat, (ny + 1) as nat) && grid_shape(
            m.2@,
            (nx + 1) as nat,
            (ny + 1) as nat,
        ) && rows_constant(m.0@)),
{
    proof {
        lemma_msgs_distinct();
    }
    if p.len() != 3 || n.len() != 3 {
        return Err("p.len() and n.len() must be equal to 3");
    }
    if n[2].is_near_zero() {
        return Err("the z-component of the normal vector cannot be zero");
    }
    if nx < 1 || ny < 1 {
        return Err("nx and ny must be greater than or equal to 2");
    }
    let d = n[0].negated().times(p[0]).minus(n[1].times(p[1])).minus(n[2].times(p[2]));
    let dx = xmax.minus(xmin).divided_by(T::from_usize(nx));
    let dy = ymax.minus(ymin).divided_by(T::from_usize(ny));
    let mut xx: Vec<Vec<T>> = Vec::new();
    let mut yy: Vec<Vec<T>> = Vec::new();
    let mut zz: Vec<Vec<T>> = Vec::new();
    let mut i: usize = 0;
    while i <= nx
        invariant
            nx < usize::MAX,
            ny < usize::MAX,
            n@.len() == 3,
            i <= nx + 1,
            xx@.len() == i,
            yy@.len() == i,
            zz@.len() == i,
            forall|q: int| 0 <= q < i ==> (#[trigger] xx@[q])@.len() == ny + 1,
            forall|q: int| 0 <= q < i ==> (#[trigger] yy@[q])@.len() == ny + 1,
            forall|q: int| 0 <= q < i ==> (#[trigger] zz@[q])@.len() == ny + 1,
            rows_constant(xx@),
        decreases nx + 1 - i,
    {
        let x_val = xmin.plus(T::from_usize(i).times(dx));
        let mut row_x: Vec<T> = Vec::new();
        let mut row_y: Vec<T> = Vec::new();
        let mut row_z: Vec<T> = Vec::new();
        let mut j: usize = 0;
        while j <= ny
            invariant
                ny < usize::MAX,
                n@.len() == 3,
                j <= ny + 1,
                row_x@.len() == j,
                row_y@.len() == j,
                row_z@.len() == j,
                forall|s: int| 0 <= s < j ==> (#[trigger] row_x@[s]) == x_val,
            decreases ny + 1 - j,
        {
            let y_val = ymin.plus(T::from_usize(j).times(dy));
            let z_val = d.negated().minus(n[0].times(x_val)).minus(n[1].times(y_val)).divided_by(
                n[2],
            );
            row_x.push(x_val);
            row_y.push(y_val);
            row_z.push(z_val);
            j += 1;
        }
        xx.push(row_x);
        yy.push(row_y);
        zz.push(row_z);
        i += 1;
    }
    Ok((xx, yy, zz))
}

/// Builds the command that plots a mesh written to the buffer under the
/// three given array identifiers.
pub fn surface_command(sx: &str, sy: &str, sz: &str) -> (r: String)
    ensures
        r@ == "ax3d.plot_surface("@ + sx@ + ","@ + sy@ + ","@ + sz@ + ")\n"@,
{
    let mut s = String::new();
    s.append("ax3d.plot_surface(");
    s.append(sx);
    s.append(",");
    s.append(sy);
    s.append(",");
    s.append(sz);
    s.append(")\n");
    proof {
        assert(s@ =~= "ax3d.plot_surface("@ + sx@ + ","@ + sy@ + ","@ + sz@ + ")\n"@);
    }
    s
}

} // verus!
