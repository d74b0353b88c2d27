//! Geographic coordinate transforms.
//!
//! A point on the globe is given by latitude and longitude.  `cartesian`
//! lifts it onto the unit sphere (coordinates at scale `SCALE * SCALE`),
//! and `rotate` applies the current view's yaw and pitch and drops the
//! depth axis: an orthographic projection to screen space (scale
//! `SCALE`).  The z component carries the front-facing-hemisphere
//! convention `z = cos(lat) * cos(lon + pi)`, realized exactly as
//! `-(cos(lat) * cos(lon))`.
//!
//! `gpu_vertex` is the transform that the GPU pass applies to every
//! wireframe vertex (yaw rotation, then pitch rotation, on a sphere
//! point whose z axis is not flipped); the lemmas at the end prove that
//! both surfaces project every point to the same screen position.

use vstd::prelude::*;
use crate::fixed::SCALE;
use crate::fixed::PI_FP;
use crate::fixed::FIXED_MAX;
use crate::fixed::floor_div;
use crate::fixed::lemma_floor_div_bound;
use crate::fixed::lemma_scaled_div;
use crate::fixed::lemma_mul_bound;
use crate::trig::sin_fp_spec;
use crate::trig::cos_fp_spec;
use crate::trig::sin_fp;
use crate::trig::cos_fp;
use crate::trig::lemma_trig_identity_values;

verus! {

/// Micro-degrees (degrees times one million), the input unit for
/// geographic coordinates.
pub const MICRO_DEG: i64 = 1_000_000;

/// Half a turn in micro-degrees.
pub const HALF_TURN_UDEG: i64 = 180_000_000;

/// Degrees (in micro-degrees) to fixed-point radians.
pub open spec fn to_radians_spec(udeg: int) -> int {
    (udeg * PI_FP) / (HALF_TURN_UDEG as int)
}

/// x component of the unit-sphere point: `cos(lat) * sin(lon)`.
pub open spec fn cart_x_form(cl: int, slon: int) -> int {
    cl * slon
}

/// y component of the unit-sphere point: `sin(lat)`, rescaled to match.
pub open spec fn cart_y_form(sl: int) -> int {
    sl * SCALE
}

/// z component of the unit-sphere point: `cos(lat) * cos(lon + pi)`,
/// which is exactly `-(cos(lat) * cos(lon))`.
pub open spec fn cart_z_form(cl: int, clon: int) -> int {
    -(cl * clon)
}

/// z component as the GPU pass computes it: `cos(lat) * cos(lon)`,
/// without the half-turn flip of `cart_z_form`.
pub open spec fn gpu_cart_z_form(cl: int, clon: int) -> int {
    cl * clon
}

/// Screen x of the rotated point: yaw applied about the vertical axis.
pub open spec fn rot_x_form(sy: int, cy: int, x: int, z: int) -> int {
    cy * x - sy * z
}

/// Screen y of the rotated point: pitch applied after yaw.
pub open spec fn rot_y_form(sp: int, cp: int, sy: int, cy: int, x: int, y: int, z: int) -> int {
    cp * y * SCALE + sp * cy * z + sp * sy * x
}

/// Screen x as the GPU vertex transform computes it.
pub open spec fn gpu_x_form(sy: int, cy: int, x: int, z: int) -> int {
    cy * x + sy * z
}

/// Screen y as the GPU vertex transform computes it.
pub open spec fn gpu_y_form(sp: int, cp: int, sy: int, cy: int, x: int, y: int, z: int) -> int {
    cp * y * SCALE + sp * sy * x - sp * cy * z
}

/// Full projection of a latitude/longitude under a view (pitch, yaw):
/// screen x at scale `SCALE`.
pub open spec fn project_x_spec(lat: int, lon: int, pitch: int, yaw: int) -> int {
    rot_x_form(
        sin_fp_spec(yaw),
        cos_fp_spec(yaw),
        cart_x_form(cos_fp_spec(lat), sin_fp_spec(lon)),
        cart_z_form(cos_fp_spec(lat), cos_fp_spec(lon)),
    ) / (SCALE * SCALE)
}

/// Full projection of a latitude/longitude under a view (pitch, yaw):
/// screen y at scale `SCALE`.
pub open spec fn project_y_spec(lat: int, lon: int, pitch: int, yaw: int) -> int {
    rot_y_form(
        sin_fp_spec(pitch),
        cos_fp_spec(pitch),
        sin_fp_spec(yaw),
        cos_fp_spec(yaw),
        cart_x_form(cos_fp_spec(lat), sin_fp_spec(lon)),
        cart_y_form(sin_fp_spec(lat)),
        cart_z_form(cos_fp_spec(lat), cos_fp_spec(lon)),
    ) / (SCALE * SCALE * SCALE)
}

/// Degrees (in micro-degrees) to fixed-point radians, executable.
pub fn to_radians(udeg: i64) -> (r: i64)
    requires
        -HALF_TURN_UDEG <= udeg <= HALF_TURN_UDEG,
    ensures
        r == to_radians_spec(udeg as int),
        -PI_FP <= r <= PI_FP,
{
    proof {
        lemma_floor_div_bound(udeg as int * PI_FP, HALF_TURN_UDEG as int, PI_FP as int);
    }
    floor_div(udeg * PI_FP, HALF_TURN_UDEG)
}

/// Unit-sphere point of a latitude/longitude, at scale `SCALE * SCALE`.
pub fn cartesian(lat: i64, lon: i64) -> (p: (i64, i64, i64))
    requires
        -FIXED_MAX <= lat <= FIXED_MAX,
        -FIXED_MAX <= lon <= FIXED_MAX,
    ensures
        p.0 == cart_x_form(cos_fp_spec(lat as int), sin_fp_spec(lon as int)),
        p.1 == cart_y_form(sin_fp_spec(lat as int)),
        p.2 == cart_z_form(cos_fp_spec(lat as int), cos_fp_spec(lon as int)),
        -SCALE * SCALE <= p.0 <= SCALE * SCALE,
        -SCALE * SCALE <= p.1 <= SCALE * SCALE,
        -SCALE * SCALE <= p.2 <= SCALE * SCALE,
{
    let sl = sin_fp(lat);
    let cl = cos_fp(lat);
    let slon = sin_fp(lon);
    let clon = cos_fp(lon);
    proof {
        lemma_mul_bound(cl as int, slon as int, SCALE as int, SCALE as int);
        lemma_mul_bound(sl as int, SCALE as int, SCALE as int, SCALE as int);
        lemma_mul_bound(cl as int, clon as int, SCALE as int, SCALE as int);
    }
    (cl * slon, sl * SCALE, -(cl * clon))
}

/// Rotate a unit-sphere point by the view's yaw and pitch and project
/// orthographically to screen space, at scale `SCALE`.
pub fn rotate(p: (i64, i64, i64), pitch: i64, yaw: i64) -> (q: (i64, i64))
    requires
        -FIXED_MAX <= pitch <= FIXED_MAX,
        -FIXED_MAX <= yaw <= FIXED_MAX,
        -SCALE * SCALE <= p.0 <= SCALE * SCALE,
        -SCALE * SCALE <= p.1 <= SCALE * SCALE,
        -SCALE * SCALE <= p.2 <= SCALE * SCALE,
    ensures
        q.0 == rot_x_form(sin_fp_spec(yaw as int), cos_fp_spec(yaw as int), p.0 as int, p.2 as int)
            / (SCALE * SCALE),
        q.1 == rot_y_form(
            sin_fp_spec(pitch as int),
            cos_fp_spec(pitch as int),
            sin_fp_spec(yaw as int),
            cos_fp_spec(yaw as int),
            p.0 as int,
            p.1 as int,
            p.2 as int,
        ) / (SCALE * SCALE * SCALE),
        -2 * SCALE <= q.0 <= 2 * SCALE,
        -3 * SCALE <= q.1 <= 3 * SCALE,
{
    let sp = sin_fp(pitch);
    let cp = cos_fp(pitch);
    let sy = sin_fp(yaw);
    let cy = cos_fp(yaw);
    proof {
        lemma_mul_bound(cy as int, p.0 as int, SCALE as int, SCALE as int * SCALE as int);
        lemma_mul_bound(sy as int, p.2 as int, SCALE as int, SCALE as int * SCALE as int);
        lemma_mul_bound(cp as int, p.1 as int, SCALE as int, SCALE as int * SCALE as int);
        lemma_mul_bound(
            cp as int * p.1 as int,
            SCALE as int,
            SCALE as int * SCALE as int * SCALE as int,
            SCALE as int,
        );
        lemma_mul_bound(sp as int, cy as int, SCALE as int, SCALE as int);
        lemma_mul_bound(
            sp as int * cy as int,
            p.2 as int,
            SCALE as int * SCALE as int,
            SCALE as int * SCALE as int,
        );
        lemma_mul_bound(sp as int, sy as int, SCALE as int, SCALE as int);
        lemma_mul_bound(
            sp as int * sy as int,
            p.0 as int,
            SCALE as int * SCALE as int,
            SCALE as int * SCALE as int,
        );
    }
    let num_x = cy * p.0 - sy * p.2;
    let num_y = cp * p.1 * SCALE + sp * cy * p.2 + sp * sy * p.0;
    proof {
        lemma_floor_div_bound(num_x as int, SCALE as int * SCALE as int, 2 * SCALE as int);
        lemma_floor_div_bound(
            num_y as int,
            SCALE as int * SCALE as int * SCALE as int,
            3 * SCALE as int,
        );
    }
    let x2 = floor_div(num_x, SCALE * SCALE);
    let y2 = floor_div(num_y, SCALE * SCALE * SCALE);
    (x2, y2)
}

/// The transform the GPU pass applies to a wireframe vertex: the same
/// yaw-then-pitch rotation, computed on the unflipped sphere point.  It
/// provably lands on the same screen position as `cartesian` followed
/// by `rotate`.
pub fn gpu_vertex(lat: i64, lon: i64, pitch: i64, yaw: i64) -> (q: (i64, i64))
    requires
        -FIXED_MAX <= lat <= FIXED_MAX,
        -FIXED_MAX <= lon <= FIXED_MAX,
        -FIXED_MAX <= pitch <= FIXED_MAX,
        -FIXED_MAX <= yaw <= FIXED_MAX,
    ensures
        q.0 == project_x_spec(lat as int, lon as int, pitch as int, yaw as int),
        q.1 == project_y_spec(lat as int, lon as int, pitch as int, yaw as int),
{
    let sl = sin_fp(lat);
    let cl = cos_fp(lat);
    let slon = sin_fp(lon);
    let clon = cos_fp(lon);
    proof {
        lemma_mul_bound(cl as int, slon as int, SCALE as int, SCALE as int);
        lemma_mul_bound(sl as int, SCALE as int, SCALE as int, SCALE as int);
        lemma_mul_bound(cl as int, clon as int, SCALE as int, SCALE as int);
    }
    let x = cl * slon;
    let y = sl * SCALE;
    let zg = cl * clon;
    let sp = sin_fp(pitch);
    let cp = cos_fp(pitch);
    let sy = sin_fp(yaw);
    let cy = cos_fp(yaw);
    proof {
        lemma_mul_bound(cy as int, x as int, SCALE as int, SCALE as int * SCALE as int);
        lemma_mul_bound(sy as int, zg as int, SCALE as int, SCALE as int * SCALE as int);
        lemma_mul_bound(cp as int, y as int, SCALE as int, SCALE as int * SCALE as int);
        lemma_mul_bound(
            cp as int * y as int,
            SCALE as int,
            SCALE as int * SCALE as int * SCALE as int,
            SCALE as int,
        );
        lemma_mul_bound(sp as int, sy as int, SCALE as int, SCALE as int);
        lemma_mul_bound(
            sp as int * sy as int,
            x as int,
            SCALE as int * SCALE as int,
            SCALE as int * SCALE as int,
        );
        lemma_mul_bound(sp as int, cy as int, SCALE as int, SCALE as int);
        lemma_mul_bound(
            sp as int * cy as int,
            zg as int,
            SCALE as int * SCALE as int,
            SCALE as int * SCALE as int,
        );
    }
    let num_x = cy * x + sy * zg;
    let num_y = cp * y * SCALE + sp * sy * x - sp * cy * zg;
    proof {
        lemma_dual_surface_consistency(
            sp as int,
            cp as int,
            sy as int,
            cy as int,
            x as int,
            y as int,
            cart_z_form(cl as int, clon as int),
        );
        assert(zg as int == -cart_z_form(cl as int, clon as int));
        lemma_floor_div_bound(num_x as int, SCALE as int * SCALE as int, 2 * SCALE as int);
        lemma_floor_div_bound(
            num_y as int,
            SCALE as int * SCALE as int * SCALE as int,
            3 * SCALE as int,
        );
    }
    let x2 = floor_div(num_x, SCALE * SCALE);
    let y2 = floor_div(num_y, SCALE * SCALE * SCALE);
    (x2, y2)
}

/// On trigonometric pairs that lie exactly on the circle of radius
/// `SCALE`, the cartesian point lies exactly on the sphere of radius
/// `SCALE * SCALE`: the stated convention, z offset by half a turn
/// included, preserves the norm.
pub proof fn lemma_unit_sphere(sl: int, cl: int, slon: int, clon: int)
    requires
        sl * sl + cl * cl == SCALE * SCALE,
        slon * slon + clon * clon == SCALE * SCALE,
    ensures
        cart_x_form(cl, slon) * cart_x_form(cl, slon) + cart_y_form(sl) * cart_y_form(sl)
            + cart_z_form(cl, clon) * cart_z_form(cl, clon) == SCALE * SCALE * SCALE * SCALE,
{
    let x = cart_x_form(cl, slon);
    let y = cart_y_form(sl);
    let z = cart_z_form(cl, clon);
    assert(x * x == (cl * cl) * (slon * slon)) by (nonlinear_arith)
        requires
            x == cl * slon,
    ;
    assert(z * z == (cl * cl) * (clon * clon)) by (nonlinear_arith)
        requires
            z == -(cl * clon),
    ;
    assert(y * y == (sl * sl) * (SCALE * SCALE)) by (nonlinear_arith)
        requires
            y == sl * SCALE,
    ;
    assert((cl * cl) * (slon * slon) + (cl * cl) * (clon * clon) == (cl * cl) * (SCALE * SCALE))
        by (nonlinear_arith)
        requires
            slon * slon + clon * clon == SCALE * SCALE,
    ;
    assert((cl * cl) * (SCALE * SCALE) + (sl * sl) * (SCALE * SCALE)
        == (SCALE * SCALE) * (SCALE * SCALE)) by (nonlinear_arith)
        requires
            sl * sl + cl * cl == SCALE * SCALE,
    ;
    assert((SCALE * SCALE) * (SCALE * SCALE) == SCALE * SCALE * SCALE * SCALE)
        by (nonlinear_arith);
}

/// Rotating by the identity view (pitch and yaw both zero) projects a
/// sphere point to exactly the screen position that the unrotated
/// cartesian coordinates give.
pub proof fn lemma_identity_rotation(x: int, y: int, z: int)
    ensures
        rot_x_form(sin_fp_spec(0), cos_fp_spec(0), x, z) / (SCALE * SCALE) == x / (SCALE as int),
        rot_y_form(sin_fp_spec(0), cos_fp_spec(0), sin_fp_spec(0), cos_fp_spec(0), x, y, z)
            / (SCALE * SCALE * SCALE) == y / (SCALE as int),
{
    lemma_trig_identity_values();
    assert(rot_x_form(0, SCALE as int, x, z) == SCALE * x) by (nonlinear_arith);
    assert(rot_y_form(0, SCALE as int, 0, SCALE as int, x, y, z) == (SCALE * SCALE) * y)
        by (nonlinear_arith);
    lemma_scaled_div(x, SCALE as int, SCALE as int);
    lemma_scaled_div(y, SCALE as int * SCALE as int, SCALE as int);
}

/// The 2D overlay path and the GPU vertex path agree: on the same
/// source point and the same (pitch, yaw), the GPU transform applied to
/// the unflipped z gives exactly the overlay's rotation output.
pub proof fn lemma_dual_surface_consistency(
    sp: int,
    cp: int,
    sy: int,
    cy: int,
    x: int,
    y: int,
    z: int,
)
    ensures
        gpu_x_form(sy, cy, x, -z) == rot_x_form(sy, cy, x, z),
        gpu_y_form(sp, cp, sy, cy, x, y, -z) == rot_y_form(sp, cp, sy, cy, x, y, z),
{
    assert(cy * x + sy * (-z) == cy * x - sy * z) by (nonlinear_arith);
    assert(cp * y * SCALE + sp * sy * x - sp * cy * (-z)
        == cp * y * SCALE + sp * cy * z + sp * sy * x) by (nonlinear_arith);
}

} // verus!
