//! Peers: geographic points with a cached screen-space projection.
//!
//! A peer keeps its latitude and longitude (fixed-point radians) fixed
//! from construction on, and a mutable `(x, y)` holding the projection
//! of that point under the view's current rotation.  Every reprojection
//! recomputes `(x, y)` from the fixed source angles, never from the
//! previous `(x, y)`, so repeated rotation cannot accumulate error.

use vstd::prelude::*;
use crate::fixed::SCALE;
use crate::fixed::HALF_PI_FP;
use crate::fixed::PI_FP;
use crate::fixed::FIXED_MAX;
use crate::fixed::floor_div;
use crate::fixed::lemma_floor_div_bound;
use crate::fixed::lemma_mul_bound;
use crate::geo::HALF_TURN_UDEG;
use crate::geo::to_radians_spec;
use crate::geo::to_radians;
use crate::geo::cart_x_form;
use crate::geo::cart_y_form;
use crate::geo::cartesian;
use crate::geo::rotate;
use crate::geo::project_x_spec;
use crate::geo::project_y_spec;
use crate::trig::sin_fp_spec;
use crate::trig::cos_fp_spec;

verus! {

/// Mathematical model of a peer: angles and cached projection, as
/// unbounded integers.
pub ghost struct PeerView {
    pub lat: int,
    pub lon: int,
    pub x: int,
    pub y: int,
}

/// Well-formedness: angles within a quarter/half turn, cached
/// projection within the range the transforms can produce.
pub open spec fn peer_wf(v: PeerView) -> bool {
    &&& -HALF_PI_FP <= v.lat <= HALF_PI_FP
    &&& -PI_FP <= v.lon <= PI_FP
    &&& -2 * SCALE <= v.x <= 2 * SCALE
    &&& -3 * SCALE <= v.y <= 3 * SCALE
}

/// The cached projection holds the identity view (pitch and yaw zero)
/// of the peer's own angles, as set at construction.
pub open spec fn initially_projected(v: PeerView) -> bool {
    &&& v.x == cart_x_form(cos_fp_spec(v.lat), sin_fp_spec(v.lon)) / (SCALE as int)
    &&& v.y == cart_y_form(sin_fp_spec(v.lat)) / (SCALE as int)
}

/// Reprojection under a view `(pitch, yaw)`: the cached `(x, y)` is
/// recomputed from the fixed `(lat, lon)` alone.
pub open spec fn reproject(v: PeerView, pitch: int, yaw: int) -> PeerView {
    PeerView {
        lat: v.lat,
        lon: v.lon,
        x: project_x_spec(v.lat, v.lon, pitch, yaw),
        y: project_y_spec(v.lat, v.lon, pitch, yaw),
    }
}

/// Reprojecting twice under the same view gives exactly the same
/// result as reprojecting once: the update reads only the fixed source
/// angles, so no drift can accumulate across repeated updates.
pub proof fn lemma_reprojection_idempotent(v: PeerView, pitch: int, yaw: int)
    ensures
        reproject(reproject(v, pitch, yaw), pitch, yaw) == reproject(v, pitch, yaw),
{
}

/// Screen-pixel x of a projected coordinate: `origin + x * scale_px`.
pub open spec fn pixel_x_spec(x: int, origin: int, scale_px: int) -> int {
    origin + (x * scale_px) / (SCALE as int)
}

/// Screen-pixel y of a projected coordinate: `origin - y * scale_px`
/// (screen y grows downward while the projection's y grows upward).
pub open spec fn pixel_y_spec(y: int, origin: int, scale_px: int) -> int {
    origin - (y * scale_px) / (SCALE as int)
}

/// A pointer position hits a peer when it is within `radius` of the
/// peer's pixel position on both axes independently (Chebyshev
/// distance, matching the per-axis threshold checks of the click
/// handler).
pub open spec fn hit_spec(
    v: PeerView,
    px: int,
    py: int,
    origin: int,
    scale_px: int,
    radius: int,
) -> bool {
    let gx = pixel_x_spec(v.x, origin, scale_px);
    let gy = pixel_y_spec(v.y, origin, scale_px);
    &&& -radius < gx - px < radius
    &&& -radius < gy - py < radius
}

/// A geographic point with its cached screen-space projection.
#[derive(Clone, Copy)]
pub struct Peer {
    lat: i64,
    lon: i64,
    x: i64,
    y: i64,
}

impl View for Peer {
    type V = PeerView;

    closed spec fn view(&self) -> PeerView {
        PeerView { lat: self.lat as int, lon: self.lon as int, x: self.x as int, y: self.y as int }
    }
}

impl Peer {
    /// Build a peer from latitude and longitude in micro-degrees,
    /// caching the identity-view projection.
    pub fn new(lat_udeg: i64, lon_udeg: i64) -> (p: Peer)
        requires
            -90_000_000 <= lat_udeg <= 90_000_000,
            -HALF_TURN_UDEG <= lon_udeg <= HALF_TURN_UDEG,
        ensures
            peer_wf(p@),
            initially_projected(p@),
            p@.lat == to_radians_spec(lat_udeg as int),
            p@.lon == to_radians_spec(lon_udeg as int),
    {
        proof {
            lemma_floor_div_bound(
                lat_udeg as int * PI_FP,
                HALF_TURN_UDEG as int,
                HALF_PI_FP as int,
            );
        }
        let lat = to_radians(lat_udeg);
        let lon = to_radians(lon_udeg);
        let c = cartesian(lat, lon);
        proof {
            lemma_floor_div_bound(c.0 as int, SCALE as int, SCALE as int);
            lemma_floor_div_bound(c.1 as int, SCALE as int, SCALE as int);
        }
        let x = floor_div(c.0, SCALE);
        let y = floor_div(c.1, SCALE);
        Peer { lat, lon, x, y }
    }

    /// Fixed latitude in fixed-point radians.
    pub fn lat(&self) -> (r: i64)
        ensures
            r == self@.lat,
    {
        self.lat
    }

    /// Fixed longitude in fixed-point radians.
    pub fn lon(&self) -> (r: i64)
        ensures
            r == self@.lon,
    {
        self.lon
    }

    /// Cached projected screen x, at scale `SCALE`.
    pub fn x(&self) -> (r: i64)
        ensures
            r == self@.x,
    {
        self.x
    }

    /// Cached projected screen y, at scale `SCALE`.
    pub fn y(&self) -> (r: i64)
        ensures
            r == self@.y,
    {
        self.y
    }

    /// Recompute the cached projection for the view `(pitch, yaw)`,
    /// always from the fixed source angles.
    pub fn rotate(&mut self, pitch: i64, yaw: i64)
        requires
            peer_wf(old(self)@),
            -FIXED_MAX <= pitch <= FIXED_MAX,
            -FIXED_MAX <= yaw <= FIXED_MAX,
        ensures
            final(self)@ == reproject(old(self)@, pitch as int, yaw as int),
            peer_wf(final(self)@),
    {
        let c = cartesian(self.lat, self.lon);
        let q = rotate(c, pitch, yaw);
        self.x = q.0;
        self.y = q.1;
        proof {
            assert(self@ == reproject(old(self)@, pitch as int, yaw as int));
        }
    }

    /// Whether a pointer at `(px, py)` hits this peer's marker, drawn
    /// at `origin + (x, -y) * scale_px`, within `radius` pixels on each
    /// axis.
    pub fn hit_test(&self, px: i64, py: i64, origin: i64, scale_px: i64, radius: i64) -> (hit:
        bool)
        requires
            peer_wf(self@),
            0 <= origin <= 1_000_000,
            1 <= scale_px <= 100_000,
            0 <= radius <= 1_000_000,
            -1_000_000_000 <= px <= 1_000_000_000,
            -1_000_000_000 <= py <= 1_000_000_000,
        ensures
            hit == hit_spec(
                self@,
                px as int,
                py as int,
                origin as int,
                scale_px as int,
                radius as int,
            ),
    {
        proof {
            lemma_mul_bound(self.x as int, scale_px as int, 2 * SCALE as int, 100_000);
            lemma_mul_bound(self.y as int, scale_px as int, 3 * SCALE as int, 100_000);
            lemma_floor_div_bound(self.x as int * scale_px as int, SCALE as int, 200_000);
            lemma_floor_div_bound(self.y as int * scale_px as int, SCALE as int, 300_000);
        }
        let gx = origin + floor_div(self.x * scale_px, SCALE);
        let gy = origin - floor_div(self.y * scale_px, SCALE);
        let dx = gx - px;
        let dy = gy - py;
        -radius < dx && dx < radius && -radius < dy && dy < radius
    }
}

/// The fixed session list of peers.
pub fn demo_peers() -> (ps: Vec<Peer>)
    ensures
        ps@.len() == 4,
        forall|i: int| 0 <= i < 4 ==> peer_wf(#[trigger] ps@[i]@),
        forall|i: int| 0 <= i < 4 ==> initially_projected(#[trigger] ps@[i]@),
        ps@[0]@.lat == to_radians_spec(59_334_591) && ps@[0]@.lon == to_radians_spec(18_063_240),
        ps@[1]@.lat == to_radians_spec(51_509_865) && ps@[1]@.lon == to_radians_spec(-118_092),
        ps@[2]@.lat == to_radians_spec(40_730_610) && ps@[2]@.lon == to_radians_spec(-73_935_252),
        ps@[3]@.lat == to_radians_spec(-19_002_846) && ps@[3]@.lon == to_radians_spec(46_460_938),
{
    let mut ps: Vec<Peer> = Vec::new();
    ps.push(Peer::new(59_334_591, 18_063_240)); // Stockholm
    ps.push(Peer::new(51_509_865, -118_092)); // London
    ps.push(Peer::new(40_730_610, -73_935_252)); // New York
    ps.push(Peer::new(-19_002_846, 46_460_938)); // Madagascar
    ps
}

} // verus!
