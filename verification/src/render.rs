//! Dual-renderer orchestration.
//!
//! Each frame is drawn twice: a GPU pass rotates the pre-baked globe
//! wireframe in its vertex transform, and a 2D pass redraws the globe
//! outline and one marker disc per peer.  Both passes must consume the
//! same rotation snapshot; `render_frame` enforces that by taking one
//! `(pitch, yaw)` pair and deriving the GPU uniform and every marker
//! position from it, updating each peer's cached projection in place.

use vstd::prelude::*;
use vstd::pervasive::VecAdditionalExecFns;
use crate::fixed::SCALE;
use crate::fixed::FIXED_MAX;
use crate::fixed::floor_div;
use crate::fixed::lemma_floor_div_bound;
use crate::fixed::lemma_mul_bound;
use crate::peer::Peer;
use crate::peer::peer_wf;
use crate::peer::reproject;
use crate::peer::pixel_x_spec;
use crate::peer::pixel_y_spec;
use crate::controller::ORIGIN_PX;
use crate::controller::RADIUS_PX;

verus! {

/// Fixed-point depth threshold (0.5): fragments deeper than this lie
/// on the far hemisphere and are recolored by the fragment stage.
pub const DEPTH_THRESHOLD_FP: i64 = 16384;

/// Number of 2D vertices in a line-mesh asset of `byte_len` bytes:
/// each vertex is two 4-byte floats.
pub fn vertex_count(byte_len: u64) -> (n: u64)
    ensures
        n == byte_len / 8,
{
    byte_len / 8
}

/// Whether a fragment at fixed-point depth `z` lies on the far
/// hemisphere and gets the far-side color.
pub fn is_far_side(z: i64) -> (far: bool)
    ensures
        far == (z > DEPTH_THRESHOLD_FP),
{
    z > DEPTH_THRESHOLD_FP
}

/// One frame's draw data: the rotation snapshot handed to the GPU pass
/// as its `angle` uniform, and the pixel position of each peer marker
/// for the 2D pass — all derived from the same `(pitch, yaw)`.
pub struct Frame {
    /// Pitch handed to the GPU pass, first half of the `angle` uniform.
    pub pitch: i64,
    /// Yaw handed to the GPU pass, second half of the `angle` uniform.
    pub yaw: i64,
    /// Pixel position of each peer's marker disc, in peer-list order.
    pub dots: Vec<(i64, i64)>,
}

/// Build one frame from a single rotation snapshot.  Every peer's
/// cached projection is recomputed in place from its fixed source
/// angles under exactly this `(pitch, yaw)`, and the marker pixels are
/// the pixel mapping of those fresh projections; the same pair is
/// recorded for the GPU pass, so the two surfaces cannot drift apart.
pub fn render_frame(peers: &mut Vec<Peer>, pitch: i64, yaw: i64) -> (f: Frame)
    requires
        forall|i: int| 0 <= i < old(peers)@.len() ==> peer_wf(#[trigger] old(peers)@[i]@),
        -FIXED_MAX <= pitch <= FIXED_MAX,
        -FIXED_MAX <= yaw <= FIXED_MAX,
    ensures
        f.pitch == pitch,
        f.yaw == yaw,
        final(peers)@.len() == old(peers)@.len(),
        forall|i: int|
            0 <= i < old(peers)@.len() ==> #[trigger] final(peers)@[i]@ == reproject(
                old(peers)@[i]@,
                pitch as int,
                yaw as int,
            ),
        forall|i: int| 0 <= i < old(peers)@.len() ==> peer_wf(#[trigger] final(peers)@[i]@),
        f.dots@.len() == old(peers)@.len(),
        forall|i: int|
            0 <= i < old(peers)@.len() ==> #[trigger] f.dots@[i].0 == pixel_x_spec(
                final(peers)@[i]@.x,
                ORIGIN_PX as int,
                RADIUS_PX as int,
            ) && f.dots@[i].1 == pixel_y_spec(
                final(peers)@[i]@.y,
                ORIGIN_PX as int,
                RADIUS_PX as int,
            ),
{
    let mut dots: Vec<(i64, i64)> = Vec::new();
    let mut i: usize = 0;
    while i < peers.len()
        invariant
            0 <= i <= peers@.len(),
            peers@.len() == old(peers)@.len(),
            dots@.len() == i,
            -FIXED_MAX <= pitch <= FIXED_MAX,
            -FIXED_MAX <= yaw <= FIXED_MAX,
            forall|j: int| 0 <= j < old(peers)@.len() ==> peer_wf(#[trigger] old(peers)@[j]@),
            forall|j: int| i <= j < peers@.len() ==> #[trigger] peers@[j] == old(peers)@[j],
            forall|j: int|
                0 <= j < i ==> #[trigger] peers@[j]@ == reproject(
                    old(peers)@[j]@,
                    pitch as int,
                    yaw as int,
                ),
            forall|j: int| 0 <= j < i ==> peer_wf(#[trigger] peers@[j]@),
            forall|j: int|
                0 <= j < i ==> #[trigger] dots@[j].0 == pixel_x_spec(
                    peers@[j]@.x,
                    ORIGIN_PX as int,
                    RADIUS_PX as int,
                ) && dots@[j].1 == pixel_y_spec(
                    peers@[j]@.y,
                    ORIGIN_PX as int,
                    RADIUS_PX as int,
                ),
        decreases peers@.len() - i,
    {
        let mut p = peers[i];
        p.rotate(pitch, yaw);
        proof {
            lemma_mul_bound(p@.x, RADIUS_PX as int, 2 * SCALE as int, RADIUS_PX as int);
            lemma_mul_bound(p@.y, RADIUS_PX as int, 3 * SCALE as int, RADIUS_PX as int);
            lemma_floor_div_bound(p@.x * RADIUS_PX, SCALE as int, 720);
            lemma_floor_div_bound(p@.y * RADIUS_PX, SCALE as int, 1080);
        }
        let gx = ORIGIN_PX + floor_div(p.x() * RADIUS_PX, SCALE);
        let gy = ORIGIN_PX - floor_div(p.y() * RADIUS_PX, SCALE);
        dots.push((gx, gy));
        peers.set(i, p);
        i += 1;
    }
    Frame { pitch, yaw, dots }
}

} // verus!
