//! The interaction controller: rotation state plus the input state
//! machine.
//!
//! The controller is the sole owner and sole writer of the view's
//! rotation (pitch, yaw).  Pointer events drive a three-state machine:
//! `Idle`, `Dragging` (pointer held; moves accumulate rotation, with
//! pitch clamped so the camera cannot flip past the poles), and
//! `Animating` (a click on a peer starts a fixed-budget fly-to whose
//! final tick snaps exactly onto the target).  Every transition is a
//! pure function of the previous state, stated over the ghost model
//! `ControllerView` and proved equal to what the executable methods do.

use vstd::prelude::*;
use crate::fixed::SCALE;
use crate::fixed::HALF_PI_FP;
use crate::fixed::TWO_PI_FP;
use crate::fixed::floor_div;
use crate::fixed::floor_mod;
use crate::fixed::lemma_floor_div_bound;
use crate::peer::Peer;
use crate::peer::PeerView;
use crate::peer::peer_wf;
use crate::peer::hit_spec;

verus! {

/// Diameter in pixels of both canvases; also the drag divisor that
/// turns a pixel delta into an angle delta.
pub const CANVAS_PX: i64 = 720;

/// Pixel position of the globe's center on the canvas.
pub const ORIGIN_PX: i64 = 360;

/// Pixel radius of the globe's outline; also the projection scale.
pub const RADIUS_PX: i64 = 360;

/// Per-axis pixel tolerance of the click hit-test.
pub const HIT_RADIUS_PX: i64 = 10;

/// Step budget of a fly-to animation; the tick after the last step
/// snaps onto the target.
pub const FLYTO_TICKS: i64 = 50;

/// Largest pitch step a fly-to can take (half a turn divided over the
/// step budget, rounded away from zero).
pub const STEP_PITCH_MAX: i64 = 2059;

/// Largest yaw step a fly-to can take (half a turn plus a full turn,
/// divided over the step budget, rounded away from zero).
pub const STEP_YAW_MAX: i64 = 6178;

/// Mathematical model of the interaction phase.
pub ghost enum PhaseView {
    Idle,
    Dragging,
    Animating { target_pitch: int, target_yaw: int, step_pitch: int, step_yaw: int, ticks: int },
}

/// Mathematical model of the controller: the rotation state and the
/// phase of the input state machine.
pub ghost struct ControllerView {
    pub pitch: int,
    pub yaw: int,
    pub phase: PhaseView,
}

/// Well-formedness: yaw normalized into one turn; pitch within the
/// clamp range while idle or dragging, and within the reach of the
/// steps taken so far while animating; animation parameters bounded.
pub open spec fn controller_wf(c: ControllerView) -> bool {
    &&& 0 <= c.yaw < TWO_PI_FP
    &&& match c.phase {
        PhaseView::Idle => -HALF_PI_FP <= c.pitch <= HALF_PI_FP,
        PhaseView::Dragging => -HALF_PI_FP <= c.pitch <= HALF_PI_FP,
        PhaseView::Animating { target_pitch, target_yaw, step_pitch, step_yaw, ticks } => {
            &&& 0 <= ticks <= FLYTO_TICKS
            &&& -HALF_PI_FP <= target_pitch <= HALF_PI_FP
            &&& 0 <= target_yaw < TWO_PI_FP
            &&& -STEP_PITCH_MAX <= step_pitch <= STEP_PITCH_MAX
            &&& -STEP_YAW_MAX <= step_yaw <= STEP_YAW_MAX
            &&& -HALF_PI_FP - ticks * STEP_PITCH_MAX <= c.pitch
                <= HALF_PI_FP + ticks * STEP_PITCH_MAX
        },
    }
}

/// The state before any input: identity view, idle.
pub open spec fn initial_view() -> ControllerView {
    ControllerView { pitch: 0, yaw: 0, phase: PhaseView::Idle }
}

/// Pointer pressed: idle turns into dragging; any other phase ignores
/// the event.
pub open spec fn press_spec(c: ControllerView) -> ControllerView {
    if c.phase is Idle {
        ControllerView { pitch: c.pitch, yaw: c.yaw, phase: PhaseView::Dragging }
    } else {
        c
    }
}

/// Pointer released: dragging turns back into idle; any other phase
/// ignores the event.
pub open spec fn release_spec(c: ControllerView) -> ControllerView {
    if c.phase is Dragging {
        ControllerView { pitch: c.pitch, yaw: c.yaw, phase: PhaseView::Idle }
    } else {
        c
    }
}

/// Clamp to a closed interval.
pub open spec fn clamp_spec(v: int, lo: int, hi: int) -> int {
    if v < lo {
        lo
    } else if v > hi {
        hi
    } else {
        v
    }
}

/// Pointer moved by `(dx, dy)` pixels: while dragging, the deltas
/// (scaled by the canvas diameter) accumulate into yaw and pitch, the
/// pitch is clamped to one unit either way of level, and the yaw is
/// normalized into one turn.  Outside dragging the event is ignored.
pub open spec fn drag_spec(c: ControllerView, dx: int, dy: int) -> ControllerView {
    if c.phase is Dragging {
        ControllerView {
            pitch: clamp_spec(
                c.pitch + (dy * SCALE) / (CANVAS_PX as int),
                -SCALE as int,
                SCALE as int,
            ),
            yaw: (c.yaw + (dx * SCALE) / (CANVAS_PX as int)) % (TWO_PI_FP as int),
            phase: PhaseView::Dragging,
        }
    } else {
        c
    }
}

/// Start a fly-to toward a peer: aim pitch at the peer's latitude and
/// yaw at the opposite of its longitude, advancing by a fiftieth of
/// each delta per tick, starting from a zero tick count.
pub open spec fn flyto_spec(c: ControllerView, p: PeerView) -> ControllerView {
    ControllerView {
        pitch: c.pitch,
        yaw: c.yaw,
        phase: PhaseView::Animating {
            target_pitch: p.lat,
            target_yaw: (-p.lon) % (TWO_PI_FP as int),
            step_pitch: (p.lat - c.pitch) / (FLYTO_TICKS as int),
            step_yaw: (-(p.lon + c.yaw)) / (FLYTO_TICKS as int),
            ticks: 0,
        },
    }
}

/// Index of the first peer, in list order, hit by a click at
/// `(px, py)`, if any.
pub open spec fn first_hit(peers: Seq<PeerView>, px: int, py: int) -> Option<int>
    decreases peers.len(),
{
    if peers.len() == 0 {
        Option::None
    } else if hit_spec(
        peers[0],
        px,
        py,
        ORIGIN_PX as int,
        RADIUS_PX as int,
        HIT_RADIUS_PX as int,
    ) {
        Option::Some(0int)
    } else {
        match first_hit(peers.drop_first(), px, py) {
            Option::Some(j) => Option::Some(j + 1),
            Option::None => Option::None,
        }
    }
}

/// A click while idle flies to the first peer it hits, in list order;
/// a click that hits nothing, or arrives in any other phase, changes
/// nothing.
pub open spec fn click_spec(
    c: ControllerView,
    peers: Seq<PeerView>,
    px: int,
    py: int,
) -> ControllerView {
    if c.phase is Idle {
        match first_hit(peers, px, py) {
            Option::Some(i) => flyto_spec(c, peers[i]),
            Option::None => c,
        }
    } else {
        c
    }
}

/// One animation tick: while steps remain, advance by the per-tick
/// deltas (yaw normalized); once the budget is used up, snap exactly
/// onto the target and return to idle.  Outside animation a tick
/// changes nothing.
pub open spec fn tick_spec(c: ControllerView) -> ControllerView {
    match c.phase {
        PhaseView::Animating { target_pitch, target_yaw, step_pitch, step_yaw, ticks } => {
            if ticks == FLYTO_TICKS {
                ControllerView { pitch: target_pitch, yaw: target_yaw, phase: PhaseView::Idle }
            } else {
                ControllerView {
                    pitch: c.pitch + step_pitch,
                    yaw: (c.yaw + step_yaw) % (TWO_PI_FP as int),
                    phase: PhaseView::Animating {
                        target_pitch,
                        target_yaw,
                        step_pitch,
                        step_yaw,
                        ticks: ticks + 1,
                    },
                }
            }
        },
        _ => c,
    }
}

/// `n` animation ticks in sequence.
pub open spec fn tick_n_spec(c: ControllerView, n: nat) -> ControllerView
    decreases n,
{
    if n == 0 {
        c
    } else {
        tick_spec(tick_n_spec(c, (n - 1) as nat))
    }
}

/// The views of a list of peers.
pub open spec fn views_of(s: Seq<Peer>) -> Seq<PeerView> {
    s.map_values(|p: Peer| p@)
}

/// Dragging can never leave pitch outside the clamp range
/// `[-SCALE, SCALE]` (one unit either way of level), however extreme
/// the pointer delta.
pub proof fn lemma_pitch_clamped(c: ControllerView, dx: int, dy: int)
    requires
        c.phase is Dragging,
    ensures
        -SCALE <= drag_spec(c, dx, dy).pitch <= SCALE,
{
}

/// While steps remain, ticking keeps the animation's parameters and
/// counts its ticks one by one.
proof fn lemma_flyto_runs(
    pitch: int,
    yaw: int,
    tp: int,
    ty: int,
    sp: int,
    sy: int,
    k0: int,
    n: nat,
)
    requires
        0 <= k0,
        k0 + n <= FLYTO_TICKS,
    ensures
        ({
            let c = ControllerView {
                pitch,
                yaw,
                phase: PhaseView::Animating {
                    target_pitch: tp,
                    target_yaw: ty,
                    step_pitch: sp,
                    step_yaw: sy,
                    ticks: k0,
                },
            };
            tick_n_spec(c, n).phase == PhaseView::Animating {
                target_pitch: tp,
                target_yaw: ty,
                step_pitch: sp,
                step_yaw: sy,
                ticks: k0 + n,
            }
        }),
    decreases n,
{
    if n > 0 {
        lemma_flyto_runs(pitch, yaw, tp, ty, sp, sy, k0, (n - 1) as nat);
    }
}

/// A fly-to terminates: from a fresh animation (zero ticks taken),
/// exactly `FLYTO_TICKS + 1` ticks end in `Idle` with the rotation
/// state exactly equal to the target, with no residual error.
pub proof fn lemma_flyto_terminates(pitch: int, yaw: int, tp: int, ty: int, sp: int, sy: int)
    ensures
        ({
            let c = ControllerView {
                pitch,
                yaw,
                phase: PhaseView::Animating {
                    target_pitch: tp,
                    target_yaw: ty,
                    step_pitch: sp,
                    step_yaw: sy,
                    ticks: 0,
                },
            };
            let done = tick_n_spec(c, (FLYTO_TICKS + 1) as nat);
            done.phase is Idle && done.pitch == tp && done.yaw == ty
        }),
{
    lemma_flyto_runs(pitch, yaw, tp, ty, sp, sy, 0, FLYTO_TICKS as nat);
}

/// The executable interaction phase.
#[derive(Clone, Copy)]
pub enum Phase {
    Idle,
    Dragging,
    Animating { target_pitch: i64, target_yaw: i64, step_pitch: i64, step_yaw: i64, ticks: u8 },
}

/// The model of an executable phase.
pub open spec fn phase_view(p: Phase) -> PhaseView {
    match p {
        Phase::Idle => PhaseView::Idle,
        Phase::Dragging => PhaseView::Dragging,
        Phase::Animating { target_pitch, target_yaw, step_pitch, step_yaw, ticks } =>
            PhaseView::Animating {
                target_pitch: target_pitch as int,
                target_yaw: target_yaw as int,
                step_pitch: step_pitch as int,
                step_yaw: step_yaw as int,
                ticks: ticks as int,
            },
    }
}

/// The interaction controller: sole owner and sole writer of the
/// rotation state.
pub struct Controller {
    pitch: i64,
    yaw: i64,
    phase: Phase,
}

impl View for Controller {
    type V = ControllerView;

    closed spec fn view(&self) -> ControllerView {
        ControllerView {
            pitch: self.pitch as int,
            yaw: self.yaw as int,
            phase: phase_view(self.phase),
        }
    }
}

impl Controller {
    /// A fresh controller: identity view, idle.
    pub fn new() -> (c: Controller)
        ensures
            c@ == initial_view(),
            controller_wf(c@),
    {
        Controller { pitch: 0, yaw: 0, phase: Phase::Idle }
    }

    /// Current pitch, in fixed-point radians.
    pub fn pitch(&self) -> (r: i64)
        ensures
            r == self@.pitch,
    {
        self.pitch
    }

    /// Current yaw, in fixed-point radians, normalized into one turn.
    pub fn yaw(&self) -> (r: i64)
        ensures
            r == self@.yaw,
    {
        self.yaw
    }

    /// Current interaction phase.
    pub fn phase(&self) -> (r: Phase)
        ensures
            phase_view(r) == self@.phase,
    {
        self.phase
    }

    /// Pointer pressed.
    pub fn on_pointer_down(&mut self)
        requires
            controller_wf(old(self)@),
        ensures
            final(self)@ == press_spec(old(self)@),
            controller_wf(final(self)@),
    {
        if let Phase::Idle = self.phase {
            self.phase = Phase::Dragging;
        }
    }

    /// Pointer released.
    pub fn on_pointer_up(&mut self)
        requires
            controller_wf(old(self)@),
        ensures
            final(self)@ == release_spec(old(self)@),
            controller_wf(final(self)@),
    {
        if let Phase::Dragging = self.phase {
            self.phase = Phase::Idle;
        }
    }

    /// Pointer moved by `(dx, dy)` pixels; returns whether the view
    /// changed and a redraw is due.
    pub fn on_pointer_move(&mut self, dx: i32, dy: i32) -> (redraw: bool)
        requires
            controller_wf(old(self)@),
        ensures
            final(self)@ == drag_spec(old(self)@, dx as int, dy as int),
            controller_wf(final(self)@),
            redraw == (old(self)@.phase is Dragging),
    {
        match self.phase {
            Phase::Dragging => {
                let dp = floor_div((dy as i64) * SCALE, CANVAS_PX);
                let mut p = self.pitch + dp;
                if p < -SCALE {
                    p = -SCALE;
                }
                if p > SCALE {
                    p = SCALE;
                }
                let dyaw = floor_div((dx as i64) * SCALE, CANVAS_PX);
                let yw = floor_mod(self.yaw + dyaw, TWO_PI_FP);
                self.pitch = p;
                self.yaw = yw;
                true
            },
            _ => false,
        }
    }

    /// Click at pixel `(px, py)`: while idle, hit-test the peers in
    /// list order and fly to the first one hit.  Returns whether an
    /// animation was started.
    pub fn on_click(&mut self, peers: &Vec<Peer>, px: i64, py: i64) -> (hit: bool)
        requires
            controller_wf(old(self)@),
            forall|i: int| 0 <= i < peers@.len() ==> peer_wf(#[trigger] peers@[i]@),
            -1_000_000_000 <= px <= 1_000_000_000,
            -1_000_000_000 <= py <= 1_000_000_000,
        ensures
            final(self)@ == click_spec(old(self)@, views_of(peers@), px as int, py as int),
            controller_wf(final(self)@),
            hit == (old(self)@.phase is Idle && first_hit(
                views_of(peers@),
                px as int,
                py as int,
            ) is Some),
    {
        match self.phase {
            Phase::Idle => {},
            _ => {
                return false;
            },
        }
        let ghost pv = views_of(peers@);
        proof {
            assert(forall|j: int| 0 <= j < pv.len() ==> #[trigger] pv[j] == peers@[j]@);
        }
        let mut i: usize = 0;
        while i < peers.len()
            invariant
                0 <= i <= peers@.len(),
                pv == views_of(peers@),
                pv.len() == peers@.len(),
                forall|j: int| 0 <= j < pv.len() ==> #[trigger] pv[j] == peers@[j]@,
                forall|j: int| 0 <= j < peers@.len() ==> peer_wf(#[trigger] peers@[j]@),
                forall|j: int|
                    0 <= j < i ==> !hit_spec(
                        #[trigger] pv[j],
                        px as int,
                        py as int,
                        ORIGIN_PX as int,
                        RADIUS_PX as int,
                        HIT_RADIUS_PX as int,
                    ),
                *self == *old(self),
                self@.phase is Idle,
                controller_wf(self@),
                -1_000_000_000 <= px <= 1_000_000_000,
                -1_000_000_000 <= py <= 1_000_000_000,
            decreases peers@.len() - i,
        {
            if peers[i].hit_test(px, py, ORIGIN_PX, RADIUS_PX, HIT_RADIUS_PX) {
                let plat = peers[i].lat();
                let plon = peers[i].lon();
                let dlat = plat - self.pitch;
                let dlon = plon + self.yaw;
                let sp = floor_div(dlat, FLYTO_TICKS);
                let sy = floor_div(-dlon, FLYTO_TICKS);
                let ty = floor_mod(-plon, TWO_PI_FP);
                proof {
                    lemma_first_hit_at(pv, px as int, py as int, i as int);
                    lemma_floor_div_bound(dlat as int, FLYTO_TICKS as int, STEP_PITCH_MAX as int);
                    lemma_floor_div_bound(
                        -(dlon as int),
                        FLYTO_TICKS as int,
                        STEP_YAW_MAX as int,
                    );
                }
                self.phase = Phase::Animating {
                    target_pitch: plat,
                    target_yaw: ty,
                    step_pitch: sp,
                    step_yaw: sy,
                    ticks: 0,
                };
                return true;
            }
            i += 1;
        }
        proof {
            lemma_first_hit_none(pv, px as int, py as int);
        }
        false
    }

    /// One animation tick (one display frame); returns whether the
    /// view changed and a redraw is due.
    pub fn tick(&mut self) -> (redraw: bool)
        requires
            controller_wf(old(self)@),
        ensures
            final(self)@ == tick_spec(old(self)@),
            controller_wf(final(self)@),
            redraw == (old(self)@.phase is Animating),
    {
        match self.phase {
            Phase::Animating { target_pitch, target_yaw, step_pitch, step_yaw, ticks } => {
                if ticks == 50 {
                    self.pitch = target_pitch;
                    self.yaw = target_yaw;
                    self.phase = Phase::Idle;
                } else {
                    self.pitch = self.pitch + step_pitch;
                    self.yaw = floor_mod(self.yaw + step_yaw, TWO_PI_FP);
                    self.phase = Phase::Animating {
                        target_pitch,
                        target_yaw,
                        step_pitch,
                        step_yaw,
                        ticks: ticks + 1,
                    };
                }
                true
            },
            _ => false,
        }
    }
}

/// When no peer is hit, there is no first hit.
proof fn lemma_first_hit_none(peers: Seq<PeerView>, px: int, py: int)
    requires
        forall|j: int|
            0 <= j < peers.len() ==> !hit_spec(
                #[trigger] peers[j],
                px,
                py,
                ORIGIN_PX as int,
                RADIUS_PX as int,
                HIT_RADIUS_PX as int,
            ),
    ensures
        first_hit(peers, px, py) is None,
    decreases peers.len(),
{
    if peers.len() > 0 {
        assert forall|j: int| 0 <= j < peers.drop_first().len() implies !hit_spec(
            #[trigger] peers.drop_first()[j],
            px,
            py,
            ORIGIN_PX as int,
            RADIUS_PX as int,
            HIT_RADIUS_PX as int,
        ) by {
            assert(peers.drop_first()[j] == peers[j + 1]);
        }
        lemma_first_hit_none(peers.drop_first(), px, py);
    }
}

/// A hit at index `i`, with no hit before it, is the first hit.
proof fn lemma_first_hit_at(peers: Seq<PeerView>, px: int, py: int, i: int)
    requires
        0 <= i < peers.len(),
        hit_spec(peers[i], px, py, ORIGIN_PX as int, RADIUS_PX as int, HIT_RADIUS_PX as int),
        forall|j: int|
            0 <= j < i ==> !hit_spec(
                #[trigger] peers[j],
                px,
                py,
                ORIGIN_PX as int,
                RADIUS_PX as int,
                HIT_RADIUS_PX as int,
            ),
    ensures
        first_hit(peers, px, py) == Option::Some(i),
    decreases i,
{
    if i > 0 {
        assert(peers.drop_first()[i - 1] == peers[i]);
        assert forall|j: int| 0 <= j < i - 1 implies !hit_spec(
            #[trigger] peers.drop_first()[j],
            px,
            py,
            ORIGIN_PX as int,
            RADIUS_PX as int,
            HIT_RADIUS_PX as int,
        ) by {
            assert(peers.drop_first()[j] == peers[j + 1]);
        }
        lemma_first_hit_at(peers.drop_first(), px, py, i - 1);
    }
}

} // verus!
