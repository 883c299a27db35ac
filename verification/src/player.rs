//! The player controller's state and its pure decision logic: the
//! vertical look clamp, movement-direction accumulation, and the
//! normalize-and-scale step of a movement request. Trigonometry and
//! collision sweeps run outside; they hand plain values back.

use crate::fx::{
    fx_div, fx_div_s, fx_mul, fx_mul_s, iabs, isqrt, isqrt_s, lemma_fx_mul_bound, Vec3Fx, FX_LIMIT,
    FX_ONE,
};
use crate::physics::{BodyHandle, ColliderHandle};
use crate::transform::Transform;
use vstd::prelude::*;

verus! {

/// Movement speed, units per second.
pub const SPEED: i64 = 655360;

/// Radians (fixed point) of pi.
pub const PI_FX: i64 = 205887;

/// Smallest allowed angle between the forward vector and world-up.
pub const MIN_TOP_ANGLE: i64 = 6553;

/// Largest allowed angle between the forward vector and world-up.
pub const MIN_BOTTOM_ANGLE: i64 = 199334;

/// Below this squared direction magnitude (raw units squared) no
/// movement is attempted.
pub const MOVE_EPS_SQ: u128 = 429025;

/// A cast ray: origin and direction.
#[derive(Clone, Copy, PartialEq, Eq, Structural, Debug)]
pub struct Ray {
    pub origin: Vec3Fx,
    pub dir: Vec3Fx,
}

/// The player's current focus: the hit point, its distance, and the
/// body that owns the hit collider.
#[derive(Clone, Copy, PartialEq, Eq, Structural, Debug)]
pub struct PlayerFocus {
    pub point: Vec3Fx,
    pub distance: i64,
    pub body: BodyHandle,
}

/// Which movement actions are held this frame.
#[derive(Clone, Copy, PartialEq, Eq, Structural, Debug, Default)]
pub struct MovementInput {
    pub forward: bool,
    pub back: bool,
    pub right: bool,
    pub left: bool,
    pub up: bool,
    pub down: bool,
}

/// The player component: control mode, movement residue, and the
/// focus ray and focus result of the last update. The ray can exist
/// without a focus (a cast that hit nothing keeps its ray).
#[derive(Clone, Copy, PartialEq, Eq, Structural, Debug)]
pub struct Player {
    pub collider: ColliderHandle,
    pub translation_acc: Vec3Fx,
    pub controlled: bool,
    pub focus_ray: Option<Ray>,
    pub focus: Option<PlayerFocus>,
}

impl Player {
    pub fn focus_ray(&self) -> (r: Option<Ray>)
        ensures
            r == self.focus_ray,
    {
        self.focus_ray
    }

    pub fn focus(&self) -> (r: Option<PlayerFocus>)
        ensures
            r == self.focus,
    {
        self.focus
    }
}

/// What the vertical look clamp returns: the delta, shortened exactly
/// to the margin when the sum would cross it.
pub open spec fn clamp_look_delta_s(angle_to_top: int, v_delta: int) -> int {
    if angle_to_top + v_delta <= MIN_TOP_ANGLE as int {
        MIN_TOP_ANGLE - angle_to_top
    } else if angle_to_top + v_delta >= MIN_BOTTOM_ANGLE as int {
        MIN_BOTTOM_ANGLE - angle_to_top
    } else {
        v_delta
    }
}

/// Clamp a vertical look delta so the angle between forward and
/// world-up never leaves the `[MIN_TOP_ANGLE, MIN_BOTTOM_ANGLE]` band.
pub fn clamp_look_delta(angle_to_top: i64, v_delta: i64) -> (r: i64)
    requires
        iabs(angle_to_top as int) <= 2 * PI_FX as int,
        iabs(v_delta as int) <= 2 * PI_FX as int,
    ensures
        r as int == clamp_look_delta_s(angle_to_top as int, v_delta as int),
{
    if angle_to_top + v_delta <= MIN_TOP_ANGLE {
        MIN_TOP_ANGLE - angle_to_top
    } else if angle_to_top + v_delta >= MIN_BOTTOM_ANGLE {
        MIN_BOTTOM_ANGLE - angle_to_top
    } else {
        v_delta
    }
}

/// The look clamp keeps the angle inside the band: starting anywhere
/// in `[MIN_TOP_ANGLE, MIN_BOTTOM_ANGLE]`, applying the clamped delta
/// lands inside the band again — in particular, from the margin
/// itself, no delta can cross it.
pub proof fn lemma_look_clamp_holds_band(angle_to_top: int, v_delta: int)
    requires
        MIN_TOP_ANGLE as int <= angle_to_top <= MIN_BOTTOM_ANGLE as int,
    ensures
        MIN_TOP_ANGLE as int <= angle_to_top + clamp_look_delta_s(angle_to_top, v_delta)
            <= MIN_BOTTOM_ANGLE as int,
{
}

/// The clamp never widens a delta: an in-band request passes through
/// unchanged, and a crossing request is cut exactly at the margin.
pub proof fn lemma_look_clamp_exact(angle_to_top: int, v_delta: int)
    requires
        MIN_TOP_ANGLE as int <= angle_to_top <= MIN_BOTTOM_ANGLE as int,
        (MIN_TOP_ANGLE as int) < angle_to_top + v_delta < (MIN_BOTTOM_ANGLE as int),
    ensures
        clamp_look_delta_s(angle_to_top, v_delta) == v_delta,
{
}

/// Sum the basis vectors selected by the held movement actions: the
/// un-normalized desired direction.
pub fn movement_direction(tr: &Transform, input: MovementInput) -> (r: Vec3Fx)
    requires
        tr.wf(),
    ensures
        r.x as int == dir_component(
            input,
            -tr.m.c2.x as int,
            tr.m.c0.x as int,
            tr.m.c1.x as int,
        ),
        r.y as int == dir_component(
            input,
            -tr.m.c2.y as int,
            tr.m.c0.y as int,
            tr.m.c1.y as int,
        ),
        r.z as int == dir_component(
            input,
            -tr.m.c2.z as int,
            tr.m.c0.z as int,
            tr.m.c1.z as int,
        ),
        r.bounded(15 * FX_LIMIT as int),
{
    proof {
        crate::transform::lemma_compose_entry_bounds(tr.m, tr.pos, tr.rot, tr.scale);
    }
    let fwd = tr.forward();
    let right = tr.right();
    let up = tr.up();
    let x: i64 = dir_component_exec(input, fwd.x, right.x, up.x);
    let y: i64 = dir_component_exec(input, fwd.y, right.y, up.y);
    let z: i64 = dir_component_exec(input, fwd.z, right.z, up.z);
    Vec3Fx { x, y, z }
}

/// One scalar component of the movement-direction sum.
fn dir_component_exec(input: MovementInput, fwd: i64, right: i64, up: i64) -> (r: i64)
    requires
        iabs(fwd as int) <= 5 * FX_LIMIT as int,
        iabs(right as int) <= 5 * FX_LIMIT as int,
        iabs(up as int) <= 5 * FX_LIMIT as int,
    ensures
        r as int == dir_component(input, fwd as int, right as int, up as int),
        iabs(r as int) <= 15 * FX_LIMIT as int,
{
    let mut acc: i64 = 0;
    if input.forward {
        acc = acc + fwd;
    }
    if input.back {
        acc = acc - fwd;
    }
    if input.right {
        acc = acc + right;
    }
    if input.left {
        acc = acc - right;
    }
    if input.up {
        acc = acc + up;
    }
    if input.down {
        acc = acc - up;
    }
    acc
}

/// One component of the movement direction: forward minus back, plus
/// right minus left, plus up minus down, over the matching basis
/// components.
pub open spec fn dir_component(input: MovementInput, fwd: int, right: int, up: int) -> int {
    (if input.forward {
        fwd
    } else {
        0
    }) + (if input.back {
        -fwd
    } else {
        0
    }) + (if input.right {
        right
    } else {
        0
    }) + (if input.left {
        -right
    } else {
        0
    }) + (if input.up {
        up
    } else {
        0
    }) + (if input.down {
        -up
    } else {
        0
    })
}

/// The squared raw magnitude of a direction.
pub open spec fn mag_sq_s(v: Vec3Fx) -> int {
    iabs(v.x as int) * iabs(v.x as int) + iabs(v.y as int) * iabs(v.y as int) + iabs(v.z as int)
        * iabs(v.z as int)
}

/// What the desired translation is for a direction and a scale: the
/// direction normalized by its integer magnitude, times the scale.
pub open spec fn desired_translation_s(dir: Vec3Fx, speed_dt: int) -> Vec3Fx {
    let mag = isqrt_s(mag_sq_s(dir));
    Vec3Fx {
        x: fx_mul_s(fx_div_s(dir.x as int, mag), speed_dt) as i64,
        y: fx_mul_s(fx_div_s(dir.y as int, mag), speed_dt) as i64,
        z: fx_mul_s(fx_div_s(dir.z as int, mag), speed_dt) as i64,
    }
}

/// Normalize a movement direction and scale it by `speed * dt`; below
/// the movement threshold, no translation is requested.
pub fn desired_translation(dir: Vec3Fx, dt: i64) -> (r: Option<Vec3Fx>)
    requires
        dir.bounded(15 * FX_LIMIT as int),
        0 <= dt <= 16 * FX_ONE as int,
    ensures
        (mag_sq_s(dir) < MOVE_EPS_SQ as int) ==> r is None,
        (mag_sq_s(dir) >= MOVE_EPS_SQ as int) ==> r == Some(
            desired_translation_s(dir, fx_mul_s(SPEED as int, dt as int)),
        ),
        (r matches Some(t) ==> t.bounded(16 * SPEED as int)),
{
    let sq: u128 = dir.raw_magnitude_sq();
    if sq < MOVE_EPS_SQ {
        return None;
    }
    proof {
        lemma_fx_mul_bound(SPEED as int, dt as int, SPEED as int, 16 * FX_ONE as int);
        assert(((655360 * (16 * 65536)) as int) / 65536 == 655360 * 16);
        crate::fx::lemma_mul_le(dir.x as int, dir.x as int, 15 * FX_LIMIT as int, 15 * FX_LIMIT as int);
        crate::fx::lemma_mul_le(dir.y as int, dir.y as int, 15 * FX_LIMIT as int, 15 * FX_LIMIT as int);
        crate::fx::lemma_mul_le(dir.z as int, dir.z as int, 15 * FX_LIMIT as int, 15 * FX_LIMIT as int);
    }
    let speed_dt: i64 = fx_mul(SPEED, dt);
    let mag: u64 = isqrt(sq);
    proof {
        if mag == 0 {
            assert((mag as int + 1) * (mag as int + 1) == 1) by (nonlinear_arith)
                requires
                    mag == 0,
            ;
        }
        assert(mag >= 1);
        assert(mag <= 0xffff_ffff_ffff) by (nonlinear_arith)
            requires
                (mag as int) * (mag as int) <= sq as int,
                sq <= 3 * (15 * 0x80_0000_0000) * (15 * 0x80_0000_0000),
        ;
        lemma_normalized_components(dir, sq as int, mag as int);
    }
    let nx: i64 = fx_div(dir.x, mag as i64);
    let ny: i64 = fx_div(dir.y, mag as i64);
    let nz: i64 = fx_div(dir.z, mag as i64);
    proof {
        lemma_fx_mul_bound(nx as int, speed_dt as int, FX_ONE as int, 16 * SPEED as int);
        lemma_fx_mul_bound(ny as int, speed_dt as int, FX_ONE as int, 16 * SPEED as int);
        lemma_fx_mul_bound(nz as int, speed_dt as int, FX_ONE as int, 16 * SPEED as int);
        assert(((65536 * (16 * 655360)) as int) / 65536 == 16 * 655360);
    }
    Some(Vec3Fx { x: fx_mul(nx, speed_dt), y: fx_mul(ny, speed_dt), z: fx_mul(nz, speed_dt) })
}

/// Each direction component is bounded by the integer magnitude, so
/// dividing by it lands within one; and the component itself fits the
/// divider's domain.
proof fn lemma_normalized_components(dir: Vec3Fx, sq: int, mag: int)
    requires
        dir.bounded(15 * FX_LIMIT as int),
        sq == mag_sq_s(dir),
        mag >= 1,
        mag * mag <= sq,
        sq < (mag + 1) * (mag + 1),
    ensures
        forall|c: int|
            iabs(c) * iabs(c) <= sq && iabs(c) <= 15 * FX_LIMIT as int ==> iabs(
                #[trigger] fx_div_s(c, mag),
            ) <= FX_ONE as int,
{
    assert forall|c: int|
        iabs(c) * iabs(c) <= sq && iabs(c) <= 15 * FX_LIMIT as int implies iabs(
        #[trigger] fx_div_s(c, mag),
    ) <= FX_ONE as int by {
        assert(iabs(c) <= mag) by (nonlinear_arith)
            requires
                iabs(c) * iabs(c) <= sq,
                sq < (mag + 1) * (mag + 1),
                mag >= 1,
                iabs(c) >= 0,
        ;
        assert(iabs(fx_div_s(c, mag)) == (iabs(c) * 65536) / iabs(mag));
        crate::fx::lemma_mul_le(iabs(c), 65536, mag, 65536);
        vstd::arithmetic::div_mod::lemma_div_is_ordered(iabs(c) * 65536, mag * 65536, mag);
        vstd::arithmetic::div_mod::lemma_div_by_multiple(65536, mag);
    }
}

} // verus!
