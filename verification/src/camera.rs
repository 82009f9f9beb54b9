//! The orbiting camera controller.
//!
//! The camera keeps an eye position, a look-at center, an up vector, and a
//! dirty flag consumers use to rebuild the view matrix. Its mutators are
//! radial zoom with a minimum-distance clamp, lateral re-centering, a
//! bird's-eye preset, orbital rotation, and collision avoidance against
//! scene bodies.
//!
//! Both the zoom clamp and collision avoidance rest on one verified
//! mechanism: rescaling the offset vector with magnitudes rounded away from
//! zero, which can only land at or beyond the requested distance. That is
//! what makes the distance guarantees below exact statements rather than
//! approximations.

use vstd::prelude::*;
use vstd::math::abs;
use crate::vecmat::V3;
use crate::norm::{
    dist_sq, dist_sq_spec, isqrt, sqrt_floor, scale_ceil, scaled_coord, v3_bounded,
    lemma_rescaled_length,
};
use crate::fixed::{fx_add, fx_sub, fx_mul, fx_div, fx_add_spec, fx_sub_spec, fx_mul_spec,
    fx_div_spec, clamp_spec, clamp_i128, FX_ONE};

verus! {

/// Largest coordinate magnitude the camera eye may reach.
pub const CAM_EYE_LIMIT: i64 = 0x1_0000_0000_0000;

/// Largest coordinate magnitude for look-at centers, up vectors and scene
/// body positions handed to the camera.
pub const CAM_CENTER_LIMIT: i64 = 0x4000_0000_0000;

/// Largest eye-to-center or eye-to-body distance the controller works with.
pub const DIST_LIMIT: i64 = 0x8000_0000_0000;

/// Safety margin kept between the eye and a scene body's surface
/// (25 whole units, in raw fixed-point).
pub const COLLISION_MARGIN: i64 = 25 * 65536;

/// Eye/center/up state plus the dirty flag consumers poll to know the view
/// matrix needs rebuilding.
pub struct Camera {
    pub eye: V3,
    pub center: V3,
    pub up: V3,
    pub has_changed: bool,
}

impl Camera {
    /// All camera vectors stay within their coordinate limits.
    pub open spec fn wf(self) -> bool {
        &&& v3_bounded(self.eye, CAM_EYE_LIMIT as int)
        &&& v3_bounded(self.center, CAM_CENTER_LIMIT as int)
        &&& v3_bounded(self.up, CAM_CENTER_LIMIT as int)
    }

    pub fn new(eye: V3, center: V3, up: V3) -> (r: Camera)
        requires
            v3_bounded(eye, CAM_EYE_LIMIT as int),
            v3_bounded(center, CAM_CENTER_LIMIT as int),
            v3_bounded(up, CAM_CENTER_LIMIT as int),
        ensures
            r.wf(),
            r.eye == eye,
            r.center == center,
            r.up == up,
            r.has_changed,
    {
        Camera { eye, center, up, has_changed: true }
    }

    /// Move the eye along the eye-to-center axis so that its distance from
    /// the center becomes `max(previous - delta, min_distance)` (capped at
    /// `DIST_LIMIT`), never less than `min_distance` — even when starting
    /// from a degenerate eye-at-center state, and no matter how large a
    /// negative or positive `delta` is requested.
    pub fn zoom(&mut self, delta: i64, min_distance: i64)
        requires
            old(self).wf(),
            0 <= min_distance <= DIST_LIMIT,
        ensures
            final(self).wf(),
            final(self).center == old(self).center,
            final(self).up == old(self).up,
            final(self).has_changed,
            final(self).eye == pushed_eye_spec(
                old(self).eye,
                old(self).center,
                zoom_new_dist(
                    sqrt_floor(dist_sq_spec(old(self).eye, old(self).center)),
                    delta as int,
                    min_distance as int,
                ),
            ),
            dist_sq_spec(final(self).eye, final(self).center)
                >= min_distance * min_distance,
    {
        let d2: u128 = dist_sq(self.eye, self.center);
        let d: u64 = isqrt(d2);
        let t: i128 = d as i128 - delta as i128;
        let nd: i64 = if t < min_distance as i128 {
            min_distance
        } else if t > DIST_LIMIT as i128 {
            DIST_LIMIT
        } else {
            t as i64
        };
        let e = push_to_distance(self.eye, self.center, nd);
        self.eye = e;
        self.has_changed = true;
        proof {
            lemma_sq_mono_pub(min_distance as int, nd as int);
        }
    }

    /// Rotate the eye around the look-at center by an azimuth and an
    /// elevation delta, each given as its fixed-point (cosine, sine) pair.
    /// The offset is re-expressed in spherical terms through exact
    /// fixed-point quotients — yaw against the horizontal footprint, pitch
    /// against the full length — the angle sums are formed with the
    /// cosine/sine addition identities, and the offset is rebuilt at the
    /// same floor length, so the distance from the center is preserved up
    /// to fixed-point rounding. A degenerate zero offset stays put.
    pub fn orbit(&mut self, cos_az: i64, sin_az: i64, cos_el: i64, sin_el: i64)
        requires
            old(self).wf(),
            -FX_ONE <= cos_az <= FX_ONE,
            -FX_ONE <= sin_az <= FX_ONE,
            -FX_ONE <= cos_el <= FX_ONE,
            -FX_ONE <= sin_el <= FX_ONE,
        ensures
            final(self).wf(),
            final(self).center == old(self).center,
            final(self).up == old(self).up,
            final(self).has_changed,
            ({
                let o = orbit_offset_spec(
                    old(self).eye,
                    old(self).center,
                    cos_az as int,
                    sin_az as int,
                    cos_el as int,
                    sin_el as int,
                );
                &&& final(self).eye.x as int == clamp_spec(old(self).center.x + o.0, CAM_EYE_LIMIT as int)
                &&& final(self).eye.y as int == clamp_spec(old(self).center.y + o.1, CAM_EYE_LIMIT as int)
                &&& final(self).eye.z as int == clamp_spec(old(self).center.z + o.2, CAM_EYE_LIMIT as int)
            }),
    {
        let ox: i64 = self.eye.x - self.center.x;
        let oy: i64 = self.eye.y - self.center.y;
        let oz: i64 = self.eye.z - self.center.z;
        let d2: u128 = dist_sq(self.eye, self.center);
        let r: u64 = isqrt(d2);
        if r == 0 {
            proof {
                assert(d2 == 0) by (nonlinear_arith)
                    requires
                        d2 < (r as int + 1) * (r as int + 1),
                        r == 0,
                        d2 >= 0,
                ;
                assert(ox * ox >= 0) by (nonlinear_arith);
                assert(oy * oy >= 0) by (nonlinear_arith);
                assert(oz * oz >= 0) by (nonlinear_arith);
                assert(ox == 0 && oy == 0 && oz == 0) by (nonlinear_arith)
                    requires
                        ox * ox + oy * oy + oz * oz == 0,
                        ox * ox >= 0,
                        oy * oy >= 0,
                        oz * oz >= 0,
                ;
            }
            self.has_changed = true;
            return ;
        }
        proof {
            assert(ox * ox >= 0) by (nonlinear_arith);
            assert(oz * oz >= 0) by (nonlinear_arith);
            assert(ox * ox <= 0x2_0000_0000_0000i128 * 0x2_0000_0000_0000i128)
                by (nonlinear_arith)
                requires
                    -0x2_0000_0000_0000i128 <= ox <= 0x2_0000_0000_0000i128,
            ;
            assert(oz * oz <= 0x2_0000_0000_0000i128 * 0x2_0000_0000_0000i128)
                by (nonlinear_arith)
                requires
                    -0x2_0000_0000_0000i128 <= oz <= 0x2_0000_0000_0000i128,
            ;
            assert(oy * oy <= 0x2_0000_0000_0000i128 * 0x2_0000_0000_0000i128)
                by (nonlinear_arith)
                requires
                    -0x2_0000_0000_0000i128 <= oy <= 0x2_0000_0000_0000i128,
            ;
        }
        let rxz2: u128 = ((ox as i128 * ox as i128) as u128) + ((oz as i128 * oz as i128) as u128);
        let rxz: u64 = isqrt(rxz2);
        proof {
            assert(rxz < 0x4_0000_0000_0000u64) by (nonlinear_arith)
                requires
                    (rxz as int) * (rxz as int) <= rxz2,
                    rxz2 < 0x10_0000_0000_0000_0000_0000_0000u128,
                    rxz >= 0,
            ;
            assert(r < 0x4_0000_0000_0000u64) by (nonlinear_arith)
                requires
                    (r as int) * (r as int) <= d2,
                    d2 < 0x10_0000_0000_0000_0000_0000_0000u128,
                    r >= 0,
            ;
        }
        let cyaw: i64 = if rxz == 0 { FX_ONE } else { fx_div(ox, rxz as i64) };
        let syaw: i64 = if rxz == 0 { 0 } else { fx_div(oz, rxz as i64) };
        let cy2: i64 = fx_sub(fx_mul(cyaw, cos_az), fx_mul(syaw, sin_az));
        let sy2: i64 = fx_add(fx_mul(syaw, cos_az), fx_mul(cyaw, sin_az));
        let ri: i64 = r as i64;
        let sp: i64 = fx_div(-oy, ri);
        let cp: i64 = fx_div(rxz as i64, ri);
        let sp2: i64 = fx_add(fx_mul(sp, cos_el), fx_mul(cp, sin_el));
        let cp2: i64 = fx_sub(fx_mul(cp, cos_el), fx_mul(sp, sin_el));
        let nx: i64 = fx_mul(fx_mul(ri, cp2), cy2);
        let ny: i64 = -fx_mul(ri, sp2);
        let nz: i64 = fx_mul(fx_mul(ri, cp2), sy2);
        self.eye = V3 {
            x: clamp_i128(self.center.x as i128 + nx as i128, CAM_EYE_LIMIT),
            y: clamp_i128(self.center.y as i128 + ny as i128, CAM_EYE_LIMIT),
            z: clamp_i128(self.center.z as i128 + nz as i128, CAM_EYE_LIMIT),
        };
        self.has_changed = true;
    }

    /// Pan the whole rig: translate eye and center by the same offset
    /// (clamped to the coordinate limits), leaving the up vector alone.
    /// A zero offset is ignored entirely.
    pub fn move_center(&mut self, offset: V3)
        requires
            old(self).wf(),
            v3_bounded(offset, CAM_CENTER_LIMIT as int),
        ensures
            final(self).wf(),
            final(self).up == old(self).up,
            offset == (V3 { x: 0i64, y: 0i64, z: 0i64 }) ==> *final(self) == *old(self),
            offset != (V3 { x: 0i64, y: 0i64, z: 0i64 }) ==> {
                &&& final(self).eye.x as int == clamp_spec(old(self).eye.x + offset.x, CAM_EYE_LIMIT as int)
                &&& final(self).eye.y as int == clamp_spec(old(self).eye.y + offset.y, CAM_EYE_LIMIT as int)
                &&& final(self).eye.z as int == clamp_spec(old(self).eye.z + offset.z, CAM_EYE_LIMIT as int)
                &&& final(self).center.x as int == clamp_spec(old(self).center.x + offset.x, CAM_CENTER_LIMIT as int)
                &&& final(self).center.y as int == clamp_spec(old(self).center.y + offset.y, CAM_CENTER_LIMIT as int)
                &&& final(self).center.z as int == clamp_spec(old(self).center.z + offset.z, CAM_CENTER_LIMIT as int)
                &&& final(self).has_changed
            },
    {
        if offset.x == 0 && offset.y == 0 && offset.z == 0 {
            return ;
        }
        self.eye = V3 {
            x: clamp_i128(self.eye.x as i128 + offset.x as i128, CAM_EYE_LIMIT),
            y: clamp_i128(self.eye.y as i128 + offset.y as i128, CAM_EYE_LIMIT),
            z: clamp_i128(self.eye.z as i128 + offset.z as i128, CAM_EYE_LIMIT),
        };
        self.center = V3 {
            x: clamp_i128(self.center.x as i128 + offset.x as i128, CAM_CENTER_LIMIT),
            y: clamp_i128(self.center.y as i128 + offset.y as i128, CAM_CENTER_LIMIT),
            z: clamp_i128(self.center.z as i128 + offset.z as i128, CAM_CENTER_LIMIT),
        };
        self.has_changed = true;
    }

    /// Snap to an elevated view straight above `target`, re-aiming the
    /// center at it. Looking straight down, the up vector becomes the world
    /// z axis.
    pub fn bird_eye_view(&mut self, target: V3, height: i64)
        requires
            old(self).wf(),
            v3_bounded(target, CAM_CENTER_LIMIT as int),
            0 <= height <= DIST_LIMIT,
        ensures
            final(self).wf(),
            final(self).eye == (V3 { x: target.x, y: (target.y + height) as i64, z: target.z }),
            final(self).center == target,
            final(self).up == (V3 { x: 0i64, y: 0i64, z: FX_ONE }),
            final(self).has_changed,
    {
        self.eye = V3 { x: target.x, y: target.y + height, z: target.z };
        self.center = target;
        self.up = V3 { x: 0, y: 0, z: FX_ONE };
        self.has_changed = true;
    }

    /// If the eye sits nearer to a body than the body's radius plus the
    /// safety margin, push it outward along the body-to-eye axis until the
    /// margin holds; otherwise leave the camera untouched.
    pub fn prevent_collision(&mut self, body_pos: V3, body_radius: i64)
        requires
            old(self).wf(),
            v3_bounded(body_pos, CAM_CENTER_LIMIT as int),
            0 <= body_radius,
            body_radius + COLLISION_MARGIN <= DIST_LIMIT,
        ensures
            final(self).wf(),
            final(self).center == old(self).center,
            final(self).up == old(self).up,
            dist_sq_spec(final(self).eye, body_pos)
                >= (body_radius + COLLISION_MARGIN) * (body_radius + COLLISION_MARGIN),
            dist_sq_spec(old(self).eye, body_pos)
                >= (body_radius + COLLISION_MARGIN) * (body_radius + COLLISION_MARGIN)
                ==> *final(self) == *old(self),
            dist_sq_spec(old(self).eye, body_pos)
                < (body_radius + COLLISION_MARGIN) * (body_radius + COLLISION_MARGIN)
                ==> final(self).eye == pushed_eye_spec(
                    old(self).eye,
                    body_pos,
                    body_radius + COLLISION_MARGIN,
                ) && final(self).has_changed,
    {
        let rd: i64 = body_radius + COLLISION_MARGIN;
        let d2: u128 = dist_sq(self.eye, body_pos);
        proof {
            assert((rd as u128) * (rd as u128) <= 0x8000_0000_0000u128 * 0x8000_0000_0000u128)
                by (nonlinear_arith)
                requires
                    0 <= (rd as u128) <= 0x8000_0000_0000u128,
            ;
        }
        let need: u128 = (rd as u128) * (rd as u128);
        if d2 < need {
            let e = push_to_distance(self.eye, body_pos, rd);
            self.eye = e;
            self.has_changed = true;
        }
    }
}

/// Whether the camera sits within a body's collision margin: true exactly
/// when the squared eye-to-body distance is below the squared sum of the
/// body radius and the safety margin.
pub fn check_collision(camera_pos: V3, planet_pos: V3, planet_radius: i64) -> (r: bool)
    requires
        v3_bounded(camera_pos, 0x4000_0000_0000_0000),
        v3_bounded(planet_pos, 0x4000_0000_0000_0000),
        0 <= planet_radius <= DIST_LIMIT,
    ensures
        r == (dist_sq_spec(camera_pos, planet_pos)
            < (planet_radius + COLLISION_MARGIN) * (planet_radius + COLLISION_MARGIN)),
{
    let rd: i64 = planet_radius + COLLISION_MARGIN;
    let d2: u128 = dist_sq(camera_pos, planet_pos);
    proof {
        assert((rd as u128) * (rd as u128) <= 0x1_0000_0000_0000u128 * 0x1_0000_0000_0000u128)
            by (nonlinear_arith)
            requires
                0 <= (rd as u128) <= 0x1_0000_0000_0000u128,
        ;
    }
    d2 < (rd as u128) * (rd as u128)
}

/// The offset from center to eye after an orbital rotation, as exact
/// fixed-point arithmetic: yaw rotated by the azimuth pair within the
/// horizontal plane, pitch rotated by the elevation pair against the
/// vertical, both through the cosine/sine angle-addition identities, and
/// the result scaled back to the offset's floor length. An eye exactly at
/// the center (zero offset) is left where it is; an eye on the vertical
/// axis has no yaw and keeps the x direction as its footprint.
pub open spec fn orbit_offset_spec(
    eye: V3, center: V3, caz: int, saz: int, cel: int, sel: int,
) -> (int, int, int) {
    let ox = eye.x - center.x;
    let oy = eye.y - center.y;
    let oz = eye.z - center.z;
    let r = sqrt_floor(ox * ox + oy * oy + oz * oz);
    let rxz = sqrt_floor(ox * ox + oz * oz);
    if r == 0 {
        (0, 0, 0)
    } else {
        let cyaw = if rxz == 0 { FX_ONE as int } else { fx_div_spec(ox, rxz) };
        let syaw = if rxz == 0 { 0 } else { fx_div_spec(oz, rxz) };
        let cy2 = fx_sub_spec(fx_mul_spec(cyaw, caz), fx_mul_spec(syaw, saz));
        let sy2 = fx_add_spec(fx_mul_spec(syaw, caz), fx_mul_spec(cyaw, saz));
        let sp = fx_div_spec(-oy, r);
        let cp = fx_div_spec(rxz, r);
        let sp2 = fx_add_spec(fx_mul_spec(sp, cel), fx_mul_spec(cp, sel));
        let cp2 = fx_sub_spec(fx_mul_spec(cp, cel), fx_mul_spec(sp, sel));
        (
            fx_mul_spec(fx_mul_spec(r, cp2), cy2),
            -fx_mul_spec(r, sp2),
            fx_mul_spec(fx_mul_spec(r, cp2), sy2),
        )
    }
}

/// The new distance after a zoom request: move in by `delta`, but never
/// below `min_distance` and never beyond `DIST_LIMIT`.
pub open spec fn zoom_new_dist(d: int, delta: int, min_distance: int) -> int {
    if d - delta < min_distance {
        min_distance
    } else if d - delta > DIST_LIMIT as int {
        DIST_LIMIT as int
    } else {
        d - delta
    }
}

/// Where an eye lands when pushed to distance `nd` from `anchor` along the
/// anchor-to-eye axis: each offset component is rescaled by `nd` over the
/// floor length of the offset, rounding magnitudes up. An eye exactly at
/// the anchor leaves no axis to move along; it is placed behind the anchor
/// on the world z axis.
pub open spec fn pushed_eye_spec(eye: V3, anchor: V3, nd: int) -> V3 {
    let d2 = dist_sq_spec(eye, anchor);
    let d = sqrt_floor(d2);
    if d == 0 {
        V3 { x: anchor.x, y: anchor.y, z: (anchor.z - nd) as i64 }
    } else {
        V3 {
            x: (anchor.x + scaled_coord(eye.x - anchor.x, nd, d)) as i64,
            y: (anchor.y + scaled_coord(eye.y - anchor.y, nd, d)) as i64,
            z: (anchor.z + scaled_coord(eye.z - anchor.z, nd, d)) as i64,
        }
    }
}

proof fn lemma_sq_mono_pub(a: int, b: int)
    by (nonlinear_arith)
    requires
        0 <= a <= b,
    ensures
        a * a <= b * b,
{
}

/// One offset component rescaled by `nd / d` with its magnitude rounded up.
fn scaled_offset(off: i64, nd: i64, d: u64) -> (q: i64)
    requires
        0 <= nd <= DIST_LIMIT,
        d >= 1,
        abs(off as int) <= d as int,
    ensures
        q as int == scaled_coord(off as int, nd as int, d as int),
        abs(q as int) <= nd,
        abs(q as int) * (d as int) >= abs(off as int) * (nd as int),
        off >= 0 ==> q >= 0,
        off < 0 ==> q <= 0,
{
    let m: u128 = if off >= 0 {
        off as u128
    } else {
        (-(off as i128)) as u128
    };
    let qq: u128 = scale_ceil(m, nd as u128, d as u128);
    if off >= 0 {
        qq as i64
    } else {
        -(qq as i64)
    }
}

/// Rebuild an eye position at distance at least `nd` from `anchor`, along
/// the anchor-to-eye axis (or the world z axis if the two coincide).
fn push_to_distance(eye: V3, anchor: V3, nd: i64) -> (r: V3)
    requires
        v3_bounded(eye, CAM_EYE_LIMIT as int),
        v3_bounded(anchor, CAM_CENTER_LIMIT as int),
        0 <= nd <= DIST_LIMIT,
    ensures
        r == pushed_eye_spec(eye, anchor, nd as int),
        dist_sq_spec(r, anchor) >= nd * nd,
        v3_bounded(r, CAM_EYE_LIMIT as int),
{
    let d2: u128 = dist_sq(eye, anchor);
    let d: u64 = isqrt(d2);
    let ox: i64 = eye.x - anchor.x;
    let oy: i64 = eye.y - anchor.y;
    let oz: i64 = eye.z - anchor.z;
    proof {
        assert(ox * ox >= 0) by (nonlinear_arith);
        assert(oy * oy >= 0) by (nonlinear_arith);
        assert(oz * oz >= 0) by (nonlinear_arith);
    }
    if d == 0 {
        proof {
            assert(d2 == 0) by (nonlinear_arith)
                requires
                    d2 < (d as int + 1) * (d as int + 1),
                    d == 0,
                    d2 >= 0,
            ;
            assert(ox == 0 && oy == 0 && oz == 0) by (nonlinear_arith)
                requires
                    ox * ox + oy * oy + oz * oz == 0,
                    ox * ox >= 0,
                    oy * oy >= 0,
                    oz * oz >= 0,
            ;
        }
        let r = V3 { x: anchor.x, y: anchor.y, z: anchor.z - nd };
        proof {
            assert(dist_sq_spec(r, anchor) == (-(nd as int)) * (-(nd as int)));
            assert((-(nd as int)) * (-(nd as int)) == (nd as int) * (nd as int))
                by (nonlinear_arith);
        }
        r
    } else {
        proof {
            assert(abs(ox as int) <= d as int) by (nonlinear_arith)
                requires
                    ox * ox <= d2,
                    (d as int) * (d as int) <= d2,
                    d2 < (d as int + 1) * (d as int + 1),
                    d >= 0,
            ;
            assert(abs(oy as int) <= d as int) by (nonlinear_arith)
                requires
                    oy * oy <= d2,
                    (d as int) * (d as int) <= d2,
                    d2 < (d as int + 1) * (d as int + 1),
                    d >= 0,
            ;
            assert(abs(oz as int) <= d as int) by (nonlinear_arith)
                requires
                    oz * oz <= d2,
                    (d as int) * (d as int) <= d2,
                    d2 < (d as int + 1) * (d as int + 1),
                    d >= 0,
            ;
        }
        let qx: i64 = scaled_offset(ox, nd, d);
        let qy: i64 = scaled_offset(oy, nd, d);
        let qz: i64 = scaled_offset(oz, nd, d);
        let r = V3 { x: anchor.x + qx, y: anchor.y + qy, z: anchor.z + qz };
        proof {
            assert(abs(ox as int) * abs(ox as int) == (ox as int) * (ox as int))
                by (nonlinear_arith);
            assert(abs(oy as int) * abs(oy as int) == (oy as int) * (oy as int))
                by (nonlinear_arith);
            assert(abs(oz as int) * abs(oz as int) == (oz as int) * (oz as int))
                by (nonlinear_arith);
            lemma_rescaled_length(
                abs(ox as int) as int,
                abs(oy as int) as int,
                abs(oz as int) as int,
                abs(qx as int) as int,
                abs(qy as int) as int,
                abs(qz as int) as int,
                nd as int,
                d as int,
                d2 as int,
            );
            assert(abs(qx as int) * abs(qx as int) == (qx as int) * (qx as int))
                by (nonlinear_arith);
            assert(abs(qy as int) * abs(qy as int) == (qy as int) * (qy as int))
                by (nonlinear_arith);
            assert(abs(qz as int) * abs(qz as int) == (qz as int) * (qz as int))
                by (nonlinear_arith);
            assert(dist_sq_spec(r, anchor) == (qx as int) * (qx as int)
                + (qy as int) * (qy as int) + (qz as int) * (qz as int));
        }
        r
    }
}

} // verus!
