//! The moving entity: position, rotation, and the per-frame motion step.
//!
//! All geometry is integer fixed-point. Lengths (positions, window bounds,
//! the triangle's extent) are thousandths of a unit, angles are thousandths
//! of a degree, time steps are milliseconds, and linear speed is whole
//! units per second — so a step of `dt` milliseconds at speed `v` moves by
//! exactly `v * dt` thousandths of a unit.
//!
//! Positions are measured from the window's center in screen coordinates:
//! x grows rightward and y grows downward. (The held-key that moves the
//! entity up therefore *decreases* y; the rendered offset is simply the
//! center plus the position on both axes.)

use vstd::prelude::*;

use crate::keys::InputState;
use crate::keys::Key;
use crate::render::background_color;
use crate::render::shape_color;
use crate::render::Color;
use crate::render::Frame;
use crate::render::Vertex;
use crate::MAX_DT;

verus! {

/// Half of the triangle's bounding box (25 units), in thousandths of a unit.
pub const HALF_EXTENT: i64 = 25_000;

/// Largest window bound accepted, in thousandths of a unit.
pub const MAX_BOUND: u64 = 1_000_000_000_000;

/// Positions stay within this magnitude (half of `MAX_BOUND`).
pub const POS_LIMIT: i64 = 500_000_000_000;

/// Largest linear speed accepted, in units per second.
pub const MAX_SPEED: i64 = 1_000_000;

/// The linear speed a new entity starts with, in units per second.
pub const DEFAULT_SPEED: i64 = 200;

/// Angular speed while a rotation key is held, in degrees per second
/// (equivalently, thousandths of a degree per millisecond).
pub const ROTATE_SPEED: i64 = 100;

/// The moving entity.
#[derive(Clone, Copy, PartialEq, Eq, Structural, Debug)]
pub struct Player {
    /// Horizontal offset from the window center, thousandths of a unit;
    /// grows rightward.
    pub position_x: i64,
    /// Vertical offset from the window center, thousandths of a unit;
    /// grows downward.
    pub position_y: i64,
    /// Accumulated rotation, thousandths of a degree. Unbounded apart from
    /// the machine type: it saturates at the ends of `i64` instead of
    /// wrapping.
    pub rotation: i64,
    /// Linear speed, units per second.
    pub speed: i64,
    /// Cached window width used for clamping, thousandths of a unit.
    pub bound_w: u64,
    /// Cached window height used for clamping, thousandths of a unit.
    pub bound_h: u64,
}

/// Highest coordinate the clamp allows on an axis with window bound
/// `bound`: the half-bound inset by the triangle's half-extent.
pub open spec fn clamp_hi(bound: int) -> int {
    bound / 2 - HALF_EXTENT
}

/// Lowest coordinate the clamp allows on an axis with window bound `bound`.
pub open spec fn clamp_lo(bound: int) -> int {
    -(bound / 2) + HALF_EXTENT
}

/// One directional step toward positive coordinates: move by `amt`, then
/// clamp from above only.
pub open spec fn axis_inc(pos: int, amt: int, bound: int) -> int {
    if pos + amt > clamp_hi(bound) {
        clamp_hi(bound)
    } else {
        pos + amt
    }
}

/// One directional step toward negative coordinates: move by `amt`, then
/// clamp from below only.
pub open spec fn axis_dec(pos: int, amt: int, bound: int) -> int {
    if pos - amt < clamp_lo(bound) {
        clamp_lo(bound)
    } else {
        pos - amt
    }
}

/// The horizontal position after one update step: the rightward key and
/// then the leftward key each apply their own one-sided clamp.
pub open spec fn x_after(p: Player, keys: InputState, dt: int) -> int {
    let amt = p.speed * dt;
    let x1 = if keys.held(Key::A) {
        axis_inc(p.position_x as int, amt, p.bound_w as int)
    } else {
        p.position_x as int
    };
    if keys.held(Key::D) {
        axis_dec(x1, amt, p.bound_w as int)
    } else {
        x1
    }
}

/// The vertical position after one update step: the upward key (which
/// decreases y) and then the downward key each apply their own one-sided
/// clamp.
pub open spec fn y_after(p: Player, keys: InputState, dt: int) -> int {
    let amt = p.speed * dt;
    let y1 = if keys.held(Key::W) {
        axis_dec(p.position_y as int, amt, p.bound_h as int)
    } else {
        p.position_y as int
    };
    if keys.held(Key::S) {
        axis_inc(y1, amt, p.bound_h as int)
    } else {
        y1
    }
}

/// Saturation of a mathematical integer into the range of `i64`.
pub open spec fn clip_to_i64(v: int) -> int {
    if v > i64::MAX {
        i64::MAX as int
    } else if v < i64::MIN {
        i64::MIN as int
    } else {
        v
    }
}

/// The rotation after one update step. The reset key wins over both
/// rotation keys held the same step; otherwise the two rotation keys
/// contribute opposite deltas of `ROTATE_SPEED * dt`, and the sum
/// saturates at the ends of `i64`.
pub open spec fn rotation_after(p: Player, keys: InputState, dt: int) -> int {
    if keys.held(Key::R) {
        0
    } else {
        let delta = ROTATE_SPEED * dt;
        let net = (if keys.held(Key::E) {
            delta
        } else {
            0
        }) - (if keys.held(Key::Q) {
            delta
        } else {
            0
        });
        clip_to_i64(p.rotation + net)
    }
}

/// The whole entity after one update step with held-set `keys` and a time
/// step of `dt` milliseconds: only position and rotation change.
pub open spec fn player_after(p: Player, keys: InputState, dt: int) -> Player {
    Player {
        position_x: x_after(p, keys, dt) as i64,
        position_y: y_after(p, keys, dt) as i64,
        rotation: rotation_after(p, keys, dt) as i64,
        speed: p.speed,
        bound_w: p.bound_w,
        bound_h: p.bound_h,
    }
}

impl Player {
    /// The entity `Player::new` returns: centered, unrotated, at the
    /// default speed.
    pub open spec fn new_spec(bound_w: u64, bound_h: u64) -> Player {
        Player {
            position_x: 0,
            position_y: 0,
            rotation: 0,
            speed: DEFAULT_SPEED,
            bound_w,
            bound_h,
        }
    }

    /// Well-formedness: bounds and speed within the accepted ranges, and
    /// the position within the magnitude that any clamp can produce.
    pub open spec fn wf(self) -> bool {
        &&& self.bound_w <= MAX_BOUND
        &&& self.bound_h <= MAX_BOUND
        &&& 0 <= self.speed <= MAX_SPEED
        &&& -POS_LIMIT <= self.position_x <= POS_LIMIT
        &&& -POS_LIMIT <= self.position_y <= POS_LIMIT
    }

    /// A new entity: at the window center, unrotated, at the default speed,
    /// clamped against the given window bounds.
    pub fn new(bound_w: u64, bound_h: u64) -> (p: Player)
        requires
            bound_w <= MAX_BOUND,
            bound_h <= MAX_BOUND,
        ensures
            p.wf(),
            p == Player::new_spec(bound_w, bound_h),
            p.position_x == 0,
            p.position_y == 0,
            p.rotation == 0,
            p.speed == DEFAULT_SPEED,
            p.bound_w == bound_w,
            p.bound_h == bound_h,
    {
        Player {
            position_x: 0,
            position_y: 0,
            rotation: 0,
            speed: DEFAULT_SPEED,
            bound_w,
            bound_h,
        }
    }

    /// One motion step: each held movement key moves its axis by
    /// `speed * dt` with its own one-sided clamp, the rotation keys turn by
    /// `ROTATE_SPEED * dt` with saturation, and the reset key zeroes the
    /// rotation, winning over rotation keys held the same step.
    pub fn update(&mut self, keys: &InputState, dt: u64)
        requires
            old(self).wf(),
            dt <= MAX_DT,
        ensures
            final (self).wf(),
            *final (self) == player_after(*old(self), *keys, dt as int),
            final (self).position_x == x_after(*old(self), *keys, dt as int),
            final (self).position_y == y_after(*old(self), *keys, dt as int),
            final (self).rotation == rotation_after(*old(self), *keys, dt as int),
            keys.held(Key::R) ==> final (self).rotation == 0,
    {
        let dti: i64 = dt as i64;
        proof {
            let ghost v = old(self).speed as int;
            let ghost t = dt as int;
            assert(0 <= v * t <= MAX_SPEED * (MAX_DT as int)) by (nonlinear_arith)
                requires
                    0 <= v <= MAX_SPEED,
                    0 <= t <= MAX_DT as int,
            ;
        }
        let amt: i64 = self.speed * dti;

        let half_w: i64 = (self.bound_w / 2) as i64;
        let half_h: i64 = (self.bound_h / 2) as i64;
        let hi_x: i64 = half_w - HALF_EXTENT;
        let lo_x: i64 = -half_w + HALF_EXTENT;
        let hi_y: i64 = half_h - HALF_EXTENT;
        let lo_y: i64 = -half_h + HALF_EXTENT;

        if keys.is_held(Key::W) {
            let cand: i64 = self.position_y - amt;
            self.position_y = if cand < lo_y {
                lo_y
            } else {
                cand
            };
        }
        if keys.is_held(Key::S) {
            let cand: i64 = self.position_y + amt;
            self.position_y = if cand > hi_y {
                hi_y
            } else {
                cand
            };
        }
        if keys.is_held(Key::A) {
            let cand: i64 = self.position_x + amt;
            self.position_x = if cand > hi_x {
                hi_x
            } else {
                cand
            };
        }
        if keys.is_held(Key::D) {
            let cand: i64 = self.position_x - amt;
            self.position_x = if cand < lo_x {
                lo_x
            } else {
                cand
            };
        }

        let rot_delta: i64 = ROTATE_SPEED * dti;
        let up: i64 = if keys.is_held(Key::E) {
            rot_delta
        } else {
            0
        };
        let down: i64 = if keys.is_held(Key::Q) {
            rot_delta
        } else {
            0
        };
        let net: i64 = up - down;
        if keys.is_held(Key::R) {
            self.rotation = 0;
        } else if net >= 0 {
            if self.rotation > i64::MAX - net {
                self.rotation = i64::MAX;
            } else {
                self.rotation = self.rotation + net;
            }
        } else {
            if self.rotation < i64::MIN - net {
                self.rotation = i64::MIN;
            } else {
                self.rotation = self.rotation + net;
            }
        }
    }

    /// The frame that draws this entity in a viewport of the given size:
    /// the fixed triangle, translated to the viewport center offset by the
    /// position, then rotated by the accumulated rotation.
    pub fn render(&self, win_w: u64, win_h: u64) -> (f: Frame)
        requires
            self.wf(),
            win_w <= MAX_BOUND,
            win_h <= MAX_BOUND,
        ensures
            f == frame_spec(*self, win_w, win_h),
            f.translate_x == win_w as int / 2 + self.position_x,
            f.translate_y == win_h as int / 2 + self.position_y,
            f.rotation == self.rotation,
    {
        let cx: i64 = (win_w / 2) as i64;
        let cy: i64 = (win_h / 2) as i64;
        Frame {
            clear: Color { red: 0, green: 255, blue: 0, alpha: 255 },
            fill: Color { red: 255, green: 0, blue: 0, alpha: 255 },
            apex: Vertex { x: 0, y: -HALF_EXTENT },
            base_left: Vertex { x: -HALF_EXTENT, y: HALF_EXTENT },
            base_right: Vertex { x: HALF_EXTENT, y: HALF_EXTENT },
            translate_x: cx + self.position_x,
            translate_y: cy + self.position_y,
            rotation: self.rotation,
        }
    }

    /// Replaces the cached window bounds. The position is not re-clamped:
    /// it can sit outside the new bounds until a movement key next applies
    /// its clamp.
    pub fn resize(&mut self, bound_w: u64, bound_h: u64)
        requires
            old(self).wf(),
            bound_w <= MAX_BOUND,
            bound_h <= MAX_BOUND,
        ensures
            final (self).wf(),
            final (self).bound_w == bound_w,
            final (self).bound_h == bound_h,
            final (self).position_x == old(self).position_x,
            final (self).position_y == old(self).position_y,
            final (self).rotation == old(self).rotation,
            final (self).speed == old(self).speed,
    {
        self.bound_w = bound_w;
        self.bound_h = bound_h;
    }
}

/// Whether `k` is one of the four movement keys.
pub open spec fn is_movement_key(k: Key) -> bool {
    k == Key::W || k == Key::S || k == Key::A || k == Key::D
}

/// Whether a step of `dt` milliseconds in the direction of movement key
/// `k` stays clear of that direction's clamp.
pub open spec fn room_for(p: Player, k: Key, dt: int) -> bool {
    let amt = p.speed * dt;
    match k {
        Key::W => p.position_y - amt >= clamp_lo(p.bound_h as int),
        Key::S => p.position_y + amt <= clamp_hi(p.bound_h as int),
        Key::A => p.position_x + amt <= clamp_hi(p.bound_w as int),
        Key::D => p.position_x - amt >= clamp_lo(p.bound_w as int),
        _ => true,
    }
}

/// With a single movement key held and its clamp not binding, an update
/// step moves the position by exactly `speed * dt`, on that key's axis and
/// in that key's direction, and leaves the other axis untouched.
pub proof fn lemma_single_key_exact_motion(p: Player, keys: InputState, dt: int, k: Key)
    requires
        dt >= 0,
        is_movement_key(k),
        keys.held(k),
        forall|k2: Key| is_movement_key(k2) && k2 != k ==> !keys.held(k2),
        room_for(p, k, dt),
    ensures
        x_after(p, keys, dt) == p.position_x + (if k == Key::A {
            p.speed * dt
        } else if k == Key::D {
            -(p.speed * dt)
        } else {
            0
        }),
        y_after(p, keys, dt) == p.position_y + (if k == Key::S {
            p.speed * dt
        } else if k == Key::W {
            -(p.speed * dt)
        } else {
            0
        }),
{
    assert(is_movement_key(Key::W));
    assert(is_movement_key(Key::S));
    assert(is_movement_key(Key::A));
    assert(is_movement_key(Key::D));
}

/// Clamping invariant: once each coordinate lies within the clamp
/// interval of its axis, any update step keeps it there, provided each
/// window bound is at least the triangle's full extent.
pub proof fn lemma_update_keeps_clamped(p: Player, keys: InputState, dt: int)
    requires
        dt >= 0,
        p.speed >= 0,
        p.bound_w >= 2 * HALF_EXTENT,
        p.bound_h >= 2 * HALF_EXTENT,
        clamp_lo(p.bound_w as int) <= p.position_x <= clamp_hi(p.bound_w as int),
        clamp_lo(p.bound_h as int) <= p.position_y <= clamp_hi(p.bound_h as int),
    ensures
        clamp_lo(p.bound_w as int) <= x_after(p, keys, dt) <= clamp_hi(p.bound_w as int),
        clamp_lo(p.bound_h as int) <= y_after(p, keys, dt) <= clamp_hi(p.bound_h as int),
{
    assert(p.speed * dt >= 0) by (nonlinear_arith)
        requires
            p.speed >= 0,
            dt >= 0,
    ;
}

/// The frame `Player::render` returns for a viewport of the given size.
pub open spec fn frame_spec(p: Player, win_w: u64, win_h: u64) -> Frame {
    Frame {
        clear: background_color(),
        fill: shape_color(),
        apex: Vertex { x: 0, y: (-HALF_EXTENT) as i64 },
        base_left: Vertex { x: (-HALF_EXTENT) as i64, y: HALF_EXTENT },
        base_right: Vertex { x: HALF_EXTENT, y: HALF_EXTENT },
        translate_x: (win_w as int / 2 + p.position_x) as i64,
        translate_y: (win_h as int / 2 + p.position_y) as i64,
        rotation: p.rotation,
    }
}

} // verus!
