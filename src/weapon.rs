use vstd::prelude::*;

use crate::geometry::{abs, sq_dist, within, Vec3, UNIT};
use crate::handle::NodeHandle;

verus! {

/// Time between two shots, in ticks (a tenth of a second).
pub const RELOAD_TICKS: u64 = 6_000;

/// Upward part of the muzzle displacement that a shot kicks the weapon towards.
pub const RECOIL_KICK_Y: i64 = 6_250;

/// Backward part of the muzzle displacement that a shot kicks the weapon towards.
pub const RECOIL_KICK_Z: i64 = -25_000;

/// Once the recoil offset is closer than this to its target, the target returns to rest.
pub const RECOIL_EPSILON: i64 = 1_000;

/// No component of a recoil offset or target may leave `[-RECOIL_BOUND, RECOIL_BOUND]`.
pub const RECOIL_BOUND: i64 = UNIT;

/// One step of the exponential follow with factor one half: the value moves half of the
/// way to the target, rounded towards the target, so that it settles on it exactly.
pub open spec fn follow(o: int, t: int) -> int {
    if o <= t {
        t - (t - o) / 2
    } else {
        t + (o - t) / 2
    }
}

pub open spec fn follow_vec(o: Vec3, t: Vec3) -> Vec3 {
    Vec3 {
        x: follow(o.x as int, t.x as int) as i64,
        y: follow(o.y as int, t.y as int) as i64,
        z: follow(o.z as int, t.z as int) as i64,
    }
}

/// The muzzle displacement that a shot sets as recoil target.
pub open spec fn kick() -> Vec3 {
    Vec3 { x: 0, y: RECOIL_KICK_Y, z: RECOIL_KICK_Z }
}

pub open spec fn rest() -> Vec3 {
    Vec3 { x: 0, y: 0, z: 0 }
}

/// A weapon: its scene nodes, its cooldown timer and its recoil animation.
#[derive(Clone, Copy, Debug, PartialEq, Eq, Structural)]
pub struct Weapon {
    pub model: NodeHandle,
    pub shot_point: NodeHandle,
    /// Ticks left until the next shot is allowed.
    pub shot_timer: u64,
    /// Current displacement of the model from its rest position.
    pub recoil_offset: Vec3,
    /// Displacement that the model is easing towards.
    pub recoil_target_offset: Vec3,
}

impl Weapon {
    pub open spec fn wf(self) -> bool {
        within(self.recoil_offset, RECOIL_BOUND as int) && within(
            self.recoil_target_offset,
            RECOIL_BOUND as int,
        )
    }

    /// The weapon may fire.
    pub open spec fn ready(self) -> bool {
        self.shot_timer == 0
    }

    /// The weapon after one `update` of `dt` ticks.
    pub open spec fn updated(self, dt: u64) -> Weapon {
        let offset = follow_vec(self.recoil_offset, self.recoil_target_offset);
        Weapon {
            shot_timer: if self.shot_timer > dt {
                (self.shot_timer - dt) as u64
            } else {
                0
            },
            recoil_offset: offset,
            recoil_target_offset: if sq_dist(offset, self.recoil_target_offset) < RECOIL_EPSILON
                * RECOIL_EPSILON {
                rest()
            } else {
                self.recoil_target_offset
            },
            ..self
        }
    }

    /// The weapon after `shoot`.
    pub open spec fn fired(self) -> Weapon {
        Weapon { shot_timer: RELOAD_TICKS, recoil_target_offset: kick(), ..self }
    }

    /// The weapon after one `update` for each of `dts`, in order.
    pub open spec fn after_updates(self, dts: Seq<u64>) -> Weapon
        decreases dts.len(),
    {
        if dts.len() == 0 {
            self
        } else {
            self.after_updates(dts.drop_last()).updated(dts.last())
        }
    }

    /// A weapon at rest and ready to fire.
    pub fn new(model: NodeHandle, shot_point: NodeHandle) -> (r: Weapon)
        ensures
            r.wf(),
            r.ready(),
            r == (Weapon {
                model,
                shot_point,
                shot_timer: 0,
                recoil_offset: rest(),
                recoil_target_offset: rest(),
            }),
    {
        Weapon {
            model,
            shot_point,
            shot_timer: 0,
            recoil_offset: Vec3::zero(),
            recoil_target_offset: Vec3::zero(),
        }
    }

    pub fn model(&self) -> (r: NodeHandle)
        ensures
            r == self.model,
    {
        self.model
    }

    pub fn shot_point(&self) -> (r: NodeHandle)
        ensures
            r == self.shot_point,
    {
        self.shot_point
    }

    /// Advances the weapon by `dt` ticks and returns the model's new local position.
    pub fn update(&mut self, dt: u64) -> (r: Vec3)
        requires
            old(self).wf(),
        ensures
            *final(self) == old(self).updated(dt),
            final(self).wf(),
            r == final(self).recoil_offset,
    {
        self.shot_timer = if self.shot_timer > dt {
            self.shot_timer - dt
        } else {
            0
        };
        let target = self.recoil_target_offset;
        let offset = Vec3::new(
            follow_component(self.recoil_offset.x, target.x),
            follow_component(self.recoil_offset.y, target.y),
            follow_component(self.recoil_offset.z, target.z),
        );
        self.recoil_offset = offset;
        if offset.sq_distance(&target) < RECOIL_EPSILON * RECOIL_EPSILON {
            self.recoil_target_offset = Vec3::zero();
        }
        offset
    }

    pub fn can_shoot(&self) -> (r: bool)
        ensures
            r == self.ready(),
    {
        self.shot_timer == 0
    }

    /// Starts the cooldown and kicks the recoil target.
    pub fn shoot(&mut self)
        requires
            old(self).wf(),
        ensures
            *final(self) == old(self).fired(),
            final(self).wf(),
    {
        self.shot_timer = RELOAD_TICKS;
        self.recoil_target_offset = Vec3::new(0, RECOIL_KICK_Y, RECOIL_KICK_Z);
    }
}

fn follow_component(o: i64, t: i64) -> (r: i64)
    requires
        abs(o as int) <= RECOIL_BOUND,
        abs(t as int) <= RECOIL_BOUND,
    ensures
        r == follow(o as int, t as int),
        abs(r as int) <= RECOIL_BOUND,
{
    if o <= t {
        t - (t - o) / 2
    } else {
        t + (o - t) / 2
    }
}

/// Total of a sequence of tick counts.
pub open spec fn total(dts: Seq<u64>) -> int
    decreases dts.len(),
{
    if dts.len() == 0 {
        0
    } else {
        total(dts.drop_last()) + dts.last()
    }
}

proof fn lemma_timer_after_updates(w: Weapon, dts: Seq<u64>)
    ensures
        w.after_updates(dts).shot_timer == (if w.shot_timer >= total(dts) {
            w.shot_timer - total(dts)
        } else {
            0
        }),
    decreases dts.len(),
{
    if dts.len() > 0 {
        lemma_timer_after_updates(w, dts.drop_last());
    }
}

/// A weapon that has just fired cannot fire again, and after a run of updates it can fire
/// exactly when their time steps add up to at least the reload interval.
pub proof fn lemma_cooldown(w: Weapon, dts: Seq<u64>)
    ensures
        !w.fired().ready(),
        w.fired().after_updates(dts).ready() <==> total(dts) >= RELOAD_TICKS,
{
    lemma_timer_after_updates(w.fired(), dts);
}

proof fn lemma_follow_closer(o: int, t: int)
    ensures
        abs(t - follow(o, t)) <= abs(t - o),
        abs(t - follow(o, t)) * abs(t - follow(o, t)) <= abs(t - o) * abs(t - o),
        o != t ==> abs(t - follow(o, t)) * abs(t - follow(o, t)) < abs(t - o) * abs(t - o),
        o <= t ==> o <= follow(o, t) <= t,
        t <= o ==> t <= follow(o, t) <= o,
{
    let a = abs(t - follow(o, t));
    let b = abs(t - o);
    assert(0 <= a <= b);
    assert(a * a <= b * b) by (nonlinear_arith)
        requires
            0 <= a <= b,
    ;
    if o != t {
        assert(a < b);
        assert(a * a < b * b) by (nonlinear_arith)
            requires
                0 <= a < b,
        ;
    }
}

/// Each update brings the recoil offset no further from the target it eased towards, in
/// every component and in euclidean distance, and strictly nearer while it is not on the
/// target; the new target is that same target, or rest once the offset has come within the
/// epsilon of it. A target at rest stays at rest, so the offset then eases back to rest.
pub proof fn lemma_recoil_converges(w: Weapon, dt: u64)
    requires
        w.wf(),
    ensures
        ({
            let n = w.updated(dt);
            let t = w.recoil_target_offset;
            &&& abs(t.x - n.recoil_offset.x) <= abs(t.x - w.recoil_offset.x)
            &&& abs(t.y - n.recoil_offset.y) <= abs(t.y - w.recoil_offset.y)
            &&& abs(t.z - n.recoil_offset.z) <= abs(t.z - w.recoil_offset.z)
            &&& sq_dist(n.recoil_offset, t) <= sq_dist(w.recoil_offset, t)
            &&& w.recoil_offset != t ==> sq_dist(n.recoil_offset, t) < sq_dist(w.recoil_offset, t)
            &&& t == rest() ==> n.recoil_target_offset == rest()
            &&& n.recoil_target_offset == (if sq_dist(n.recoil_offset, t) < RECOIL_EPSILON
                * RECOIL_EPSILON {
                rest()
            } else {
                t
            })
            &&& n.wf()
        }),
{
    let t = w.recoil_target_offset;
    let o = w.recoil_offset;
    lemma_follow_closer(o.x as int, t.x as int);
    lemma_follow_closer(o.y as int, t.y as int);
    lemma_follow_closer(o.z as int, t.z as int);
    let n = w.updated(dt);
    assert((n.recoil_offset.x - t.x) * (n.recoil_offset.x - t.x) == abs(
        t.x - n.recoil_offset.x,
    ) * abs(t.x - n.recoil_offset.x)) by (nonlinear_arith);
    assert((n.recoil_offset.y - t.y) * (n.recoil_offset.y - t.y) == abs(
        t.y - n.recoil_offset.y,
    ) * abs(t.y - n.recoil_offset.y)) by (nonlinear_arith);
    assert((n.recoil_offset.z - t.z) * (n.recoil_offset.z - t.z) == abs(
        t.z - n.recoil_offset.z,
    ) * abs(t.z - n.recoil_offset.z)) by (nonlinear_arith);
    assert((o.x - t.x) * (o.x - t.x) == abs(t.x - o.x) * abs(t.x - o.x)) by (nonlinear_arith);
    assert((o.y - t.y) * (o.y - t.y) == abs(t.y - o.y) * abs(t.y - o.y)) by (nonlinear_arith);
    assert((o.z - t.z) * (o.z - t.z) == abs(t.z - o.z) * abs(t.z - o.z)) by (nonlinear_arith);
}

} // verus!
