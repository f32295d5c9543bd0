use shooter::clock::{FixedStepClock, TIMESTEP};
use shooter::game::{Game, WeaponPool};
use shooter::geometry::Vec3;
use rg3d_core::pool::Handle;
use shooter::handle::{BodyHandle, ColliderHandle, NodeHandle};
use shooter::message::{Message, MessageQueue};
use shooter::player::{InputEvent, MoveKey, Player, PITCH_LIMIT};
use shooter::shot::{
    closest_hit, impact_orientation, resolve_shot, ImpactOrientation, Intersection, Ray,
    RAY_LENGTH,
};
use shooter::weapon::{Weapon, RECOIL_KICK_Y, RECOIL_KICK_Z, RELOAD_TICKS};

fn node(i: u32) -> NodeHandle {
    NodeHandle::new(i, 1)
}

fn slot(index: u32) -> Handle<Weapon> {
    Handle::new(index, 1)
}

fn weapon() -> Weapon {
    Weapon::new(node(10), node(11))
}

fn player() -> Player {
    Player::new(
        node(1),
        node(2),
        node(3),
        slot(0),
        BodyHandle::new(4, 1),
        ColliderHandle::new(5, 1),
    )
}

fn hit(collider: u64, distance: u64) -> Intersection {
    Intersection {
        collider: ColliderHandle::new(collider, 1),
        position: Vec3::new(0, 0, distance as i64),
        normal: Vec3::new(0, 0, -1_000_000),
        distance,
    }
}

fn ray() -> Ray {
    Ray::new(Vec3::new(0, 0, 0), Vec3::new(0, 0, 1_000_000_000), RAY_LENGTH)
}

#[test]
fn shoot_blocks_until_reload_elapsed() {
    let mut w = weapon();
    assert!(w.can_shoot());
    w.shoot();
    assert!(!w.can_shoot());
    w.update(RELOAD_TICKS - 1);
    assert!(!w.can_shoot());
    w.update(1);
    assert!(w.can_shoot());
}

#[test]
fn cooldown_needs_six_fixed_steps() {
    let mut w = weapon();
    w.shoot();
    for _ in 0..5 {
        w.update(TIMESTEP);
        assert!(!w.can_shoot());
    }
    w.update(TIMESTEP);
    assert!(w.can_shoot());
    w.update(TIMESTEP);
    assert_eq!(w.shot_timer, 0);
}

#[test]
fn recoil_halves_distance_then_returns_to_rest() {
    let mut w = weapon();
    w.shoot();
    let p = w.update(TIMESTEP);
    assert_eq!(p, Vec3::new(0, RECOIL_KICK_Y / 2, RECOIL_KICK_Z / 2));
    assert_eq!(w.recoil_offset, p);
    let target = Vec3::new(0, RECOIL_KICK_Y, RECOIL_KICK_Z);
    let mut before = w.recoil_offset.sq_distance(&target);
    let mut steps = 0;
    while w.recoil_target_offset == target {
        w.update(TIMESTEP);
        let after = w.recoil_offset.sq_distance(&target);
        assert!(after <= before);
        before = after;
        steps += 1;
        assert!(steps < 100);
    }
    assert_eq!(w.recoil_target_offset, Vec3::zero());
    let rest = Vec3::zero();
    let mut d = w.recoil_offset.sq_distance(&rest);
    for _ in 0..60 {
        w.update(TIMESTEP);
        let e = w.recoil_offset.sq_distance(&rest);
        assert!(e <= d);
        d = e;
    }
    assert_eq!(w.recoil_offset, Vec3::zero());
}

#[test]
fn closest_qualifying_hit_skips_own_collider() {
    let hits = vec![hit(7, 5_000_000), hit(5, 1_000_000), hit(8, 3_000_000)];
    let own = ColliderHandle::new(5, 1);
    assert_eq!(closest_hit(&hits, own), Some(2));
    let r = ray();
    let out = resolve_shot(&r, &hits, own);
    let impact = out.impact.unwrap();
    assert_eq!(impact.collider, ColliderHandle::new(8, 1));
    assert_eq!(impact.point, Vec3::new(0, 0, 3_000_000));
    assert_eq!(impact.push_direction, r.dir);
    assert_eq!(out.trail.length, 3_000_000);
    assert_eq!(out.trail.origin, r.origin);
    assert_eq!(out.trail.direction, r.dir);
}

#[test]
fn equal_distances_take_the_first() {
    let hits = vec![hit(7, 2_000), hit(8, 2_000)];
    assert_eq!(closest_hit(&hits, ColliderHandle::new(5, 1)), Some(0));
}

#[test]
fn miss_trail_spans_the_whole_ray() {
    let hits: Vec<Intersection> = Vec::new();
    let r = ray();
    let out = resolve_shot(&r, &hits, ColliderHandle::new(5, 1));
    assert!(out.impact.is_none());
    assert_eq!(out.trail.length, RAY_LENGTH);
}

#[test]
fn only_own_collider_is_a_miss() {
    let hits = vec![hit(5, 1_000)];
    let out = resolve_shot(&ray(), &hits, ColliderHandle::new(5, 1));
    assert!(out.impact.is_none());
    assert_eq!(out.trail.length, RAY_LENGTH);
}

#[test]
fn impact_orientation_on_floor_and_wall() {
    assert_eq!(impact_orientation(Vec3::new(0, 1_000_000, 0)), ImpactOrientation::Upright);
    assert_eq!(impact_orientation(Vec3::new(0, -1_000_000, 0)), ImpactOrientation::Upright);
    assert_eq!(impact_orientation(Vec3::new(1_000_000, 0, 0)), ImpactOrientation::FacingNormal);
    let mut hits = vec![hit(9, 10)];
    hits[0].normal = Vec3::new(0, 1_000_000, 0);
    let out = resolve_shot(&ray(), &hits, ColliderHandle::new(5, 1));
    assert_eq!(out.impact.unwrap().orientation, ImpactOrientation::Upright);
}

#[test]
fn messages_are_received_in_order_once() {
    let mut q = MessageQueue::new();
    for i in 0..5u32 {
        q.send(Message::ShootWeapon { weapon: slot(i) });
    }
    assert_eq!(q.try_recv(), Some(Message::ShootWeapon { weapon: slot(0) }));
    q.send(Message::ShootWeapon { weapon: slot(5) });
    let rest = q.drain();
    let expected: Vec<Message> =
        (1..6u32).map(|i| Message::ShootWeapon { weapon: slot(i) }).collect();
    assert_eq!(rest, expected);
    assert_eq!(q.len(), 0);
    assert_eq!(q.try_recv(), None);
}

#[test]
fn clock_runs_whole_steps_only() {
    let mut c = FixedStepClock::new();
    assert_eq!(c.advance(3 * TIMESTEP), 3);
    assert_eq!(c.elapsed, 3 * TIMESTEP);
    assert_eq!(c.advance(3 * TIMESTEP + TIMESTEP / 2), 0);
    assert_eq!(c.advance(4 * TIMESTEP + TIMESTEP / 2), 1);
    assert_eq!(c.elapsed, 4 * TIMESTEP);
    assert_eq!(c.advance(0), 0);
    assert_eq!(c.elapsed, 4 * TIMESTEP);
}

#[test]
fn clock_after_stall_catches_up() {
    let mut c = FixedStepClock::new();
    assert_eq!(c.advance(250 * TIMESTEP), 250);
}

#[test]
fn opposed_keys_cancel() {
    let mut p = player();
    let mut q = MessageQueue::new();
    let look = Vec3::new(0, 0, 1_000_000);
    let side = Vec3::new(1_000_000, 0, 0);
    p.process_input_event(&InputEvent::Key { key: MoveKey::Forward, pressed: true });
    p.process_input_event(&InputEvent::Key { key: MoveKey::Backward, pressed: true });
    let m = p.update(-3_000, look, side, &mut q);
    assert_eq!(m.velocity, Vec3::new(0, -3_000, 0));
    p.process_input_event(&InputEvent::Key { key: MoveKey::Backward, pressed: false });
    p.process_input_event(&InputEvent::Key { key: MoveKey::Right, pressed: true });
    let m = p.update(0, look, side, &mut q);
    assert_eq!(m.velocity, Vec3::new(-1_000_000, 0, 1_000_000));
    assert_eq!(q.len(), 0);
}

#[test]
fn mouse_motion_turns_and_clamps_pitch() {
    let mut p = player();
    p.process_input_event(&InputEvent::MouseMotion { dx: 5_000, dy: 60_000 });
    assert_eq!(p.controller.yaw, -5_000);
    assert_eq!(p.controller.pitch, 60_000);
    p.process_input_event(&InputEvent::MouseMotion { dx: -2_000, dy: 60_000 });
    assert_eq!(p.controller.yaw, -3_000);
    assert_eq!(p.controller.pitch, PITCH_LIMIT);
    p.process_input_event(&InputEvent::MouseMotion { dx: 0, dy: -500_000 });
    assert_eq!(p.controller.pitch, -PITCH_LIMIT);
    let m = p.update(0, Vec3::zero(), Vec3::zero(), &mut MessageQueue::new());
    assert_eq!(m.pitch, -PITCH_LIMIT);
    assert_eq!(m.yaw, -3_000);
}

#[test]
fn yaw_saturates_at_the_extremes() {
    let mut p = player();
    p.controller.yaw = i64::MIN + 10;
    p.process_input_event(&InputEvent::MouseMotion { dx: 100, dy: 0 });
    assert_eq!(p.controller.yaw, i64::MIN);
}

#[test]
fn holding_fire_posts_one_message_per_step() {
    let mut p = player();
    let mut q = MessageQueue::new();
    p.process_input_event(&InputEvent::FireButton { pressed: true });
    p.update(0, Vec3::zero(), Vec3::zero(), &mut q);
    p.update(0, Vec3::zero(), Vec3::zero(), &mut q);
    assert_eq!(q.len(), 2);
    p.process_input_event(&InputEvent::FireButton { pressed: false });
    p.update(0, Vec3::zero(), Vec3::zero(), &mut q);
    assert_eq!(q.len(), 2);
}

#[test]
fn game_fires_at_the_cooldown_rate() {
    let mut g = Game::new(player(), weapon());
    g.player.process_input_event(&InputEvent::FireButton { pressed: true });
    let mut shots = 0;
    for step in 0..13 {
        let r = g.update(TIMESTEP, 0, Vec3::zero(), Vec3::zero());
        assert_eq!(r.recoil.len(), 1);
        if step % 6 == 0 {
            assert_eq!(r.fired, vec![slot(0)]);
        } else {
            assert!(r.fired.is_empty());
        }
        shots += r.fired.len();
        assert_eq!(g.queue.len(), 0);
    }
    assert_eq!(shots, 3);
}

#[test]
fn queued_requests_fire_once_while_cooling() {
    let mut g = Game::new(player(), weapon());
    for _ in 0..3 {
        g.queue.send(Message::ShootWeapon { weapon: slot(0) });
    }
    g.queue.send(Message::ShootWeapon { weapon: slot(7) });
    let r = g.update(TIMESTEP, 0, Vec3::zero(), Vec3::zero());
    assert_eq!(r.fired, vec![slot(0)]);
    let w = g.weapons.get(slot(0)).unwrap();
    assert_eq!(w.shot_timer, RELOAD_TICKS);
    assert_eq!(r.recoil, vec![(slot(0), Vec3::zero())]);
}

#[test]
fn pool_hands_out_sequential_handles() {
    let mut pool = WeaponPool::new();
    assert_eq!(pool.spawn(weapon()), Some(slot(0)));
    assert_eq!(pool.spawn(weapon()), Some(slot(1)));
    assert_eq!(pool.len(), 2);
    assert_eq!(pool.handle_at(1), Some(slot(1)));
    assert_eq!(pool.handle_at(2), None);
    assert!(pool.get(slot(2)).is_none());
    assert!(pool.shoot_weapon(slot(1)));
    assert!(!pool.shoot_weapon(slot(1)));
    assert!(pool.get(slot(0)).unwrap().can_shoot());
    assert!(!pool.shoot_weapon(slot(9)));
    assert!(!pool.shoot_weapon(Handle::new(0, 2)));
}

#[test]
fn step_reports_recoil_after_a_shot() {
    let mut g = Game::new(player(), weapon());
    g.queue.send(Message::ShootWeapon { weapon: slot(0) });
    let first = g.update(TIMESTEP, 0, Vec3::zero(), Vec3::zero());
    assert_eq!(first.recoil, vec![(slot(0), Vec3::zero())]);
    let second = g.update(TIMESTEP, 0, Vec3::zero(), Vec3::zero());
    assert_eq!(second.recoil, vec![(slot(0), Vec3::new(0, 3_125, -12_500))]);
    assert!(second.fired.is_empty());
    assert_eq!(g.weapons.get(slot(0)).unwrap().shot_timer, RELOAD_TICKS - TIMESTEP);
}
