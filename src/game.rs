use vstd::prelude::*;

use crate::geometry::{abs, within, Vec3, UNIT};
use crate::arena::{no_weapons, pool_get, pool_new, pool_put, pool_spawn, slots_of, weapons_in};
use crate::message::{Message, MessageQueue};
use crate::player::{MovementCommand, Player, SPEED_LIMIT};
use crate::weapon::Weapon;
use rg3d_core::pool::{Handle, Pool};

verus! {

/// The weapons of a game, each addressed by the handle that `spawn` gave it, kept in
/// rg3d's pool; `handles` lists the live handles in the order they were given.
pub struct WeaponPool {
    pool: Pool<Weapon>,
    handles: Vec<Handle<Weapon>>,
}

/// Every weapon is well formed.
pub open spec fn all_wf(ws: Map<Handle<Weapon>, Weapon>) -> bool {
    forall|h: Handle<Weapon>| #[trigger] ws.contains_key(h) ==> ws[h].wf()
}

/// The weapon that `h` addresses exists and is ready to fire.
pub open spec fn fires(ws: Map<Handle<Weapon>, Weapon>, h: Handle<Weapon>) -> bool {
    ws.contains_key(h) && ws[h].ready()
}

/// The weapons after a shot request for `h`: the addressed weapon fires if it can,
/// otherwise nothing changes.
pub open spec fn after_request(ws: Map<Handle<Weapon>, Weapon>, h: Handle<Weapon>) -> Map<
    Handle<Weapon>,
    Weapon,
> {
    if fires(ws, h) {
        ws.insert(h, ws[h].fired())
    } else {
        ws
    }
}

pub open spec fn target(m: Message) -> Handle<Weapon> {
    match m {
        Message::ShootWeapon { weapon } => weapon,
    }
}

/// The weapons after handling `msgs` in order.
pub open spec fn after_messages(ws: Map<Handle<Weapon>, Weapon>, msgs: Seq<Message>) -> Map<
    Handle<Weapon>,
    Weapon,
>
    decreases msgs.len(),
{
    if msgs.len() == 0 {
        ws
    } else {
        after_request(after_messages(ws, msgs.drop_last()), target(msgs.last()))
    }
}

/// The weapons that fire while `msgs` are handled in order, in the order they fire.
pub open spec fn fired_by(ws: Map<Handle<Weapon>, Weapon>, msgs: Seq<Message>) -> Seq<
    Handle<Weapon>,
>
    decreases msgs.len(),
{
    if msgs.len() == 0 {
        Seq::empty()
    } else {
        let before = fired_by(ws, msgs.drop_last());
        if fires(after_messages(ws, msgs.drop_last()), target(msgs.last())) {
            before.push(target(msgs.last()))
        } else {
            before
        }
    }
}

/// Every weapon after one update of `dt` ticks.
pub open spec fn all_updated(ws: Map<Handle<Weapon>, Weapon>, dt: u64) -> Map<
    Handle<Weapon>,
    Weapon,
> {
    ws.map_values(|w: Weapon| w.updated(dt))
}

impl WeaponPool {
    /// The live weapons, by handle.
    pub closed spec fn contents(&self) -> Map<Handle<Weapon>, Weapon> {
        weapons_in(self.pool)
    }

    /// The live handles, in the order they were given.
    pub closed spec fn order(&self) -> Seq<Handle<Weapon>> {
        self.handles@
    }

    pub closed spec fn wf(&self) -> bool {
        &&& all_wf(self.contents())
        &&& self.order().no_duplicates()
        &&& forall|h: Handle<Weapon>| #[trigger]
            self.contents().contains_key(h) <==> self.order().contains(h)
        &&& slots_of(self.pool) <= self.order().len()
    }

    pub fn new() -> (r: WeaponPool)
        ensures
            r.contents() == no_weapons(),
            r.order() == Seq::<Handle<Weapon>>::empty(),
            r.wf(),
    {
        WeaponPool { pool: pool_new(), handles: Vec::new() }
    }

    pub fn len(&self) -> (r: usize)
        ensures
            r == self.order().len(),
    {
        self.handles.len()
    }

    /// The handle given `i`-th, among those live.
    pub fn handle_at(&self, i: usize) -> (r: Option<Handle<Weapon>>)
        ensures
            i < self.order().len() ==> r == Some(self.order()[i as int]),
            i >= self.order().len() ==> r.is_none(),
    {
        if i < self.handles.len() {
            Some(self.handles[i])
        } else {
            None
        }
    }

    /// Adds `weapon` and returns its handle: one that addressed no weapon before. Fails
    /// where the pool has no slot index left.
    pub fn spawn(&mut self, weapon: Weapon) -> (r: Option<Handle<Weapon>>)
        requires
            old(self).wf(),
            weapon.wf(),
        ensures
            final(self).wf(),
            old(self).order().len() + 1 < u32::MAX ==> r is Some,
            r matches Some(h) ==> {
                &&& !old(self).contents().contains_key(h)
                &&& final(self).contents() == old(self).contents().insert(h, weapon)
                &&& final(self).order() == old(self).order().push(h)
            },
            r.is_none() ==> final(self).contents() == old(self).contents() && final(self).order()
                == old(self).order(),
    {
        if self.handles.len() as u64 >= u32::MAX as u64 - 1 {
            return None;
        }
        let h = pool_spawn(&mut self.pool, weapon);
        self.handles.push(h);
        proof {
            assert forall|k: Handle<Weapon>| #[trigger]
                self.contents().contains_key(k) <==> self.order().contains(k) by {
                if k != h {
                    if old(self).order().contains(k) {
                        let j = choose|j: int| 0 <= j < old(self).order().len() && old(self).order()[j] == k;
                        assert(self.order()[j] == k);
                    }
                    if self.order().contains(k) {
                        let j = choose|j: int| 0 <= j < self.order().len() && self.order()[j] == k;
                        assert(old(self).order()[j] == k);
                    }
                } else {
                    assert(self.order()[self.order().len() - 1] == h);
                }
            }
        }
        Some(h)
    }

    /// The weapon that `h` addresses, if it is live.
    pub fn get(&self, h: Handle<Weapon>) -> (r: Option<Weapon>)
        ensures
            self.contents().contains_key(h) ==> r == Some(self.contents()[h]),
            !self.contents().contains_key(h) ==> r.is_none(),
    {
        pool_get(&self.pool, h)
    }

    fn update_all(&mut self, dt: u64)
        requires
            old(self).wf(),
        ensures
            final(self).wf(),
            final(self).contents() == all_updated(old(self).contents(), dt),
            final(self).order() == old(self).order(),
    {
        let ghost start = self.contents();
        let ghost order = self.order();
        let mut i: usize = 0;
        while i < self.handles.len()
            invariant
                i <= order.len(),
                self.order() == order,
                order.no_duplicates(),
                forall|h: Handle<Weapon>| #[trigger] start.contains_key(h) <==> order.contains(h),
                all_wf(start),
                slots_of(self.pool) <= order.len(),
                self.contents().dom() == start.dom(),
                all_wf(self.contents()),
                forall|j: int| 0 <= j < i ==> self.contents()[#[trigger] order[j]] == start[order[j]].updated(dt),
                forall|j: int| i <= j < order.len() ==> self.contents()[#[trigger] order[j]] == start[order[j]],
            decreases order.len() - i,
        {
            let h = self.handles[i];
            assert(order.contains(h));
            if let Some(w) = pool_get(&self.pool, h) {
                let mut w = w;
                w.update(dt);
                pool_put(&mut self.pool, h, w);
                assert(self.contents().dom() =~= start.dom());
                assert forall|j: int| 0 <= j < order.len() && j != i implies order[j] != h by {}
            }
            i = i + 1;
        }
        assert forall|h: Handle<Weapon>| start.contains_key(h) implies self.contents()[h]
            == start[h].updated(dt) by {
            let j = choose|j: int| 0 <= j < order.len() && order[j] == h;
            assert(self.contents()[order[j]] == start[order[j]].updated(dt));
        }
        assert(self.contents() =~= all_updated(start, dt));
    }

    /// Fires the weapon that `h` addresses if it is live and ready; says whether it fired.
    pub fn shoot_weapon(&mut self, h: Handle<Weapon>) -> (r: bool)
        requires
            old(self).wf(),
        ensures
            final(self).wf(),
            r == fires(old(self).contents(), h),
            final(self).contents() == after_request(old(self).contents(), h),
            final(self).order() == old(self).order(),
    {
        if let Some(w) = pool_get(&self.pool, h) {
            if w.can_shoot() {
                let mut w = w;
                w.shoot();
                pool_put(&mut self.pool, h, w);
                assert(self.contents().dom() =~= old(self).contents().dom());
                return true;
            }
        }
        false
    }
}

/// What one simulation step asks of the world outside the game's state.
pub struct StepReport {
    /// Velocity and orientation for the player's body and camera.
    pub movement: MovementCommand,
    /// New local position of each weapon's model, in the pool's order.
    pub recoil: Vec<(Handle<Weapon>, Vec3)>,
    /// The weapons that fired this step, in order: each needs its ray cast.
    pub fired: Vec<Handle<Weapon>>,
}

/// The game state: the player, the weapons and the queue of messages between them.
pub struct Game {
    pub player: Player,
    pub weapons: WeaponPool,
    pub queue: MessageQueue,
}

impl Game {
    pub open spec fn wf(&self) -> bool {
        self.player.wf() && self.weapons.wf()
    }

    /// A game whose only weapon is `weapon`, equipped by `player`.
    pub fn new(player: Player, weapon: Weapon) -> (r: Game)
        requires
            player.wf(),
            weapon.wf(),
        ensures
            r.wf(),
            r.weapons.contents() == no_weapons().insert(r.player.weapon, weapon),
            r.weapons.order() == seq![r.player.weapon],
            r.player == (Player { weapon: r.player.weapon, ..player }),
            r.queue@ == Seq::<Message>::empty(),
    {
        let mut weapons = WeaponPool::new();
        let mut player = player;
        if let Some(h) = weapons.spawn(weapon) {
            player.weapon = h;
        }
        assert(weapons.order() =~= seq![player.weapon]);
        Game { player, weapons, queue: MessageQueue::new() }
    }

    /// One simulation step of `dt` ticks: the player moves and may request a shot, every
    /// weapon cools down and eases its recoil, then every queued message is handled in
    /// order of posting. `vertical_speed`, `look` and `side` are read from the player's body
    /// and pivot.
    pub fn update(&mut self, dt: u64, vertical_speed: i64, look: Vec3, side: Vec3) -> (r:
        StepReport)
        requires
            old(self).wf(),
            abs(vertical_speed as int) <= SPEED_LIMIT,
            within(look, UNIT as int),
            within(side, UNIT as int),
        ensures
            final(self).wf(),
            final(self).player == old(self).player,
            r.movement.velocity == old(self).player.controller.velocity(
                vertical_speed as int,
                look,
                side,
            ),
            r.movement.yaw == old(self).player.controller.yaw,
            r.movement.pitch == old(self).player.controller.pitch,
            final(self).weapons.order() == old(self).weapons.order(),
            ({
                let msgs = if old(self).player.controller.shoot {
                    old(self).queue@.push(Message::ShootWeapon { weapon: old(self).player.weapon })
                } else {
                    old(self).queue@
                };
                let ws = all_updated(old(self).weapons.contents(), dt);
                &&& r.recoil@ == old(self).weapons.order().map_values(
                    |h: Handle<Weapon>| (h, ws[h].recoil_offset),
                )
                &&& final(self).weapons.contents() == after_messages(ws, msgs)
                &&& r.fired@ == fired_by(ws, msgs)
            }),
            final(self).queue@ == Seq::<Message>::empty(),
    {
        let movement = self.player.update(vertical_speed, look, side, &mut self.queue);
        self.weapons.update_all(dt);
        let ghost ws = self.weapons.contents();
        let ghost order = self.weapons.order();
        let mut recoil: Vec<(Handle<Weapon>, Vec3)> = Vec::new();
        let mut i: usize = 0;
        while i < self.weapons.len()
            invariant
                i <= order.len(),
                self.weapons.contents() == ws,
                self.weapons.order() == order,
                self.weapons.wf(),
                self.player == old(self).player,
                recoil@ == order.subrange(0, i as int).map_values(
                    |h: Handle<Weapon>| (h, ws[h].recoil_offset),
                ),
            decreases order.len() - i,
        {
            if let Some(h) = self.weapons.handle_at(i) {
                assert(order.contains(h));
                if let Some(w) = self.weapons.get(h) {
                    recoil.push((h, w.recoil_offset));
                }
            }
            assert(order.subrange(0, i + 1).map_values(|h: Handle<Weapon>| (h, ws[h].recoil_offset))
                =~= order.subrange(0, i as int).map_values(
                |h: Handle<Weapon>| (h, ws[h].recoil_offset),
            ).push((order[i as int], ws[order[i as int]].recoil_offset)));
            i = i + 1;
        }
        assert(order.subrange(0, i as int) =~= order);
        let msgs = self.queue.drain();
        let mut fired: Vec<Handle<Weapon>> = Vec::new();
        let mut k: usize = 0;
        while k < msgs.len()
            invariant
                k <= msgs@.len(),
                self.weapons.wf(),
                self.player == old(self).player,
                self.queue@ == Seq::<Message>::empty(),
                self.weapons.order() == order,
                self.weapons.contents() == after_messages(ws, msgs@.subrange(0, k as int)),
                fired@ == fired_by(ws, msgs@.subrange(0, k as int)),
            decreases msgs@.len() - k,
        {
            let ghost prefix = msgs@.subrange(0, k + 1);
            assert(prefix.drop_last() =~= msgs@.subrange(0, k as int));
            let h = match msgs[k] {
                Message::ShootWeapon { weapon } => weapon,
            };
            if self.weapons.shoot_weapon(h) {
                fired.push(h);
            }
            k = k + 1;
        }
        assert(msgs@.subrange(0, k as int) =~= msgs@);
        StepReport { movement, recoil, fired }
    }
}

} // verus!
