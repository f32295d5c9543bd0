use vstd::prelude::*;

use crate::geometry::{abs, within, Vec3, UNIT};
use crate::handle::{BodyHandle, ColliderHandle, NodeHandle};
use crate::message::{Message, MessageQueue};
use crate::weapon::Weapon;
use rg3d_core::pool::Handle;

verus! {

/// Pitch may not leave `[-PITCH_LIMIT, PITCH_LIMIT]`, in thousandths of a degree.
pub const PITCH_LIMIT: i64 = 90_000;

/// Vertical speeds beyond this cannot be carried through a movement step.
pub const SPEED_LIMIT: i64 = 0x4000_0000_0000_0000;

/// A movement control.
#[derive(Clone, Copy, Debug, PartialEq, Eq, Structural)]
pub enum MoveKey {
    Forward,
    Backward,
    Left,
    Right,
}

/// A raw input event, as far as the controller reads it. Angles are in thousandths of a
/// degree.
#[derive(Clone, Copy, Debug, PartialEq, Eq, Structural)]
pub enum InputEvent {
    Key { key: MoveKey, pressed: bool },
    FireButton { pressed: bool },
    MouseMotion { dx: i32, dy: i32 },
}

/// The input state that a simulation step reads. Angles are in thousandths of a degree.
#[derive(Clone, Copy, Debug, PartialEq, Eq, Structural)]
pub struct InputController {
    pub move_forward: bool,
    pub move_backward: bool,
    pub move_left: bool,
    pub move_right: bool,
    pub pitch: i64,
    pub yaw: i64,
    pub shoot: bool,
}

pub open spec fn clamp(v: int, lo: int, hi: int) -> int {
    if v < lo {
        lo
    } else if v > hi {
        hi
    } else {
        v
    }
}

/// Contribution of a pair of opposed controls to one component: `c` for `plus`, minus `c`
/// for `minus`.
pub open spec fn along(plus: bool, minus: bool, c: int) -> int {
    (if plus {
        c
    } else {
        0
    }) - (if minus {
        c
    } else {
        0
    })
}

/// No control held, looking straight ahead.
pub open spec fn idle() -> InputController {
    InputController {
        move_forward: false,
        move_backward: false,
        move_left: false,
        move_right: false,
        pitch: 0,
        yaw: 0,
        shoot: false,
    }
}

impl InputController {
    pub open spec fn wf(self) -> bool {
        -PITCH_LIMIT <= self.pitch <= PITCH_LIMIT
    }

    /// The controller after `e`.
    pub open spec fn after_event(self, e: InputEvent) -> InputController {
        match e {
            InputEvent::Key { key, pressed } => match key {
                MoveKey::Forward => InputController { move_forward: pressed, ..self },
                MoveKey::Backward => InputController { move_backward: pressed, ..self },
                MoveKey::Left => InputController { move_left: pressed, ..self },
                MoveKey::Right => InputController { move_right: pressed, ..self },
            },
            InputEvent::FireButton { pressed } => InputController { shoot: pressed, ..self },
            InputEvent::MouseMotion { dx, dy } => InputController {
                yaw: clamp(self.yaw - dx, i64::MIN as int, i64::MAX as int) as i64,
                pitch: clamp(self.pitch + dy, -PITCH_LIMIT as int, PITCH_LIMIT as int) as i64,
                ..self
            },
        }
    }

    /// Velocity that the controls ask of a body moving vertically at `vy`, for a pivot
    /// whose forward and side directions are `look` and `side`.
    pub open spec fn velocity(self, vy: int, look: Vec3, side: Vec3) -> Vec3 {
        Vec3 {
            x: (along(self.move_forward, self.move_backward, look.x as int) + along(
                self.move_left,
                self.move_right,
                side.x as int,
            )) as i64,
            y: (vy + along(self.move_forward, self.move_backward, look.y as int) + along(
                self.move_left,
                self.move_right,
                side.y as int,
            )) as i64,
            z: (along(self.move_forward, self.move_backward, look.z as int) + along(
                self.move_left,
                self.move_right,
                side.z as int,
            )) as i64,
        }
    }

    /// No control held, looking straight ahead.
    pub fn new() -> (r: InputController)
        ensures
            r.wf(),
            r == idle(),
    {
        InputController {
            move_forward: false,
            move_backward: false,
            move_left: false,
            move_right: false,
            pitch: 0,
            yaw: 0,
            shoot: false,
        }
    }
}

/// What a step asks of the player's body and camera.
#[derive(Clone, Copy, Debug, PartialEq, Eq, Structural)]
pub struct MovementCommand {
    /// Linear velocity of the body, in micro-units per second.
    pub velocity: Vec3,
    /// Rotation of the body about world-up, in thousandths of a degree.
    pub yaw: i64,
    /// Rotation of the camera about its side axis, in thousandths of a degree.
    pub pitch: i64,
}

/// The player: scene nodes, physics body, equipped weapon and input state.
#[derive(Clone, Copy, Debug, PartialEq, Eq)]
pub struct Player {
    pub pivot: NodeHandle,
    pub camera: NodeHandle,
    pub weapon_pivot: NodeHandle,
    pub weapon: Handle<Weapon>,
    pub rigid_body: BodyHandle,
    pub collider: ColliderHandle,
    pub controller: InputController,
}

fn turn(yaw: i64, dx: i32) -> (r: i64)
    ensures
        r == clamp(yaw - dx, i64::MIN as int, i64::MAX as int),
{
    let d = dx as i64;
    if d >= 0 {
        if yaw >= i64::MIN + d {
            yaw - d
        } else {
            i64::MIN
        }
    } else {
        if yaw <= i64::MAX + d {
            yaw - d
        } else {
            i64::MAX
        }
    }
}

fn tilt(pitch: i64, dy: i32) -> (r: i64)
    requires
        -PITCH_LIMIT <= pitch <= PITCH_LIMIT,
    ensures
        r == clamp(pitch + dy, -PITCH_LIMIT as int, PITCH_LIMIT as int),
{
    let p = pitch + dy as i64;
    if p < -PITCH_LIMIT {
        -PITCH_LIMIT
    } else if p > PITCH_LIMIT {
        PITCH_LIMIT
    } else {
        p
    }
}

fn shifted_by(a: Vec3, b: Vec3) -> (r: Vec3)
    requires
        abs(a.x as int) <= SPEED_LIMIT + 2 * UNIT,
        abs(a.y as int) <= SPEED_LIMIT + 2 * UNIT,
        abs(a.z as int) <= SPEED_LIMIT + 2 * UNIT,
        within(b, UNIT as int),
    ensures
        r == (Vec3 { x: (a.x + b.x) as i64, y: (a.y + b.y) as i64, z: (a.z + b.z) as i64 }),
{
    Vec3 { x: a.x + b.x, y: a.y + b.y, z: a.z + b.z }
}

fn shifted_against(a: Vec3, b: Vec3) -> (r: Vec3)
    requires
        abs(a.x as int) <= SPEED_LIMIT + 2 * UNIT,
        abs(a.y as int) <= SPEED_LIMIT + 2 * UNIT,
        abs(a.z as int) <= SPEED_LIMIT + 2 * UNIT,
        within(b, UNIT as int),
    ensures
        r == (Vec3 { x: (a.x - b.x) as i64, y: (a.y - b.y) as i64, z: (a.z - b.z) as i64 }),
{
    Vec3 { x: a.x - b.x, y: a.y - b.y, z: a.z - b.z }
}

impl Player {
    pub open spec fn wf(self) -> bool {
        self.controller.wf()
    }

    pub fn new(
        pivot: NodeHandle,
        camera: NodeHandle,
        weapon_pivot: NodeHandle,
        weapon: Handle<Weapon>,
        rigid_body: BodyHandle,
        collider: ColliderHandle,
    ) -> (r: Player)
        ensures
            r.wf(),
            r == (Player {
                pivot,
                camera,
                weapon_pivot,
                weapon,
                rigid_body,
                collider,
                controller: idle(),
            }),
    {
        Player {
            pivot,
            camera,
            weapon_pivot,
            weapon,
            rigid_body,
            collider,
            controller: InputController::new(),
        }
    }

    /// One simulation step: the movement that the controls ask for, keeping the body's
    /// vertical speed `vertical_speed`, with `look` and `side` the pivot's forward and side
    /// directions (unit vectors); and, while fire is held, one shot request for the
    /// equipped weapon.
    pub fn update(
        &self,
        vertical_speed: i64,
        look: Vec3,
        side: Vec3,
        bus: &mut MessageQueue,
    ) -> (r: MovementCommand)
        requires
            abs(vertical_speed as int) <= SPEED_LIMIT,
            within(look, UNIT as int),
            within(side, UNIT as int),
        ensures
            r.velocity == self.controller.velocity(vertical_speed as int, look, side),
            r.yaw == self.controller.yaw,
            r.pitch == self.controller.pitch,
            final(bus)@ == (if self.controller.shoot {
                old(bus)@.push(Message::ShootWeapon { weapon: self.weapon })
            } else {
                old(bus)@
            }),
    {
        let c = &self.controller;
        let mut velocity = Vec3::new(0, vertical_speed, 0);
        if c.move_forward {
            velocity = shifted_by(velocity, look);
        }
        if c.move_backward {
            velocity = shifted_against(velocity, look);
        }
        if c.move_left {
            velocity = shifted_by(velocity, side);
        }
        if c.move_right {
            velocity = shifted_against(velocity, side);
        }
        if c.shoot {
            bus.send(Message::ShootWeapon { weapon: self.weapon });
        }
        MovementCommand { velocity, yaw: c.yaw, pitch: c.pitch }
    }

    /// Folds one input event into the controller.
    pub fn process_input_event(&mut self, event: &InputEvent)
        requires
            old(self).wf(),
        ensures
            final(self).wf(),
            *final(self) == (Player {
                controller: old(self).controller.after_event(*event),
                ..*old(self)
            }),
    {
        match *event {
            InputEvent::Key { key, pressed } => match key {
                MoveKey::Forward => self.controller.move_forward = pressed,
                MoveKey::Backward => self.controller.move_backward = pressed,
                MoveKey::Left => self.controller.move_left = pressed,
                MoveKey::Right => self.controller.move_right = pressed,
            },
            InputEvent::FireButton { pressed } => self.controller.shoot = pressed,
            InputEvent::MouseMotion { dx, dy } => {
                self.controller.yaw = turn(self.controller.yaw, dx);
                self.controller.pitch = tilt(self.controller.pitch, dy);
            },
        }
    }
}

/// Holding two opposed controls together moves the body as holding neither would: their
/// contributions cancel.
pub proof fn lemma_opposed_controls_cancel(c: InputController, vy: int, look: Vec3, side: Vec3)
    ensures
        c.move_forward && c.move_backward ==> c.velocity(vy, look, side) == (InputController {
            move_forward: false,
            move_backward: false,
            ..c
        }).velocity(vy, look, side),
        c.move_left && c.move_right ==> c.velocity(vy, look, side) == (InputController {
            move_left: false,
            move_right: false,
            ..c
        }).velocity(vy, look, side),
{
}

} // verus!
