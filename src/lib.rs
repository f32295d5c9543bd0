// Gameplay core of a first-person shooter: fixed-step scheduling, player input and
// movement, the weapon cooldown and recoil state machine, and hit resolution.

pub mod arena;
pub mod clock;
pub mod game;
pub mod geometry;
pub mod handle;
pub mod message;
pub mod player;
pub mod shot;
pub mod weapon;
