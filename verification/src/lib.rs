//! Core simulation library for a local-multiplayer arcade combat game:
//! fish-like avatars swim, shield, and shoot at each other while a large
//! background creature stalks the weakest combatant and eats the defeated.
//!
//! All geometry runs on fixed-point integers (thousandths of a world unit,
//! see [`fp::SCALE`]), so every rule of the simulation is exact and proved:
//! the piecewise animation evaluator, the input/action model, the movement
//! integrator, the iterative collision solver, the projectile and shield
//! systems, and the big-fish attention and feeding controllers.
//!
//! Rendering, asset loading, window management and raw key polling are
//! external collaborators: callers feed plain values (key states, elapsed
//! milliseconds) in and read plain values (positions, poses, events) out.

pub mod animation;
pub mod big_fish;
pub mod collision;
pub mod components;
pub mod configuration;
pub mod energy_orbs;
pub mod fp;
pub mod input;
pub mod movement;
pub mod player;
pub mod player_animation;
pub mod projectiles;
pub mod shield;
pub mod sim;
pub mod vec2;
