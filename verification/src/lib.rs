//! Rules of the "Sea of Fortune" pirate game: world and game states, the shop
//! and inventory, health and hit resolution, animation frames, movement
//! decisions, level generation choices and the lobby protocol.
//!
//! Everything here works on plain values. Rendering, input devices, timers
//! measured in seconds and positions measured in floating point stay with the
//! engine that drives these rules.

pub mod states;
pub mod inventory;
pub mod animation;
pub mod enemies;
pub mod player;
pub mod boat;
pub mod shop;
pub mod combat;
pub mod level;
pub mod network;
pub mod controls;
