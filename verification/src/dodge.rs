//! "Dodge the creeps": the player moves inside the screen rectangle while
//! mobs fly across it; surviving scores one point per second, touching a
//! mob ends the game.

pub mod hud;
pub mod main_scene;
pub mod mob;
pub mod player;
