//! "Squash the creeps": a 3D platformer where the player jumps on mobs
//! to squash them, bounces off, and scores a point per squashed mob;
//! being touched on the ground ends the game.

pub mod main_scene;
pub mod mob;
pub mod player;
pub mod scorelabel;
