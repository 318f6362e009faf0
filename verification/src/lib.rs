//! Verified gameplay logic for a set of small arcade games: a top-down
//! "dodge the creeps" game, a networked pong, and a 3D "squash the creeps"
//! platformer, together with a tiny hot-reload demo class.
//!
//! The game engine owns rendering, physics stepping, input polling, timers
//! and the multiplayer transport.  Everything the games themselves decide —
//! how input maps to motion, how the ball bounces and when a point is
//! scored, how the lobby reacts to connection events, when a mob counts as
//! squashed, and what every label displays — lives here, on plain values,
//! with contracts.  Positions, velocities and angles are carried in
//! fixed-point units (thousandths), so the engine adapter only converts at
//! the boundary.

pub mod digits;
pub mod dodge;
pub mod geom;
pub mod hot_reload;
pub mod net_pong;
pub mod rng;
pub mod squash;
