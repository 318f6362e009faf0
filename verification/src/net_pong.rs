//! Networked pong: a lobby that hosts or joins a two-player session, two
//! paddles, a ball, and the arena that keeps the score.  The engine's
//! multiplayer layer delivers the remote calls; which side may decide
//! what, and how every event changes the game, is decided here.

pub mod ball;
pub mod lobby;
pub mod paddle;
pub mod pong;
