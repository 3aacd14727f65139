//! The catch-and-progression simulation of a small fishing game: fish that
//! spawn, swim and die, a rod that is cast and reeled in, the boat's hold and
//! the port whose tally unlocks better rods.
//!
//! All quantities are fixed-point integers; [`units`] names the scales.
//!
//! Each rule of the game is a function with a contract: [`fish`], [`rod`],
//! [`trash`], [`player`] and [`port`] hold the rules of their subject,
//! [`collide`] the overlap test that they share, and [`simulation`] the
//! whole game with the tick that applies the rules in their order. The
//! contracts are proved; the one thing taken on trust is what the three
//! draws of [`chance`] return.

pub mod chance;
pub mod collide;
pub mod components;
pub mod directions;
pub mod events;
pub mod fish;
pub mod player;
pub mod port;
pub mod resources;
pub mod rod;
pub mod simulation;
pub mod systems;
pub mod trash;
pub mod units;
