//! A verified model of a small game: one player sprite, spawned once from a
//! configuration record and moved by a fixed velocity on every engine tick.
//!
//! World coordinates are IEEE-754 single-precision values, carried here as
//! their bit patterns so that the motion rule can be stated and proved
//! exactly; the one arithmetic step, single-precision addition, is performed
//! by a software implementation of the IEEE-754 rules.

pub mod app;
pub mod float_bits;
pub mod game_parameters;
