//! A swarm of pulse-coupled fireflies on the square `[-1, 1] x [-1, 1]`.
//!
//! Every fly drifts with a constant speed, bounces off the walls, charges until
//! it lights up and then discharges again. A fly that lights up nudges the
//! flies around it, which lets a swarm fall into step over time.
//!
//! All quantities are exact fixed-point numbers, see [`units`].

pub mod units;
pub mod boundary;
pub mod clock;
pub mod config;
pub mod coupling;
pub mod fly;
pub mod oscillator;
mod random;
pub mod swarm;
pub mod vector;
