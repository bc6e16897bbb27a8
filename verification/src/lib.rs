//! Verified core of a double-pendulum simulator.
//!
//! A double pendulum is a chaotic mechanical system: two rigid links swing
//! under gravity, the lower one anchored to the tip of the upper one. The
//! host program integrates the coupled equations of motion in floating point
//! and draws the result; floating-point arithmetic cannot be verified, so
//! that integration loop lives with the host. Everything the simulator
//! decides in exact arithmetic is verified here:
//!
//! - [`scheduler`]: how many integration steps each wall-clock tick runs,
//!   either one variable-length step per tick or a burst of fixed-length
//!   steps driven by a time accumulator, with time kept in whole nanoseconds;
//! - [`simulation`]: the populations of pendulum instances — one canonical
//!   instance, or a thousand near-duplicates whose initial angles differ by
//!   an infinitesimal increment, kept in whole microdegrees;
//! - [`color`]: the exact hue-wheel coloring that tags each instance of the
//!   thousand-pendulum population, kept in whole thousandths per channel.

pub mod color;
pub mod scheduler;
pub mod simulation;
