//! A Berlin-clock face library: derives per-lamp colors from a time reading,
//! computes the fixed pixel layout of the lamp tiles, and decides on each
//! tick which tile groups must be redrawn.

pub mod clock;
pub mod lamps;
pub mod layout;
pub mod scheduler;
