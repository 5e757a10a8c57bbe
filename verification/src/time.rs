//! Durations, points in time, and the clocks that hand them out.
pub mod duration;
pub mod clock;
pub mod laws;
