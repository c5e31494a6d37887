//! Stepped numeric ranges: a lazily-advanced cursor walking from a start
//! value toward an end bound by a caller-chosen step.
//!
//! [`stepped::ERange`] is the engine: it classifies the direction of travel
//! once, at construction, and then yields one value per advance until the
//! cursor meets or passes the bound. [`dual::IterAB`] is a thin dispatcher
//! for the common two-bound, unit-step case: it picks a forward or a
//! backward cursor by comparing the bounds and forwards every advance to it.

pub mod dual;
pub mod stepped;

pub use dual::IterAB;
pub use stepped::Direction;
pub use stepped::ERange;
