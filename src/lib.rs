//! A flocking simulation core: a bounded world that owns an ordered flock of
//! agents and advances all of them by one step from a shared snapshot.
pub mod laws;
pub mod neighbors;
pub mod universe;
