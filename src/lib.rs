//! Turn-order scheduling with an energy-based action economy.
pub mod ai;
pub mod beings;
pub mod comp;
pub mod entity;
pub mod rng;
pub mod scheduler;
