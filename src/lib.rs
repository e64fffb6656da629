//! A deterministic n-body gravitation engine over arbitrary-precision decimals.
pub mod decimal;
pub mod error;
pub mod geometry;
pub mod physics;
pub mod world;
pub mod laws;
