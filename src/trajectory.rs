//! Named trajectories and their builders.

pub mod builder;
pub mod registry;
