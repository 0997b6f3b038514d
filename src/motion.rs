//! Motion profiles and their step-by-step execution.

pub mod executor;
pub mod profile;
