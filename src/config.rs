//! Motor and trajectory descriptions, unit types and soft limits.

pub mod limits;
pub mod mechanical;
pub mod motor;
pub mod system;
pub mod tables;
pub mod trajectory;
pub mod units;
pub mod validation;
