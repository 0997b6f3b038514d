//! Motor driver core: position tracking, lifecycle states, building and
//! multi-motor systems.

pub mod builder;
pub mod driver;
pub mod position;
pub mod state;
pub mod system;
