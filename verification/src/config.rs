//! The application configuration model: the persisted upstream proxy list
//! with its health state, and the settings blocks around it.

pub mod manager;
pub mod upstream;
