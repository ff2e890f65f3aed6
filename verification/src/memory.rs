//! The service that keeps its courses in memory.

pub mod handlers;
pub mod state;
