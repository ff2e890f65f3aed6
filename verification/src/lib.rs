//! A small course catalogue service: courses owned by tutors, an in-memory
//! store that numbers each tutor's courses, the handlers that turn requests
//! into responses, and the errors a database-backed deployment reports.

mod clock;
pub mod errors;
pub mod health;
pub mod memory;
pub mod models;
pub mod numbering;
pub mod persistent;
pub mod response;
pub mod store;
