//! The service that keeps its courses in a database table. The queries run
//! outside this library; what they return is classified and answered here.

pub mod db;
pub mod handlers;
