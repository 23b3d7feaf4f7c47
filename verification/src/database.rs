//! The grading state: assignments with their tasks and tests, the grade
//! table, sessions and credentials.

pub mod assignment;
pub mod auth;
pub mod operations;
pub mod user;
