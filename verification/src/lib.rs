//! The grading core of an automated programming-assignment grader: how test
//! runs are classified and scored, how submissions move through the grade
//! store, how sessions and credentials are derived, and which requests each
//! authorization layer lets through.

pub mod assignment;
pub mod container;
pub mod database;
pub mod digest;
pub mod docker;
pub mod encoding;
pub mod endpoints;
pub mod model;
pub mod random;
pub mod score;
pub mod security;
pub mod submission_object;
pub mod text;
pub mod time;
