//! The two things the tool does, each for one database.
pub mod relationships;
pub mod tables;
