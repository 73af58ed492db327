//! Tracks the tables of a database, and the relationships that its foreign keys
//! imply, with a GraphQL engine's administrative API.
pub mod cli;
pub mod commands;
pub mod hasura;
