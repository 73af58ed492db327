//! The administrative API: its requests and answers, the catalog queries, and
//! the runs that register tables and relationships one at a time.
pub mod client;
pub mod decode;
pub mod sql;
pub mod tracker;
