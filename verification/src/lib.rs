//! Interactive client core for a remote document/graph database reached over
//! HTTP: session configuration, a local store of connection profiles and saved
//! queries, a request builder, and the command interpreter that ties them
//! together.

pub mod models;
pub mod utils;
pub mod db;
pub mod requester;
pub mod cli;
pub mod laws;
