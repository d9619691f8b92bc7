//! A small HTTP service over one table of records: the routing table, the
//! handlers, the statements that they send to the store and the reading of
//! its answers, with a table in memory that answers as the store does.

pub mod error;
pub mod gateway;
pub mod handlers;
pub mod json;
pub mod laws;
pub mod memory;
pub mod query;
pub mod record;
pub mod response;
pub mod route;
pub mod service;
pub mod text;
