//! Request-to-statement mapping for a tracker of watched series.
//!
//! Each route of the service is a pair of pure functions: one turns the decoded
//! request into a parameterised SQL statement, the other turns what the store
//! answered into a response. Running the statement is left to the caller.

pub mod models;
pub mod query;
pub mod response;
pub mod routes;
pub mod sqlite;
pub mod statement;
pub mod text;
