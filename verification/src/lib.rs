//! Backend-agnostic core of a SQL query engine: a universal value model,
//! a width-aware row decoder, the decision logic of the connector and
//! transaction contract, and the materialization of flat rows into
//! paginated result trees.

pub mod config;
pub mod connector;
pub mod error;
pub mod identifier;
pub mod param;
pub mod results;
pub mod row;
pub mod schema;
pub mod value;
