//! Library behind a small command-line front-end that turns flags into
//! query statements for an embedded analytical database engine.
//!
//! The verified core is the query-clause assembly: mapping column lists and
//! aggregate-function bindings to `SELECT` expression text, resolving a file
//! name's extension to a table-valued read function, and joining the clauses
//! into one statement in a fixed order.

pub mod agg;
pub mod casing;
pub mod select;
pub mod source;
pub mod to;
pub mod utils;
