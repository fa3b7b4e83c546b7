//! Filtering and schema-introspection engine for a SQL data-store agent.
//!
//! The crate compiles declarative allow/exclude rules into matchers over four
//! dimensions (database, table, column name, column value), decides inclusion
//! with allow-then-exclude precedence, plans catalog discovery under those
//! rules, and scrubs dynamically shaped result rows so that no excluded column
//! or value leaves the boundary.

pub mod config;
pub mod discovery;
pub mod errors;
pub mod filters;
pub mod models;
pub mod patterns;
pub mod protocol;
pub mod scrub;
pub mod text;
