//! Builders for SurrealQL statements and the text they render to.

pub mod config;
pub mod data;
pub mod error;
pub mod stmt;
pub mod text;
pub mod value;
