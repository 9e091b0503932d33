//! Abstract syntax of SQL queries (the `SELECT` / set-operation / table-reference
//! part of the grammar), with verified SQL rendering and accessors.

pub mod common;

pub mod expr;
pub mod query;
pub mod render;
pub mod laws;
pub mod text_laws;
pub mod expr_laws;
