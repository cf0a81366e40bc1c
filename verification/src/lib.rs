//! Core of a schema-on-data relational engine: the column-type algebra, the
//! SQL that realises tables, columns and rows, the surrogate-view dependency
//! order, cell validation and the undo/redo journal.
//!
//! The library computes; it never touches storage. Every operation is handed
//! the plain values that were read from the store and hands back the
//! statements to run, so each rule is stated and proved over values. The
//! order of the steps of an action stands in `procedure`: the caller runs
//! what a step names and hands back what it read.

pub mod text;
pub mod sql;
pub mod error;
pub mod db;
pub mod column_type;
pub mod column;
pub mod backend;
pub mod table_data;
pub mod dependency;
pub mod table;
pub mod data_query;
pub mod procedure;
