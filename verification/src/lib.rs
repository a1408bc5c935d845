//! An employee and user directory: the relational rules of its tables,
//! the operations on them, and the typed failures they report.
//!
//! - [`entities`] holds the rows of the three tables.
//! - [`tables`] is the directory as a mathematical value, with what each
//!   operation does to it; [`preservation`] and [`laws`] prove what holds
//!   of it.
//! - [`store`] keeps the tables in memory and enforces their rules. A
//!   program that keeps its data in a relational database does not go
//!   through it: what is proved of [`store::Directory`] holds of such a
//!   database only as far as its schema declares the same rules (the
//!   generated keys, the unique columns, the references and what a delete
//!   does to them).
//! - [`db`] is the surface that callers use; [`forms`] and [`session`]
//!   hold the decisions of the presentation layer.
//! - [`storage`] meets the relational storage: the statement of the
//!   joined view, the translation of the storage's errors, and the
//!   decisions that surround a lookup, a delete and a role name.

pub mod db;
pub mod entities;
pub mod error;
pub mod forms;
pub mod laws;
pub mod preservation;
pub mod session;
pub mod storage;
pub mod store;
pub mod tables;
pub mod text;
