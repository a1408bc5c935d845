//! The tables of the directory: one module per table.

pub mod app_role;
pub mod employee;
pub mod users;
