//! The persistent side of the library.

pub mod database;
pub mod guarantees;
pub mod medium;
pub mod procedure;
pub mod track;
