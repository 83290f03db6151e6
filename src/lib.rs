//! Typed configuration symbols driven by guest scripts: the value model, the
//! symbol table, the capability operations a script may call, the generated
//! symbol namespace, and the stages of one script application.

pub mod value;
pub mod table;
pub mod api;
pub mod namespace;
pub mod controller;
pub mod laws;
pub mod cli;
