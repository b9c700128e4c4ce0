//! A dialect-polymorphic SQL query library: pagination and count rewriting for
//! arbitrary statements, uniform connection planning across backends, and a
//! columnar result model.
pub mod api;
pub mod ast;
pub mod cmd;
pub mod connection;
pub mod duck;
pub mod error;
pub mod file;
pub mod folder;
pub mod text;
pub mod utils;
