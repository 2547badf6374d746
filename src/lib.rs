//! Rule resolution engine of an HTTP mock server: rule records, the importer
//! that expands route declarations into rules, the in-memory rule store, the
//! matcher, and the construction of response plans.

pub mod text;
pub mod models;
pub mod matcher;
pub mod response;
pub mod import;
pub mod store;
pub mod laws;
pub mod audit;
pub mod settings;
