//! Derives page-oriented boilerplate (init, view, guard and module files,
//! with their import wiring) from a route enum and a model struct, and plans
//! how to merge it into existing files without duplicating declarations.
pub mod text;
pub mod parser;
pub mod templates;
pub mod route;
pub mod maps;
pub mod import;
pub mod module;
pub mod content;
pub mod checker;
pub mod laws;
