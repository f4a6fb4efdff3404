//! Personal template manager: a library directory of `.typ` template files,
//! and links to them placed in a project directory.
pub mod text;
pub mod names;
pub mod paths;
pub mod model;
pub mod library;
pub mod project;
pub mod laws;
pub mod config;
