//! A project-scaffolding engine: template configuration, variable
//! interpolation, conditional file operations and the orchestration of a
//! generation run, with every rule stated as a contract and proved.

pub mod bootstrap;
pub mod config;
pub mod context;
pub mod errors;
pub mod fs;
pub mod interpolation;
pub mod op;
pub mod path;
pub mod resolver;
pub mod template;
pub mod text;
pub mod ui;
