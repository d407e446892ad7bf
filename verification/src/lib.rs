//! Scaffolds a project from a template directory: variables are resolved
//! once, then every template file has its relative path and its text
//! rendered with them.

pub mod cli;
pub mod config;
pub mod util;
pub mod bindings;
pub mod document;
pub mod descriptor;
pub mod resolver;
pub mod template;
pub mod render;
pub mod paths;
pub mod commands;
