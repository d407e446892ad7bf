//! The command line, as values.

use vstd::prelude::*;

verus! {

/// A parsed command line.
#[derive(Debug)]
pub struct Cli {
    pub cmd: Cmd,
}

/// The operations.
#[derive(Debug)]
pub enum Cmd {
    /// Apply one template to a directory.
    Apply { target_dir: String, template_name: Option<String>, force: bool, watch: bool },
    /// Apply every template of the repository.
    ApplyAll {},
    /// Edit a template.
    Edit { template_name: Option<String> },
    /// List the templates.
    List {},
}

} // verus!
