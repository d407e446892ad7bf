//! Process-wide configuration: where the templates repository lives and
//! who the author is.

use vstd::prelude::*;
use vstd::string::StringExecFns;

verus! {

/// The author's identity, offered to every template.
pub struct Variables {
    pub full_name: String,
    pub license: String,
}

/// The configuration of one run.
pub struct Config {
    pub templates_dir: String,
    pub variables: Variables,
}

/// Why no configuration could be had.
#[derive(Debug)]
pub enum ConfigLoadError {
    Unavailable,
}

/// The root of the templates repository.
pub open spec fn templates_root() -> Seq<char> {
    "/storage/ur/storage_home/Docs/Programming/Repositories/hyperupcall/templates"@
}

/// The author's full name.
pub open spec fn author_name() -> Seq<char> {
    "Edwin Kofler"@
}

/// The license that new projects get.
pub open spec fn author_license() -> Seq<char> {
    "MPL-2.0"@
}

/// The built-in configuration. It is always available.
pub fn get_config() -> (r: Result<Config, ConfigLoadError>)
    ensures
        r matches Ok(c) && c.templates_dir@ == templates_root() && c.variables.full_name@
            == author_name() && c.variables.license@ == author_license(),
{
    Ok(
        Config {
            templates_dir: String::from_str(
                "/storage/ur/storage_home/Docs/Programming/Repositories/hyperupcall/templates",
            ),
            variables: Variables {
                full_name: String::from_str("Edwin Kofler"),
                license: String::from_str("MPL-2.0"),
            },
        },
    )
}

} // verus!
