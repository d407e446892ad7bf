//! Applying every template of the repository, each into a directory of its
//! own name.

use crate::commands::apply::Options;
use crate::paths::{join, joined};
use vstd::prelude::*;

verus! {

/// The directory that holds one project for each template.
pub open spec fn projects_home() -> Seq<char> {
    "/home/edwin/groups/fox-templates"@
}

/// The run that applies the template `name`: into the directory of that
/// name, without asking, whether the directory is there yet or not.
pub open spec fn is_run_of(options: Options, name: Seq<char>) -> bool {
    &&& options.target_dir@ == joined(projects_home(), name)
    &&& options.template_name matches Some(template) && template@ == name
    &&& options.force
    &&& !options.must_exist
}

/// The runs that apply the templates `names`, one for each, in their
/// order.
pub fn plan(names: Vec<String>) -> (r: Vec<Options>)
    ensures
        r@.len() == names@.len(),
        forall|i: int| 0 <= i < r@.len() ==> is_run_of(#[trigger] r@[i], names@[i]@),
{
    let n: usize = names.len();
    let mut r: Vec<Options> = Vec::new();
    let mut i: usize = 0;
    while i < n
        invariant
            i <= n,
            n == names@.len(),
            r@.len() == i,
            forall|j: int| 0 <= j < i ==> is_run_of(#[trigger] r@[j], names@[j]@),
        decreases n - i,
    {
        let target = join("/home/edwin/groups/fox-templates", names[i].as_str());
        r.push(
            Options {
                target_dir: target,
                template_name: Some(names[i].clone()),
                force: true,
                must_exist: false,
            },
        );
        i += 1;
    }
    r
}

} // verus!
