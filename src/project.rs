//! Operations on a project's working directory: add and remove links to templates.
use vstd::prelude::*;
use crate::names::{canonical, joined, normalize_name};
use crate::paths::join_path;

verus! {

/// The link that `add` creates.
pub struct LinkPlan {
    /// The canonical template name.
    pub name: String,
    /// The library entry linked to.
    pub target: String,
    /// The new entry of the working directory.
    pub link: String,
}

/// Resolves the link that adding `name` from the library at `library` creates in `cwd`.
pub fn plan_add(name: &str, library: &str, cwd: &str) -> (r: LinkPlan)
    ensures
        r.name@ == canonical(name@),
        r.target@ == joined(library@, canonical(name@)),
        r.link@ == joined(cwd@, canonical(name@)),
{
    let n = normalize_name(name);
    let target = join_path(library, n.as_str());
    let link = join_path(cwd, n.as_str());
    LinkPlan { name: n, target, link }
}

/// The working directory's entry that `remove` deletes.
pub struct RemovePlan {
    /// The canonical template name.
    pub name: String,
    /// The entry's path.
    pub path: String,
}

/// Resolves the entry of `cwd` that removing `name` deletes.
pub fn plan_remove(name: &str, cwd: &str) -> (r: RemovePlan)
    ensures
        r.name@ == canonical(name@),
        r.path@ == joined(cwd@, canonical(name@)),
{
    let n = normalize_name(name);
    let path = join_path(cwd, n.as_str());
    RemovePlan { name: n, path }
}

} // verus!
