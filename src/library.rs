//! Operations on the library directory: install, uninstall, list.
use vstd::prelude::*;
use crate::names::{canonical, has_ext, has_sep, joined, last_segment, has_extension, normalize_name};
use crate::paths::{contains_separator, final_segment, join_path, lemma_last_segment_keeps_ext};

verus! {

/// Where `install` copies from, under which name, and to which path.
pub struct InstallPlan {
    /// The file to copy.
    pub source: String,
    /// The name of the new library entry.
    pub name: String,
    /// The path of the new library entry.
    pub destination: String,
}

/// The file that `install` copies for `source`: a bare name is looked up in `cwd`,
/// a path with a separator is taken as it stands.
pub open spec fn install_source(source: Seq<char>, cwd: Seq<char>) -> Seq<char> {
    let c = canonical(source);
    if has_sep(c) {
        c
    } else {
        joined(cwd, c)
    }
}

/// The name under which `install` stores `source` in the library.
pub open spec fn installed_name(source: Seq<char>) -> Seq<char> {
    last_segment(canonical(source))
}

/// Resolves what installing `source` into the library at `library` copies, and where.
pub fn plan_install(source: &str, library: &str, cwd: &str) -> (r: InstallPlan)
    ensures
        r.source@ == install_source(source@, cwd@),
        r.name@ == installed_name(source@),
        r.destination@ == joined(library@, installed_name(source@)),
        has_ext(r.name@),
{
    let canon = normalize_name(source);
    let from = if contains_separator(canon.as_str()) {
        canon.clone()
    } else {
        join_path(cwd, canon.as_str())
    };
    let name = final_segment(canon.as_str());
    proof {
        crate::names::lemma_canonical_idempotent(source@);
        lemma_last_segment_keeps_ext(canon@);
    }
    let destination = join_path(library, name.as_str());
    InstallPlan { source: from, name, destination }
}

/// Which library entry `uninstall` deletes.
pub struct UninstallPlan {
    /// The canonical name of the entry.
    pub name: String,
    /// Its path.
    pub path: String,
}

/// Resolves the library entry that uninstalling `name` deletes.
pub fn plan_uninstall(name: &str, library: &str) -> (r: UninstallPlan)
    ensures
        r.name@ == canonical(name@),
        r.path@ == joined(library@, canonical(name@)),
{
    let n = normalize_name(name);
    let path = join_path(library, n.as_str());
    UninstallPlan { name: n, path }
}

/// The entries of `names` that carry the template extension, in their order.
pub open spec fn template_names(names: Seq<Seq<char>>) -> Seq<Seq<char>>
    decreases names.len(),
{
    if names.len() == 0 {
        Seq::empty()
    } else if has_ext(names.last()) {
        template_names(names.drop_last()).push(names.last())
    } else {
        template_names(names.drop_last())
    }
}

/// The characters of each string.
pub open spec fn views(v: Seq<String>) -> Seq<Seq<char>> {
    v.map_values(|s: String| s@)
}

/// The names among a directory's entries that carry the template extension,
/// in enumeration order; the others are skipped.
pub fn list_templates(entries: &Vec<String>) -> (r: Vec<String>)
    ensures
        views(r@) == template_names(views(entries@)),
{
    let mut out: Vec<String> = Vec::new();
    let mut i: usize = 0;
    while i < entries.len()
        invariant
            i <= entries@.len(),
            views(out@) == template_names(views(entries@).subrange(0, i as int)),
        decreases entries@.len() - i,
    {
        let ghost before = views(entries@).subrange(0, i as int);
        let ghost after = views(entries@).subrange(0, i + 1);
        assert(after.drop_last() =~= before);
        assert(after.last() == entries@[i as int]@);
        if has_extension(entries[i].as_str()) {
            let e = entries[i].clone();
            let ghost old_out = out@;
            out.push(e);
            assert(views(out@) =~= views(old_out).push(e@));
        }
        i = i + 1;
    }
    assert(views(entries@).subrange(0, entries@.len() as int) =~= views(entries@));
    out
}

} // verus!
