//! Properties that hold across the library and project operations.
use vstd::prelude::*;
use crate::library::{installed_name, template_names};
use crate::model::{
    add_spec, install_spec, listed, read_local, remove_spec, uninstall_spec, write_library,
    AddError, Entry, FsModel, UninstallError,
};
use crate::names::{canonical, has_ext, lemma_canonical_idempotent};
use crate::paths::lemma_last_segment_keeps_ext;

verus! {

/// Installing into an empty library makes `list` report exactly the installed name.
pub proof fn lemma_install_then_list(fs: FsModel, source: Seq<char>, content: Seq<u8>)
    requires
        fs.library.dom().is_empty(),
    ensures
        install_spec(fs, source, Some(content)) is Ok,
        listed(install_spec(fs, source, Some(content))->Ok_0) == set![installed_name(source)],
{
    lemma_canonical_idempotent(source);
    lemma_last_segment_keeps_ext(canonical(source));
    let after = install_spec(fs, source, Some(content))->Ok_0;
    let n = installed_name(source);
    assert forall|k: Seq<char>| #[trigger] listed(after).contains(k) <==> k == n by {
        if k != n {
            assert(!fs.library.dom().contains(k));
        }
    }
    assert(listed(after) =~= set![n]);
}

/// `add` makes a link, not a copy: after it, writing new content into the library
/// entry is what the working directory's entry reads, with no second `add`.
pub proof fn lemma_add_is_reference(fs: FsModel, name: Seq<char>, content: Seq<u8>)
    requires
        add_spec(fs, name) is Ok,
    ensures
        read_local(
            write_library(add_spec(fs, name)->Ok_0, canonical(name), content),
            canonical(name),
        ) == Some(content),
{
}

/// `add` then `remove` of a template that is in the library and not yet in the working
/// directory: the local entry appears, then goes, and both directories end as they began.
pub proof fn lemma_add_remove_round_trip(fs: FsModel, name: Seq<char>)
    requires
        fs.library.contains_key(canonical(name)),
        !fs.work.contains_key(canonical(name)),
    ensures
        add_spec(fs, name) is Ok,
        add_spec(fs, name)->Ok_0.work.contains_key(canonical(name)),
        add_spec(fs, name)->Ok_0.library == fs.library,
        remove_spec(add_spec(fs, name)->Ok_0, name) is Ok,
        !remove_spec(add_spec(fs, name)->Ok_0, name)->Ok_0.work.contains_key(canonical(name)),
        remove_spec(add_spec(fs, name)->Ok_0, name)->Ok_0.library == fs.library,
        remove_spec(add_spec(fs, name)->Ok_0, name)->Ok_0.work == fs.work,
{
    let n = canonical(name);
    assert(fs.work.insert(n, Entry::Link(n)).remove(n) =~= fs.work);
}

/// A regular file in the working directory blocks `add` of a template of the same name.
pub proof fn lemma_add_blocked_by_file(fs: FsModel, name: Seq<char>)
    requires
        fs.library.contains_key(canonical(name)),
        fs.work.contains_key(canonical(name)),
        fs.work[canonical(name)] is File,
    ensures
        add_spec(fs, name) == Err::<FsModel, AddError>(AddError::AlreadyExists),
{
}

/// Uninstalling a name that the library does not hold fails, so the library's
/// entries stay as they were.
pub proof fn lemma_uninstall_absent(fs: FsModel, name: Seq<char>)
    requires
        !fs.library.contains_key(canonical(name)),
    ensures
        uninstall_spec(fs, name) == Err::<FsModel, UninstallError>(UninstallError::NotInstalled),
{
}

/// `uninstall` deletes exactly the canonical entry and leaves the working directory alone.
pub proof fn lemma_uninstall_present(fs: FsModel, name: Seq<char>)
    requires
        fs.library.contains_key(canonical(name)),
    ensures
        uninstall_spec(fs, name) is Ok,
        uninstall_spec(fs, name)->Ok_0.library.dom() == fs.library.dom().remove(canonical(name)),
        uninstall_spec(fs, name)->Ok_0.work == fs.work,
{
}

/// Filtering keeps exactly the names with the extension, whatever their order.
pub proof fn lemma_template_names_set(names: Seq<Seq<char>>)
    ensures
        template_names(names).to_set() == names.to_set().filter(|n: Seq<char>| has_ext(n)),
    decreases names.len(),
{
    if names.len() == 0 {
        assert(names.to_set() =~= Set::<Seq<char>>::empty());
        assert(template_names(names).to_set() =~= Set::<Seq<char>>::empty());
    } else {
        let init = names.drop_last();
        lemma_template_names_set(init);
        assert(names =~= init.push(names.last()));
        init.lemma_push_to_set_commute(names.last());
        if has_ext(names.last()) {
            template_names(init).lemma_push_to_set_commute(names.last());
        }
        assert(template_names(names).to_set() =~= names.to_set().filter(
            |n: Seq<char>| has_ext(n),
        ));
    }
}

/// Listing a directory whose entries are the library's entries reports exactly the
/// library's entries that carry the extension.
pub proof fn lemma_listing_matches_library(fs: FsModel, entries: Seq<Seq<char>>)
    requires
        entries.to_set() == fs.library.dom(),
    ensures
        template_names(entries).to_set() == listed(fs),
{
    lemma_template_names_set(entries);
}

} // verus!
