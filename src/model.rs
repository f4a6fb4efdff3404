//! What the operations do to the two directories involved: the library, which owns
//! the template files, and the working directory of a project.
use vstd::prelude::*;
use crate::names::{canonical, has_ext, last_segment};

verus! {

/// Why adding a template to a project failed.
#[derive(PartialEq, Eq, Structural, Debug, Clone, Copy)]
pub enum AddError {
    /// The library holds no template of that name.
    TemplateNotFound,
    /// Something of that name already stands in the working directory.
    AlreadyExists,
    /// The filesystem refused to create the link.
    LinkFailed,
}

/// Why removing a template from a project failed.
#[derive(PartialEq, Eq, Structural, Debug, Clone, Copy)]
pub enum RemoveError {
    /// Nothing of that name stands in the working directory.
    NotFound,
    /// The filesystem refused to delete the entry.
    DeletionFailed,
}

/// Why installing a template into the library failed.
#[derive(PartialEq, Eq, Structural, Debug, Clone, Copy)]
pub enum InstallError {
    /// The file to copy does not exist.
    SourceMissing,
    /// Copying into the library failed.
    CopyFailed,
}

/// Why uninstalling a template failed.
#[derive(PartialEq, Eq, Structural, Debug, Clone, Copy)]
pub enum UninstallError {
    /// The library holds no entry of that name.
    NotInstalled,
}

/// An entry of the working directory.
pub enum Entry {
    /// A link to the library entry of the given name.
    Link(Seq<char>),
    /// A regular file with its content.
    File(Seq<u8>),
    /// A directory.
    Dir,
}

/// The library's entries (name to content) and the working directory's entries.
pub struct FsModel {
    pub library: Map<Seq<char>, Seq<u8>>,
    pub work: Map<Seq<char>, Entry>,
}

/// The checks of `add`, in order: the template must exist, the local name must be free.
pub open spec fn add_check(source_exists: bool, dest_exists: bool) -> Result<(), AddError> {
    if !source_exists {
        Err(AddError::TemplateNotFound)
    } else if dest_exists {
        Err(AddError::AlreadyExists)
    } else {
        Ok(())
    }
}

/// The check of `remove`: something of that name must stand locally.
pub open spec fn remove_check(exists: bool) -> Result<(), RemoveError> {
    if exists {
        Ok(())
    } else {
        Err(RemoveError::NotFound)
    }
}

/// The check of `install`: the file to copy must exist.
pub open spec fn install_check(source_exists: bool) -> Result<(), InstallError> {
    if source_exists {
        Ok(())
    } else {
        Err(InstallError::SourceMissing)
    }
}

/// `add`: link the working directory's entry `canonical(name)` to the library entry.
pub open spec fn add_spec(fs: FsModel, name: Seq<char>) -> Result<FsModel, AddError> {
    let n = canonical(name);
    match add_check(fs.library.contains_key(n), fs.work.contains_key(n)) {
        Err(e) => Err(e),
        Ok(_) => Ok(FsModel { library: fs.library, work: fs.work.insert(n, Entry::Link(n)) }),
    }
}

/// `remove`: delete the working directory's entry `canonical(name)`, whatever it is.
pub open spec fn remove_spec(fs: FsModel, name: Seq<char>) -> Result<FsModel, RemoveError> {
    let n = canonical(name);
    match remove_check(fs.work.contains_key(n)) {
        Err(e) => Err(e),
        Ok(_) => Ok(FsModel { library: fs.library, work: fs.work.remove(n) }),
    }
}

/// `install`: copy the source's content (`None` when it does not exist) into the library
/// under the last segment of its canonical path, replacing any entry of that name.
pub open spec fn install_spec(fs: FsModel, source: Seq<char>, content: Option<Seq<u8>>) -> Result<
    FsModel,
    InstallError,
> {
    match install_check(content is Some) {
        Err(e) => Err(e),
        Ok(_) => Ok(
            FsModel {
                library: fs.library.insert(last_segment(canonical(source)), content->0),
                work: fs.work,
            },
        ),
    }
}

/// `uninstall`: delete the library entry `canonical(name)`.
pub open spec fn uninstall_spec(fs: FsModel, name: Seq<char>) -> Result<FsModel, UninstallError> {
    let n = canonical(name);
    if fs.library.contains_key(n) {
        Ok(FsModel { library: fs.library.remove(n), work: fs.work })
    } else {
        Err(UninstallError::NotInstalled)
    }
}

/// `list`: the library's entries that carry the template extension.
pub open spec fn listed(fs: FsModel) -> Set<Seq<char>> {
    fs.library.dom().filter(|n: Seq<char>| has_ext(n))
}

/// What reading the working directory's entry `n` yields, following a link into the library.
pub open spec fn read_local(fs: FsModel, n: Seq<char>) -> Option<Seq<u8>> {
    if !fs.work.contains_key(n) {
        None
    } else {
        match fs.work[n] {
            Entry::Link(target) => if fs.library.contains_key(target) {
                Some(fs.library[target])
            } else {
                None
            },
            Entry::File(c) => Some(c),
            Entry::Dir => None,
        }
    }
}

/// The same directories with the library entry `n` holding `content`.
pub open spec fn write_library(fs: FsModel, n: Seq<char>, content: Seq<u8>) -> FsModel {
    FsModel { library: fs.library.insert(n, content), work: fs.work }
}

/// The result of the checks of `add`.
pub fn check_add(source_exists: bool, dest_exists: bool) -> (r: Result<(), AddError>)
    ensures
        r == add_check(source_exists, dest_exists),
{
    if !source_exists {
        Err(AddError::TemplateNotFound)
    } else if dest_exists {
        Err(AddError::AlreadyExists)
    } else {
        Ok(())
    }
}

/// The result of the check of `remove`.
pub fn check_remove(exists: bool) -> (r: Result<(), RemoveError>)
    ensures
        r == remove_check(exists),
{
    if exists {
        Ok(())
    } else {
        Err(RemoveError::NotFound)
    }
}

/// The result of the check of `install`.
pub fn check_install(source_exists: bool) -> (r: Result<(), InstallError>)
    ensures
        r == install_check(source_exists),
{
    if source_exists {
        Ok(())
    } else {
        Err(InstallError::SourceMissing)
    }
}

} // verus!
