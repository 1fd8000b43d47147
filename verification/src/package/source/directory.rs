//! The source directory.

use vstd::prelude::*;
use crate::package::errors::FileKind;
use crate::package::errors::PackageError;
use crate::package::errors::PackageErrorView;
use crate::package::paths::ends_with;
use crate::package::paths::extend;
use crate::package::paths::extension;
use crate::package::paths::join;
use crate::package::paths::path_ends_with;
use crate::package::paths::path_extended;
use crate::package::paths::path_extension;
use crate::package::paths::path_join;
use crate::package::paths::texts;

verus! {

/// The directory of the source files, below the root of a package.
pub const SOURCE_DIRECTORY_NAME: &'static str = "src/";

/// The end of the name of every source file.
pub const SOURCE_FILE_EXTENSION: &'static str = ".leo";

/// The directory that holds the source files of a package.
pub struct SourceDirectory;

/// What was learnt of one entry of the source directory.
#[derive(Debug, PartialEq, Eq)]
pub enum SourceEntry {
    /// The entry could not be read.
    Unreadable { reason: String },
    /// The entry was read, but the file system did not tell its type.
    Untyped { path: String, reason: String },
    /// The entry was read, and the file system told its type.
    Typed { path: String, kind: FileKind },
}

/// The components that lead from a path to the directory to create: the
/// source directory's name below a directory that does not end with it,
/// nothing otherwise.
pub open spec fn source_components(is_dir: bool, in_source: bool) -> Seq<Seq<char>> {
    if is_dir && !in_source {
        seq!["src/"@]
    } else {
        Seq::empty()
    }
}

/// The path of the directory to create for a path that is, or is not, a
/// directory.
pub open spec fn source_path(path: Seq<char>, is_dir: bool) -> Seq<char> {
    let components = source_components(is_dir, path_ends_with(path, "src/"@));
    path_extended(path, components, components.len())
}

/// What an entry is taken for, given the extension found in its path: the
/// path of a source file, or the first fault found in it. An entry must be
/// readable, have a type, be a file, and have the extension `leo`.
pub open spec fn entry_outcome(entry: SourceEntry, extension: Option<Seq<char>>) -> Result<
    Seq<char>,
    PackageErrorView,
> {
    match entry {
        SourceEntry::Unreadable { reason } => Err(
            PackageErrorView::FailedToGetSourceFileEntry { reason: reason@ },
        ),
        SourceEntry::Untyped { path, reason } => Err(
            PackageErrorView::FailedToGetSourceFileType { path: path@, reason: reason@ },
        ),
        SourceEntry::Typed { path, kind } => {
            if kind != FileKind::File {
                Err(PackageErrorView::InvalidSourceFileType { path: path@, kind })
            } else {
                match extension {
                    None => Err(PackageErrorView::FailedToGetSourceFileExtension { path: path@ }),
                    Some(text) => {
                        if text != "leo"@ {
                            Err(
                                PackageErrorView::InvalidSourceFileExtension {
                                    path: path@,
                                    extension: text,
                                },
                            )
                        } else {
                            Ok(path@)
                        }
                    },
                }
            }
        },
    }
}

/// The path that an entry carries, or the empty text.
pub open spec fn entry_path(entry: SourceEntry) -> Seq<char> {
    match entry {
        SourceEntry::Unreadable { .. } => Seq::empty(),
        SourceEntry::Untyped { path, .. } => path@,
        SourceEntry::Typed { path, .. } => path@,
    }
}

/// What an entry is taken for, with the extension that its path has.
pub open spec fn entry_checked(entry: SourceEntry) -> Result<Seq<char>, PackageErrorView> {
    entry_outcome(entry, path_extension(entry_path(entry)))
}

/// The view of the outcome of one entry.
pub open spec fn outcome_view(outcome: Result<String, PackageError>) -> Result<
    Seq<char>,
    PackageErrorView,
> {
    match outcome {
        Ok(path) => Ok(path@),
        Err(error) => Err(error@),
    }
}

impl SourceDirectory {
    /// The components to push onto a path to reach the directory to create,
    /// given whether the path is a directory and whether it ends with the
    /// source directory's name.
    pub fn components(is_dir: bool, in_source: bool) -> (components: Vec<String>)
        ensures
            texts(components@) == source_components(is_dir, in_source),
    {
        let mut components: Vec<String> = Vec::new();
        if is_dir && !in_source {
            components.push(String::from_str(SOURCE_DIRECTORY_NAME));
        }
        assert(texts(components@) =~= source_components(is_dir, in_source));
        components
    }

    /// The path of the directory to create, for a path of which the caller
    /// knows whether it is a directory.
    pub fn directory_path(path: &str, is_dir: bool) -> (target: String)
        ensures
            target@ == source_path(path@, is_dir),
    {
        let in_source = ends_with(path, SOURCE_DIRECTORY_NAME);
        let components = SourceDirectory::components(is_dir, in_source);
        extend(path, &components)
    }

    /// The path of the directory whose entries are the source files of the
    /// package at a path.
    pub fn listing_path(path: &str) -> (target: String)
        ensures
            target@ == path_join(path@, "src/"@),
    {
        join(path, SOURCE_DIRECTORY_NAME)
    }

    /// Takes one entry for a source file or names its fault, given the
    /// extension that was found in its path.
    pub fn classify(entry: &SourceEntry, extension: Option<String>) -> (outcome: Result<
        String,
        PackageError,
    >)
        ensures
            outcome_view(outcome) == entry_outcome(
                *entry,
                match extension {
                    Some(text) => Some(text@),
                    None => None,
                },
            ),
    {
        match entry {
            SourceEntry::Unreadable { reason } => Err(
                PackageError::FailedToGetSourceFileEntry { reason: reason.clone() },
            ),
            SourceEntry::Untyped { path, reason } => Err(
                PackageError::FailedToGetSourceFileType {
                    path: path.clone(),
                    reason: reason.clone(),
                },
            ),
            SourceEntry::Typed { path, kind } => {
                if *kind != FileKind::File {
                    return Err(
                        PackageError::InvalidSourceFileType { path: path.clone(), kind: *kind },
                    );
                }
                match extension {
                    None => Err(
                        PackageError::FailedToGetSourceFileExtension { path: path.clone() },
                    ),
                    Some(text) => {
                        if text != String::from_str("leo") {
                            Err(
                                PackageError::InvalidSourceFileExtension {
                                    path: path.clone(),
                                    extension: text,
                                },
                            )
                        } else {
                            Ok(path.clone())
                        }
                    },
                }
            },
        }
    }

    /// Returns the paths of the entries, which are the source files of the
    /// directory, or the fault of the first entry that is no source file.
    pub fn files(entries: &Vec<SourceEntry>) -> (outcome: Result<Vec<String>, PackageError>)
        ensures
            match outcome {
                Ok(file_paths) => {
                    &&& file_paths@.len() == entries@.len()
                    &&& forall|i: int|
                        0 <= i < entries@.len() ==> entry_checked(#[trigger] entries@[i]) == Ok::<
                            Seq<char>,
                            PackageErrorView,
                        >(file_paths@[i]@)
                },
                Err(error) => exists|k: int|
                    {
                        &&& 0 <= k < entries@.len()
                        &&& forall|i: int| 0 <= i < k ==> entry_checked(#[trigger] entries@[i]) is Ok
                        &&& entry_checked(#[trigger] entries@[k]) == Err::<
                            Seq<char>,
                            PackageErrorView,
                        >(error@)
                    },
            },
    {
        let mut file_paths: Vec<String> = Vec::new();
        let mut i: usize = 0;
        while i < entries.len()
            invariant
                i <= entries@.len(),
                file_paths@.len() == i,
                forall|j: int|
                    0 <= j < i ==> entry_checked(#[trigger] entries@[j]) == Ok::<
                        Seq<char>,
                        PackageErrorView,
                    >(file_paths@[j]@),
            decreases entries@.len() - i,
        {
            let found = match &entries[i] {
                SourceEntry::Unreadable { .. } => None,
                SourceEntry::Untyped { path, .. } => extension(path.as_str()),
                SourceEntry::Typed { path, .. } => extension(path.as_str()),
            };
            match SourceDirectory::classify(&entries[i], found) {
                Ok(file_path) => {
                    file_paths.push(file_path);
                },
                Err(error) => {
                    assert(entry_checked(entries@[i as int]) == Err::<Seq<char>, PackageErrorView>(
                        error@,
                    ));
                    return Err(error);
                },
            }
            i = i + 1;
        }
        Ok(file_paths)
    }
}

} // verus!
