//! What can go wrong with the files of a package.

use vstd::prelude::*;

verus! {

/// What the file system says an entry is.
#[derive(Clone, Copy, Debug, PartialEq, Eq, Structural)]
pub enum FileKind {
    File,
    Directory,
    Other,
}

/// A failure in handling the files of a package. A `reason` is the text of
/// the failure that the file system reported.
#[derive(Debug, PartialEq, Eq)]
pub enum PackageError {
    FailedToCreateSourceDirectory { reason: String },
    FailedToReadInputsDirectory { reason: String },
    FailedToGetSourceFileEntry { reason: String },
    FailedToGetSourceFileType { path: String, reason: String },
    InvalidSourceFileType { path: String, kind: FileKind },
    FailedToGetSourceFileExtension { path: String },
    InvalidSourceFileExtension { path: String, extension: String },
    IoErrorReadmeFile { reason: String },
    IoErrorChecksumFile { reason: String },
    FailedToReadChecksumFile { path: String },
    FailedToRemoveChecksumFile { path: String },
}

/// A package error with its texts as sequences of characters.
pub enum PackageErrorView {
    FailedToCreateSourceDirectory { reason: Seq<char> },
    FailedToReadInputsDirectory { reason: Seq<char> },
    FailedToGetSourceFileEntry { reason: Seq<char> },
    FailedToGetSourceFileType { path: Seq<char>, reason: Seq<char> },
    InvalidSourceFileType { path: Seq<char>, kind: FileKind },
    FailedToGetSourceFileExtension { path: Seq<char> },
    InvalidSourceFileExtension { path: Seq<char>, extension: Seq<char> },
    IoErrorReadmeFile { reason: Seq<char> },
    IoErrorChecksumFile { reason: Seq<char> },
    FailedToReadChecksumFile { path: Seq<char> },
    FailedToRemoveChecksumFile { path: Seq<char> },
}

impl View for PackageError {
    type V = PackageErrorView;

    open spec fn view(&self) -> PackageErrorView {
        match self {
            PackageError::FailedToCreateSourceDirectory { reason } => {
                PackageErrorView::FailedToCreateSourceDirectory { reason: reason@ }
            },
            PackageError::FailedToReadInputsDirectory { reason } => {
                PackageErrorView::FailedToReadInputsDirectory { reason: reason@ }
            },
            PackageError::FailedToGetSourceFileEntry { reason } => {
                PackageErrorView::FailedToGetSourceFileEntry { reason: reason@ }
            },
            PackageError::FailedToGetSourceFileType { path, reason } => {
                PackageErrorView::FailedToGetSourceFileType { path: path@, reason: reason@ }
            },
            PackageError::InvalidSourceFileType { path, kind } => {
                PackageErrorView::InvalidSourceFileType { path: path@, kind: *kind }
            },
            PackageError::FailedToGetSourceFileExtension { path } => {
                PackageErrorView::FailedToGetSourceFileExtension { path: path@ }
            },
            PackageError::InvalidSourceFileExtension { path, extension } => {
                PackageErrorView::InvalidSourceFileExtension { path: path@, extension: extension@ }
            },
            PackageError::IoErrorReadmeFile { reason } => {
                PackageErrorView::IoErrorReadmeFile { reason: reason@ }
            },
            PackageError::IoErrorChecksumFile { reason } => {
                PackageErrorView::IoErrorChecksumFile { reason: reason@ }
            },
            PackageError::FailedToReadChecksumFile { path } => {
                PackageErrorView::FailedToReadChecksumFile { path: path@ }
            },
            PackageError::FailedToRemoveChecksumFile { path } => {
                PackageErrorView::FailedToRemoveChecksumFile { path: path@ }
            },
        }
    }
}

} // verus!
