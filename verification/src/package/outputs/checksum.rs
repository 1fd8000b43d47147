//! The build checksum file.

use vstd::prelude::*;
use crate::package::paths::ends_with;
use crate::package::paths::is_present;
use crate::package::paths::extend;
use crate::package::paths::is_directory;
use crate::package::paths::path_ends_with;
use crate::package::paths::path_extended;
use crate::package::paths::texts;

verus! {

/// The directory of the build outputs, below the root of a package.
pub const OUTPUTS_DIRECTORY_NAME: &'static str = "outputs/";

/// What follows the package's name in the name of its checksum file.
pub const CHECKSUM_FILE_EXTENSION: &'static str = ".sum";

/// The file that holds the checksum of the last build of a package.
pub struct ChecksumFile {
    pub package_name: String,
}

/// The name of the checksum file of a package: the package's name and the
/// extension.
pub open spec fn checksum_file_name(package_name: Seq<char>) -> Seq<char> {
    package_name + ".sum"@
}

/// The components that lead from a path to the checksum file. A path that
/// is no directory is the file itself. Below a directory the file lies in
/// the outputs directory, which is added unless the path ends with it.
pub open spec fn checksum_components(package_name: Seq<char>, is_dir: bool, in_outputs: bool) -> Seq<
    Seq<char>,
> {
    if !is_dir {
        Seq::empty()
    } else if in_outputs {
        seq![checksum_file_name(package_name)]
    } else {
        seq!["outputs/"@, checksum_file_name(package_name)]
    }
}

/// The path of the checksum file for a path that is, or is not, a directory.
pub open spec fn checksum_path(path: Seq<char>, package_name: Seq<char>, is_dir: bool) -> Seq<char> {
    let components = checksum_components(package_name, is_dir, path_ends_with(path, "outputs/"@));
    path_extended(path, components, components.len())
}

impl ChecksumFile {
    /// The checksum file of the package of this name.
    pub fn new(package_name: &str) -> (file: Self)
        ensures
            file.package_name@ == package_name@,
    {
        Self { package_name: String::from_str(package_name) }
    }

    /// The name of the checksum file.
    pub fn file_name(&self) -> (name: String)
        ensures
            name@ == checksum_file_name(self.package_name@),
    {
        self.package_name.clone().concat(CHECKSUM_FILE_EXTENSION)
    }

    /// The components to push onto a path to reach the checksum file, given
    /// whether the path is a directory and whether it ends with the outputs
    /// directory.
    pub fn components(&self, is_dir: bool, in_outputs: bool) -> (components: Vec<String>)
        ensures
            texts(components@) == checksum_components(self.package_name@, is_dir, in_outputs),
    {
        let mut components: Vec<String> = Vec::new();
        if is_dir {
            if !in_outputs {
                components.push(String::from_str(OUTPUTS_DIRECTORY_NAME));
            }
            components.push(self.file_name());
        }
        assert(texts(components@) =~= checksum_components(
            self.package_name@,
            is_dir,
            in_outputs,
        ));
        components
    }

    /// The path of the checksum file for a path of which the caller knows
    /// whether it is a directory.
    pub fn file_path(&self, path: &str, is_dir: bool) -> (target: String)
        ensures
            target@ == checksum_path(path@, self.package_name@, is_dir),
    {
        let in_outputs = ends_with(path, OUTPUTS_DIRECTORY_NAME);
        let components = self.components(is_dir, in_outputs);
        extend(path, &components)
    }

    /// The path of the checksum file, after asking the file system whether
    /// the path is a directory.
    pub fn setup_file_path(&self, path: &str) -> (target: String)
        ensures
            target@ == checksum_path(path@, self.package_name@, true) || target@ == checksum_path(
                path@,
                self.package_name@,
                false,
            ),
    {
        let directory = is_directory(path);
        self.file_path(path, directory)
    }

    /// Whether the file system holds something at the path of the checksum
    /// file.
    pub fn exists_at(&self, path: &str) -> bool {
        let target = self.setup_file_path(path);
        is_present(target.as_str())
    }
}

} // verus!
