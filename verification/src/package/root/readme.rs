//! The `README.md` file.

use vstd::prelude::*;
use crate::package::paths::extend;
use crate::package::paths::is_directory;
use crate::package::paths::is_present;
use crate::package::paths::path_extended;
use crate::package::paths::texts;

verus! {

/// The name of the readme file.
pub const README_FILENAME: &'static str = "README.md";

/// The readme file at the root of a package.
pub struct README {
    pub package_name: String,
}

/// The components that lead from a path to the readme file: the file's name
/// below a directory, nothing for a path that is the file itself.
pub open spec fn readme_components(is_dir: bool) -> Seq<Seq<char>> {
    if is_dir {
        seq!["README.md"@]
    } else {
        Seq::empty()
    }
}

/// The path of the readme file for a path that is, or is not, a directory.
pub open spec fn readme_path(path: Seq<char>, is_dir: bool) -> Seq<char> {
    let components = readme_components(is_dir);
    path_extended(path, components, components.len())
}

/// What the readme file of a package holds: a title with the package's
/// name, then the guide to building, testing and development.
pub open spec fn readme_text(package_name: Seq<char>) -> Seq<char> {
    "# "@ + package_name
        + "\n\n## Build Guide\n\nTo compile this Leo program, run:\n```bash\nleo build\n```\n\nTo test this Leo program, run:\n```bash\nleo test\n```\n\n## Development\n\nTo output the number of constraints, run:\n```bash\nleo build -d\n```\n"@
}

impl README {
    /// The readme file of the package of this name.
    pub fn new(package_name: &str) -> (file: Self)
        ensures
            file.package_name@ == package_name@,
    {
        Self { package_name: String::from_str(package_name) }
    }

    /// The name of the package.
    pub fn package_name(&self) -> (name: String)
        ensures
            name@ == self.package_name@,
    {
        self.package_name.clone()
    }

    /// The components to push onto a path to reach the readme file, given
    /// whether the path is a directory.
    pub fn components(is_dir: bool) -> (components: Vec<String>)
        ensures
            texts(components@) == readme_components(is_dir),
    {
        let mut components: Vec<String> = Vec::new();
        if is_dir {
            components.push(String::from_str(README_FILENAME));
        }
        assert(texts(components@) =~= readme_components(is_dir));
        components
    }

    /// The path of the readme file for a path of which the caller knows
    /// whether it is a directory.
    pub fn file_path(path: &str, is_dir: bool) -> (target: String)
        ensures
            target@ == readme_path(path@, is_dir),
    {
        let components = README::components(is_dir);
        extend(path, &components)
    }

    /// Whether the file system holds something at the path of the readme
    /// file.
    pub fn exists_at(path: &str) -> bool {
        let directory = is_directory(path);
        let target = README::file_path(path, directory);
        is_present(target.as_str())
    }

    /// The text of the readme file.
    pub fn template(&self) -> (text: String)
        ensures
            text@ == readme_text(self.package_name@),
    {
        String::from_str("# ").concat(self.package_name.as_str()).concat(
            "\n\n## Build Guide\n\nTo compile this Leo program, run:\n```bash\nleo build\n```\n\nTo test this Leo program, run:\n```bash\nleo test\n```\n\n## Development\n\nTo output the number of constraints, run:\n```bash\nleo build -d\n```\n",
        )
    }
}

} // verus!
