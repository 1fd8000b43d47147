use leo_synth::package::errors::FileKind;
use leo_synth::package::errors::PackageError;
use leo_synth::package::outputs::checksum::ChecksumFile;
use leo_synth::package::outputs::checksum::CHECKSUM_FILE_EXTENSION;
use leo_synth::package::outputs::checksum::OUTPUTS_DIRECTORY_NAME;
use leo_synth::package::paths::extend;
use leo_synth::package::root::readme::README;
use leo_synth::package::root::readme::README_FILENAME;
use leo_synth::package::source::directory::SourceDirectory;
use leo_synth::package::source::directory::SourceEntry;
use leo_synth::package::source::directory::SOURCE_DIRECTORY_NAME;
use leo_synth::package::source::directory::SOURCE_FILE_EXTENSION;

fn file(path: &str) -> SourceEntry {
    SourceEntry::Typed { path: path.to_string(), kind: FileKind::File }
}

#[test]
fn names_of_the_package_files() {
    assert_eq!(OUTPUTS_DIRECTORY_NAME, "outputs/");
    assert_eq!(CHECKSUM_FILE_EXTENSION, ".sum");
    assert_eq!(README_FILENAME, "README.md");
    assert_eq!(SOURCE_DIRECTORY_NAME, "src/");
    assert_eq!(SOURCE_FILE_EXTENSION, ".leo");
}

#[test]
fn checksum_file_keeps_its_package_name() {
    let checksum = ChecksumFile::new("hello");
    assert_eq!(checksum.package_name, "hello");
    assert_eq!(checksum.file_name(), "hello.sum");
}

#[test]
fn checksum_components_by_case() {
    let checksum = ChecksumFile::new("hello");
    assert_eq!(checksum.components(false, false), Vec::<String>::new());
    assert_eq!(checksum.components(false, true), Vec::<String>::new());
    assert_eq!(checksum.components(true, true), vec!["hello.sum".to_string()]);
    assert_eq!(checksum.components(true, false), vec!["outputs/".to_string(), "hello.sum".to_string()]);
}

#[test]
fn checksum_path_below_a_directory() {
    let checksum = ChecksumFile::new("hello");
    assert_eq!(checksum.file_path("project", true), "project/outputs/hello.sum");
    assert_eq!(checksum.file_path("project/", true), "project/outputs/hello.sum");
    assert_eq!(checksum.file_path("project/outputs", true), "project/outputs/hello.sum");
    assert_eq!(checksum.file_path("project/outputs/", true), "project/outputs/hello.sum");
    assert_eq!(checksum.file_path("project/my_outputs", true), "project/my_outputs/outputs/hello.sum");
}

#[test]
fn checksum_path_of_a_file_is_the_path() {
    let checksum = ChecksumFile::new("hello");
    assert_eq!(checksum.file_path("project/outputs/other.sum", false), "project/outputs/other.sum");
    assert_eq!(checksum.file_path("", false), "");
}

#[test]
fn checksum_setup_asks_the_file_system() {
    let checksum = ChecksumFile::new("hello");
    assert_eq!(checksum.setup_file_path("/"), "/outputs/hello.sum");
    assert_eq!(checksum.setup_file_path("/dev/null"), "/dev/null");
    assert_eq!(checksum.setup_file_path("/no/such/place"), "/no/such/place");
}

#[test]
fn checksum_exists_at() {
    let checksum = ChecksumFile::new("hello");
    assert!(checksum.exists_at("/dev/null"));
    assert!(!checksum.exists_at("/no/such/place"));
    assert!(!checksum.exists_at("/dev"));
}

#[test]
fn readme_keeps_its_package_name() {
    let readme = README::new("hello");
    assert_eq!(readme.package_name(), "hello");
    assert_eq!(readme.package_name, "hello");
}

#[test]
fn readme_path_by_case() {
    assert_eq!(README::components(true), vec!["README.md".to_string()]);
    assert_eq!(README::components(false), Vec::<String>::new());
    assert_eq!(README::file_path("project", true), "project/README.md");
    assert_eq!(README::file_path("project/notes.md", false), "project/notes.md");
}

#[test]
fn readme_exists_at() {
    assert!(README::exists_at("/dev/null"));
    assert!(!README::exists_at("/no/such/place"));
    assert!(!README::exists_at("/dev"));
}

#[test]
fn readme_template_names_the_package() {
    let text = README::new("hello").template();
    assert_eq!(
        text,
        "# hello\n\n## Build Guide\n\nTo compile this Leo program, run:\n```bash\nleo build\n```\n\nTo test this Leo program, run:\n```bash\nleo test\n```\n\n## Development\n\nTo output the number of constraints, run:\n```bash\nleo build -d\n```\n"
    );
    assert!(README::new("").template().starts_with("# \n\n## Build Guide"));
}

#[test]
fn extend_pushes_in_order() {
    assert_eq!(extend("a", &vec![]), "a");
    assert_eq!(extend("a", &vec!["b".to_string()]), "a/b");
    assert_eq!(extend("a", &vec!["b".to_string(), "c.d".to_string()]), "a/b/c.d");
    assert_eq!(extend("a", &vec!["/b".to_string(), "c".to_string()]), "/b/c");
}

#[test]
fn source_directory_path_by_case() {
    assert_eq!(SourceDirectory::components(true, false), vec!["src/".to_string()]);
    assert_eq!(SourceDirectory::components(true, true), Vec::<String>::new());
    assert_eq!(SourceDirectory::components(false, false), Vec::<String>::new());
    assert_eq!(SourceDirectory::components(false, true), Vec::<String>::new());
    assert_eq!(SourceDirectory::directory_path("project", true), "project/src/");
    assert_eq!(SourceDirectory::directory_path("project/src", true), "project/src");
    assert_eq!(SourceDirectory::directory_path("project/src/", true), "project/src/");
    assert_eq!(SourceDirectory::directory_path("project/new", false), "project/new");
    assert_eq!(SourceDirectory::listing_path("project"), "project/src/");
}

#[test]
fn source_files_are_listed_in_order() {
    let entries = vec![file("p/src/main.leo"), file("p/src/lib.leo"), file("p/src/a.b.leo")];
    assert_eq!(
        SourceDirectory::files(&entries),
        Ok(vec!["p/src/main.leo".to_string(), "p/src/lib.leo".to_string(), "p/src/a.b.leo".to_string()])
    );
    assert_eq!(SourceDirectory::files(&vec![]), Ok(vec![]));
}

#[test]
fn source_entry_that_cannot_be_read() {
    let entries = vec![file("p/src/main.leo"), SourceEntry::Unreadable { reason: "denied".to_string() }];
    assert_eq!(
        SourceDirectory::files(&entries),
        Err(PackageError::FailedToGetSourceFileEntry { reason: "denied".to_string() })
    );
}

#[test]
fn source_entry_without_a_type() {
    let entries = vec![SourceEntry::Untyped { path: "p/src/main.leo".to_string(), reason: "gone".to_string() }];
    assert_eq!(
        SourceDirectory::files(&entries),
        Err(PackageError::FailedToGetSourceFileType { path: "p/src/main.leo".to_string(), reason: "gone".to_string() })
    );
}

#[test]
fn source_entry_that_is_no_file() {
    let entries = vec![SourceEntry::Typed { path: "p/src/nested.leo".to_string(), kind: FileKind::Directory }];
    assert_eq!(
        SourceDirectory::files(&entries),
        Err(PackageError::InvalidSourceFileType { path: "p/src/nested.leo".to_string(), kind: FileKind::Directory })
    );
    let entries = vec![SourceEntry::Typed { path: "p/src/link".to_string(), kind: FileKind::Other }];
    assert_eq!(
        SourceDirectory::files(&entries),
        Err(PackageError::InvalidSourceFileType { path: "p/src/link".to_string(), kind: FileKind::Other })
    );
}

#[test]
fn source_file_without_an_extension() {
    assert_eq!(
        SourceDirectory::files(&vec![file("p/src/Makefile")]),
        Err(PackageError::FailedToGetSourceFileExtension { path: "p/src/Makefile".to_string() })
    );
    assert_eq!(
        SourceDirectory::files(&vec![file("p/src/.leo")]),
        Err(PackageError::FailedToGetSourceFileExtension { path: "p/src/.leo".to_string() })
    );
}

#[test]
fn source_file_with_another_extension() {
    assert_eq!(
        SourceDirectory::files(&vec![file("p/src/main.rs")]),
        Err(PackageError::InvalidSourceFileExtension { path: "p/src/main.rs".to_string(), extension: "rs".to_string() })
    );
    assert_eq!(
        SourceDirectory::files(&vec![file("p/src/main.LEO")]),
        Err(PackageError::InvalidSourceFileExtension { path: "p/src/main.LEO".to_string(), extension: "LEO".to_string() })
    );
    assert_eq!(
        SourceDirectory::files(&vec![file("p/src/main.leo.")]),
        Err(PackageError::InvalidSourceFileExtension { path: "p/src/main.leo.".to_string(), extension: "".to_string() })
    );
}

#[test]
fn the_first_fault_is_reported() {
    let entries = vec![
        file("p/src/main.leo"),
        file("p/src/notes.txt"),
        SourceEntry::Unreadable { reason: "later".to_string() },
    ];
    assert_eq!(
        SourceDirectory::files(&entries),
        Err(PackageError::InvalidSourceFileExtension { path: "p/src/notes.txt".to_string(), extension: "txt".to_string() })
    );
}

#[test]
fn classify_goes_by_the_extension_it_is_given() {
    let entry = file("p/src/main.leo");
    assert_eq!(SourceDirectory::classify(&entry, Some("leo".to_string())), Ok("p/src/main.leo".to_string()));
    assert_eq!(
        SourceDirectory::classify(&entry, Some("aleo".to_string())),
        Err(PackageError::InvalidSourceFileExtension { path: "p/src/main.leo".to_string(), extension: "aleo".to_string() })
    );
    assert_eq!(
        SourceDirectory::classify(&entry, None),
        Err(PackageError::FailedToGetSourceFileExtension { path: "p/src/main.leo".to_string() })
    );
    let directory = SourceEntry::Typed { path: "p/src/main.leo".to_string(), kind: FileKind::Directory };
    assert_eq!(
        SourceDirectory::classify(&directory, Some("leo".to_string())),
        Err(PackageError::InvalidSourceFileType { path: "p/src/main.leo".to_string(), kind: FileKind::Directory })
    );
    let unreadable = SourceEntry::Unreadable { reason: "r".to_string() };
    assert_eq!(
        SourceDirectory::classify(&unreadable, Some("leo".to_string())),
        Err(PackageError::FailedToGetSourceFileEntry { reason: "r".to_string() })
    );
}
