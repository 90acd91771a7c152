use gencomp::discovery::{DirectoryFinder, DiscoveryError};
use std::path::{Path, PathBuf};
use tempfile::{tempdir, Builder, TempDir};

/// Creates the directory `name` inside `parent`; it lives as long as the guard.
fn make_dir(parent: &Path, name: &str) -> TempDir {
    Builder::new().prefix(name).rand_bytes(0).tempdir_in(parent).unwrap()
}

fn path_string(p: &Path) -> String {
    p.to_str().unwrap().to_string()
}

/// Probes the disk as a caller of the finder does, then lets it choose.
fn find(finder: &DirectoryFinder) -> PathBuf {
    let components_exists = Path::new(&finder.components_target()).exists();
    let src_components_exists = Path::new(&finder.src_components_target()).exists();
    PathBuf::from(
        finder
            .find_components_ui(components_exists, src_components_exists)
            .unwrap(),
    )
}

#[test]
fn find_components_ui_when_components_exists() {
    let dir = tempdir().unwrap();
    let start = dir.path().to_path_buf();

    let components_path = start.join("components");
    let _components = make_dir(&start, "components");

    let finder = DirectoryFinder::new(path_string(&start));
    let result = find(&finder);

    assert_eq!(result, components_path);
    assert!(result.exists());
}

#[test]
fn find_components_ui_when_src_components_exists() {
    let dir = tempdir().unwrap();
    let start = dir.path().to_path_buf();

    let src_components = start.join("src").join("components");
    let src = make_dir(&start, "src");
    let _src_components = make_dir(src.path(), "components");

    let finder = DirectoryFinder::new(path_string(&start));
    let result = find(&finder);

    assert_eq!(result, src_components);
    assert!(result.exists());
    assert!(!start.join("components").exists());
}

#[test]
fn find_components_ui_when_neither_exists() {
    let dir = tempdir().unwrap();
    let start = dir.path().to_path_buf();

    let finder = DirectoryFinder::new(path_string(&start));
    let result = find(&finder);

    let expected = start.join("components");
    assert_eq!(result, expected);
    assert!(!result.exists());
}

#[test]
fn find_components_ui_when_start_path_does_not_exist() {
    let start = PathBuf::from("/this/path/does/not/exist/12345");

    let finder = DirectoryFinder::new(path_string(&start));
    let result = find(&finder);

    let expected = start.join("components");
    assert_eq!(result, expected);
}

#[test]
fn find_components_ui_returns_components_over_src_components() {
    let dir = tempdir().unwrap();
    let start = dir.path().to_path_buf();

    let components = start.join("components");
    let _components = make_dir(&start, "components");

    let src = make_dir(&start, "src");
    let _src_components = make_dir(src.path(), "components");

    let finder = DirectoryFinder::new(path_string(&start));
    let result = find(&finder);

    assert_eq!(result, components);
}

#[test]
fn discovery_error_debug() {
    let err = DiscoveryError::NoProjectRoot;
    let _ = format!("{:?}", err);
}

#[test]
fn candidates_of_a_relative_start() {
    let finder = DirectoryFinder::new("project".to_string());
    assert_eq!(finder.components_target(), "project/components");
    assert_eq!(finder.src_components_target(), "project/src/components");
}

#[test]
fn choice_for_each_combination() {
    let finder = DirectoryFinder::new("/p/".to_string());
    assert_eq!(finder.find_components_ui(true, true).unwrap(), "/p/components");
    assert_eq!(finder.find_components_ui(true, false).unwrap(), "/p/components");
    assert_eq!(finder.find_components_ui(false, true).unwrap(), "/p/src/components");
    assert_eq!(finder.find_components_ui(false, false).unwrap(), "/p/components");
}

#[test]
fn empty_start_gives_relative_candidates() {
    let finder = DirectoryFinder::new(String::new());
    assert_eq!(finder.find_components_ui(false, false).unwrap(), "components");
    assert_eq!(finder.find_components_ui(false, true).unwrap(), "src/components");
}
