use selfie::filesystem::{parent, FileSystem, FileSystemError, MockFileSystem, MockFileSystemExt};

#[test]
fn test_mock_file_system() {
    let mut fs = MockFileSystem::new();

    fs.add_file("/test.txt", "Hello, World!");

    assert_eq!(fs.read_file("/test.txt").unwrap(), "Hello, World!");

    assert!(fs.path_exists("/test.txt"));
    assert!(!fs.path_exists("/nonexistent.txt"));

    assert_eq!(fs.expand_path("/test/path").unwrap(), "/test/path");
}

#[test]
fn test_mock_file_system_errors() {
    let fs = MockFileSystem::new();

    assert!(matches!(
        fs.read_file("/nonexistent.txt"),
        Err(FileSystemError::PathNotFound(_))
    ));
}

#[test]
fn test_reference_implementation() {
    let mut fs = MockFileSystem::new();
    fs.add_file("/test.txt", "Hello, World!");

    let fs_ref = &fs;
    assert!(fs_ref.path_exists("/test.txt"));
    assert_eq!(fs_ref.read_file("/test.txt").unwrap(), "Hello, World!");
}

#[test]
fn filesystem_test_list_directory() {
    let mut fs = MockFileSystem::new();

    let dir = "/test/dir";
    fs.add_existing_path(dir);

    let file1 = "/test/dir/file1.txt";
    let file2 = "/test/dir/file2.yaml";
    let file3 = "/test/dir/file3.yml";

    fs.add_file(file1, "contents1");
    fs.add_file(file2, "contents2");
    fs.add_file(file3, "contents3");

    let files = fs.list_directory(dir).unwrap();

    assert_eq!(files.len(), 3);
    assert!(files.contains(&file1.to_string()));
    assert!(files.contains(&file2.to_string()));
    assert!(files.contains(&file3.to_string()));

    let result = fs.list_directory("/nonexistent");
    assert!(result.is_err());
    assert!(matches!(result, Err(FileSystemError::PathNotFound(_))));
}

#[test]
fn filesystem_add_file_makes_its_directory_exist() {
    let mut fs = MockFileSystem::new();
    fs.add_file("/a/b/c.txt", "x");
    assert!(fs.path_exists("/a/b"));
    assert!(!fs.path_exists("/a"));
    assert_eq!(fs.list_directory("/a/b").unwrap(), vec!["/a/b/c.txt".to_string()]);
}

#[test]
fn filesystem_add_file_replaces_contents() {
    let mut fs = MockFileSystem::new();
    fs.add_file("/f.txt", "old");
    fs.add_file("/f.txt", "new");
    assert_eq!(fs.read_file("/f.txt").unwrap(), "new");
    assert_eq!(fs.list_directory("/").unwrap(), vec!["/f.txt".to_string()]);
}

#[test]
fn filesystem_list_directory_skips_nested_files() {
    let mut fs = MockFileSystem::new();
    fs.add_existing_path("/d");
    fs.add_file("/d/x.txt", "1");
    fs.add_file("/d/sub/y.txt", "2");
    assert_eq!(fs.list_directory("/d").unwrap(), vec!["/d/x.txt".to_string()]);
}

#[test]
fn filesystem_parent_paths() {
    assert_eq!(parent("/test/packages/x.yaml"), Some("/test/packages".to_string()));
    assert_eq!(parent("/x"), Some("/".to_string()));
    assert_eq!(parent("x.yaml"), Some(String::new()));
    assert_eq!(parent("a/b/"), Some("a".to_string()));
    assert_eq!(parent("/"), None);
    assert_eq!(parent(""), None);
}

#[test]
fn filesystem_config_dir() {
    let mut fs = MockFileSystem::new();
    assert!(matches!(fs.config_dir(), Err(FileSystemError::PathNotFound(_))));
    fs.mock_config_dir("/home/u/.config");
    assert_eq!(fs.config_dir().unwrap(), "/home/u/.config");
    assert_eq!(fs.canonicalize("/a/b").unwrap(), "/a/b");
}

#[test]
fn filesystem_error_messages() {
    assert_eq!(FileSystemError::IoError("boom".to_string()).to_string(), "IO error: boom");
    assert_eq!(FileSystemError::PathNotFound("/x".to_string()).to_string(), "Path not found: /x");
    assert_eq!(FileSystemError::InvalidPath("?".to_string()).to_string(), "Invalid path: ?");
    assert_eq!(FileSystemError::PermissionDenied("/r".to_string()).to_string(), "Permission denied: /r");
}

fn fill<M: MockFileSystemExt>(m: &mut M) {
    m.add_existing_path("/pkgs");
    m.add_file("/pkgs/a.yaml", "name: a");
}

#[test]
fn filesystem_ext_trait_fills_the_mock() {
    let mut fs = MockFileSystem::new();
    fill(&mut fs);
    assert!(fs.path_exists("/pkgs"));
    assert_eq!(fs.read_file("/pkgs/a.yaml").unwrap(), "name: a");
}
