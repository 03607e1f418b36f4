use selfie::filesystem::MockFileSystem;
use selfie::package_repo::{choose_package_file, is_yaml_file, join_paths, PackageRepository};
use selfie::ports::package_repo::PackageRepoError;

#[test]
fn test_get_package_success() {
    let mut fs = MockFileSystem::new();
    let package_dir = "/test/packages";
    let package_path = join_paths(package_dir, "ripgrep.yaml");
    fs.add_file(&package_path, "name: ripgrep\nversion: 0.1.0\n");
    fs.add_existing_path(package_dir);

    let repo = PackageRepository::new(&fs, package_dir);
    let file = repo.package_file("ripgrep").unwrap();
    assert_eq!(file, "/test/packages/ripgrep.yaml");
}

#[test]
fn test_get_package_not_found() {
    let mut fs = MockFileSystem::new();
    let package_dir = "/test/packages";
    fs.add_existing_path(package_dir);

    let repo = PackageRepository::new(&fs, package_dir);
    let result = repo.package_file("nonexistent");
    assert!(matches!(result, Err(PackageRepoError::PackageNotFound(_))));
}

#[test]
fn test_get_package_directory_not_found() {
    let fs = MockFileSystem::new();
    let repo = PackageRepository::new(&fs, "/test/nonexistent");
    let result = repo.package_file("ripgrep");
    assert!(matches!(result, Err(PackageRepoError::DirectoryNotFound(_))));
}

#[test]
fn test_get_package_multiple_found() {
    let mut fs = MockFileSystem::new();
    let package_dir = "/test/packages";
    fs.add_file(&join_paths(package_dir, "ripgrep.yaml"), "name: ripgrep");
    fs.add_file(&join_paths(package_dir, "ripgrep.yml"), "name: ripgrep");
    fs.add_existing_path(package_dir);

    let repo = PackageRepository::new(&fs, package_dir);
    let result = repo.package_file("ripgrep");
    assert!(matches!(result, Err(PackageRepoError::MultiplePackagesFound(_))));
}

#[test]
fn test_find_package_files() {
    let mut fs = MockFileSystem::new();
    let package_dir = "/test/packages";
    let yaml_path = join_paths(package_dir, "ripgrep.yaml");
    let yml_path = join_paths(package_dir, "other.yml");
    fs.add_file(&yaml_path, "dummy content");
    fs.add_file(&yml_path, "dummy content");
    fs.add_existing_path(package_dir);

    let repo = PackageRepository::new(&fs, package_dir);

    let files = repo.find_package_files("ripgrep").unwrap();
    assert_eq!(files.len(), 1);
    assert_eq!(files[0], yaml_path);

    let files = repo.find_package_files("other").unwrap();
    assert_eq!(files.len(), 1);
    assert_eq!(files[0], yml_path);

    let files = repo.find_package_files("nonexistent").unwrap();
    assert_eq!(files.len(), 0);
}

#[test]
fn test_list_yaml_files() {
    let mut fs = MockFileSystem::new();
    let dir = "/test/dir";
    fs.add_existing_path(dir);

    fs.add_file("/test/dir/file1.yaml", "content");
    fs.add_file("/test/dir/file2.yml", "content");
    fs.add_file("/test/dir/file3.txt", "content");
    fs.add_file("/test/dir/file4.YAML", "content");
    fs.add_file("/test/dir/file5.YML", "content");

    let repo = PackageRepository::new(&fs, "/dummy");
    let yaml_files = repo.list_yaml_files(dir).unwrap();

    assert_eq!(yaml_files.len(), 4);
    assert!(yaml_files.contains(&"/test/dir/file1.yaml".to_string()));
    assert!(yaml_files.contains(&"/test/dir/file2.yml".to_string()));
    assert!(yaml_files.contains(&"/test/dir/file4.YAML".to_string()));
    assert!(yaml_files.contains(&"/test/dir/file5.YML".to_string()));
    assert!(!yaml_files.contains(&"/test/dir/file3.txt".to_string()));
}

#[test]
fn package_repo_package_files_lists_yaml_files_of_the_directory() {
    let mut fs = MockFileSystem::new();
    let package_dir = "/test/packages";
    fs.add_existing_path(package_dir);
    fs.add_file("/test/packages/ripgrep.yaml", "a");
    fs.add_file("/test/packages/fzf.yml", "b");
    fs.add_file("/test/packages/notes.txt", "c");

    let repo = PackageRepository::new(&fs, package_dir);
    let files = repo.package_files().unwrap();
    assert_eq!(files, vec!["/test/packages/ripgrep.yaml".to_string(), "/test/packages/fzf.yml".to_string()]);

    let missing = PackageRepository::new(&fs, "/nope");
    assert!(matches!(missing.package_files(), Err(PackageRepoError::DirectoryNotFound(d)) if d == "/nope"));
}

#[test]
fn package_repo_yaml_extensions() {
    assert!(is_yaml_file("a.yaml"));
    assert!(is_yaml_file("/x/b.YmL"));
    assert!(!is_yaml_file("c.txt"));
    assert!(!is_yaml_file(".yaml"));
    assert!(!is_yaml_file("/dir.yaml/file"));
    assert!(!is_yaml_file("noext"));
    assert!(is_yaml_file("archive.tar.yml"));
}

#[test]
fn package_repo_join_paths() {
    assert_eq!(join_paths("/a", "b.yaml"), "/a/b.yaml");
    assert_eq!(join_paths("/a/", "b.yaml"), "/a/b.yaml");
    assert_eq!(join_paths("", "b.yaml"), "b.yaml");
    assert_eq!(join_paths("/a", "/etc/b.yaml"), "/etc/b.yaml");
}

#[test]
fn package_repo_choose_package_file() {
    assert!(matches!(choose_package_file("p", vec![]), Err(PackageRepoError::PackageNotFound(n)) if n == "p"));
    assert!(matches!(
        choose_package_file("p", vec!["a".to_string(), "b".to_string()]),
        Err(PackageRepoError::MultiplePackagesFound(n)) if n == "p"
    ));
    assert_eq!(choose_package_file("p", vec!["/d/p.yml".to_string()]).unwrap(), "/d/p.yml");
}

#[test]
fn package_repo_error_messages() {
    assert_eq!(PackageRepoError::PackageNotFound("x".to_string()).to_string(), "Package not found: x");
    assert_eq!(
        PackageRepoError::MultiplePackagesFound("x".to_string()).to_string(),
        "Multiple packages found with name: x"
    );
    assert_eq!(PackageRepoError::ParseError("bad".to_string()).to_string(), "Parse error: bad");
    assert_eq!(PackageRepoError::IoError("io".to_string()).to_string(), "IO error: io");
    assert_eq!(
        PackageRepoError::DirectoryNotFound("/d".to_string()).to_string(),
        "Directory does not exist: /d"
    );
}

/// The name, version and environment names a package file's text gives, read
/// field by field; none for a text that is no package.
fn package_summary(text: &str) -> Option<(String, String, Vec<String>)> {
    let v: serde_yaml::Value = serde_yaml::from_str(text).ok()?;
    let text_of = |x: &serde_yaml::Value| match x {
        serde_yaml::Value::String(s) => Some(s.clone()),
        serde_yaml::Value::Number(n) => Some(n.to_string()),
        _ => None,
    };
    let name = v.get("name").and_then(|x| text_of(x))?;
    let version = v.get("version").and_then(|x| text_of(x))?;
    let environments = match v.get("environments") {
        Some(serde_yaml::Value::Mapping(m)) => m.keys().filter_map(|k| text_of(k)).collect(),
        _ => return None,
    };
    Some((name, version, environments))
}

#[test]
fn test_list_packages() {
    let mut fs = MockFileSystem::new();
    let package_dir = "/test/packages";
    fs.add_existing_path(package_dir);

    let package1 = r#"
            name: ripgrep
            version: 1.0.0
            environments:
              test-env:
                install: brew install ripgrep
        "#;

    let package2 = r#"
            name: fzf
            version: 0.2.0
            environments:
              other-env:
                install: brew install fzf
        "#;

    fs.add_file(&join_paths(package_dir, "ripgrep.yaml"), package1);
    fs.add_file(&join_paths(package_dir, "fzf.yml"), package2);
    fs.add_file(&join_paths(package_dir, "invalid.yaml"), "not valid yaml: :");

    let repo = PackageRepository::new(&fs, package_dir);
    let packages: Vec<(String, String, Vec<String>)> = repo
        .package_files()
        .unwrap()
        .iter()
        .filter_map(|p| package_summary(&selfie::filesystem::FileSystem::read_file(&fs, p).unwrap()))
        .collect();

    assert_eq!(packages.len(), 2);

    let ripgrep = packages.iter().find(|p| p.0 == "ripgrep").unwrap();
    let fzf = packages.iter().find(|p| p.0 == "fzf").unwrap();

    assert_eq!(ripgrep.1, "1.0.0");
    assert!(ripgrep.2.contains(&"test-env".to_string()));

    assert_eq!(fzf.1, "0.2.0");
    assert!(fzf.2.contains(&"other-env".to_string()));
}
