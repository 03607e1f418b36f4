use selfie::config::{Config, ConfigBuilder};
use selfie::domain::dependency::DependencyGraphError;
use selfie::domain::package::{Package, PackageBuilder};
use selfie::package_installer::dependency::{DependencyResolver, DependencyResolverError};
use selfie::package_installer::PackageInstallerError;
use selfie::ports::package_repo::{MockPackageRepository, PackageRepoError, PackageRepository};

fn setup_test_environment() -> (MockPackageRepository, Config) {
    let repo = MockPackageRepository::new();
    let config = ConfigBuilder::default()
        .environment("test-env")
        .package_directory("/test/packages")
        .build();
    (repo, config)
}

fn create_test_package(name: &str, version: &str, dependencies: &[&str]) -> Package {
    PackageBuilder::default()
        .name(name)
        .version(version)
        .environment_with_dependencies("test-env", &format!("echo \"Installing {}\"", name), dependencies.to_vec())
        .build()
}

#[test]
fn test_resolve_simple_dependency() {
    let (mut repo, config) = setup_test_environment();
    repo.mock_get_package_ok("main-pkg", create_test_package("main-pkg", "1.0.0", &["dep-pkg"]));
    repo.mock_get_package_ok("dep-pkg", create_test_package("dep-pkg", "1.0.0", &[]));

    let resolver = DependencyResolver::new(&repo, &config);
    let result = resolver.resolve_dependencies("main-pkg");

    assert!(result.is_ok());
    let packages = result.unwrap();
    assert_eq!(packages.len(), 2);
    assert_eq!(packages[0].name, "dep-pkg");
    assert_eq!(packages[1].name, "main-pkg");
}

#[test]
fn test_resolve_deep_dependency_chain() {
    let (mut repo, config) = setup_test_environment();
    repo.mock_get_package_ok("main-pkg", create_test_package("main-pkg", "1.0.0", &["dep1"]));
    repo.mock_get_package_ok("dep1", create_test_package("dep1", "1.0.0", &["dep2"]));
    repo.mock_get_package_ok("dep2", create_test_package("dep2", "1.0.0", &["dep3"]));
    repo.mock_get_package_ok("dep3", create_test_package("dep3", "1.0.0", &[]));

    let resolver = DependencyResolver::new(&repo, &config);
    let result = resolver.resolve_dependencies("main-pkg");

    assert!(result.is_ok());
    let packages = result.unwrap();
    assert_eq!(packages.len(), 4);
    assert_eq!(packages[0].name, "dep3");
    assert_eq!(packages[1].name, "dep2");
    assert_eq!(packages[2].name, "dep1");
    assert_eq!(packages[3].name, "main-pkg");
}

#[test]
fn test_resolve_diamond_dependency() {
    let (mut repo, config) = setup_test_environment();
    repo.mock_get_package_ok("main-pkg", create_test_package("main-pkg", "1.0.0", &["dep1", "dep2"]));
    repo.mock_get_package_ok("dep1", create_test_package("dep1", "1.0.0", &["common-dep"]));
    repo.mock_get_package_ok("dep2", create_test_package("dep2", "1.0.0", &["common-dep"]));
    repo.mock_get_package_ok("common-dep", create_test_package("common-dep", "1.0.0", &[]));

    let resolver = DependencyResolver::new(&repo, &config);
    let result = resolver.resolve_dependencies("main-pkg");

    assert!(result.is_ok());
    let packages = result.unwrap();
    assert_eq!(packages.len(), 4);
    assert!(packages.iter().any(|p| p.name == "common-dep"));
    assert!(packages.iter().any(|p| p.name == "dep1"));
    assert!(packages.iter().any(|p| p.name == "dep2"));
    assert_eq!(packages.last().unwrap().name, "main-pkg");
}

#[test]
fn test_detect_circular_dependency() {
    let (mut repo, config) = setup_test_environment();
    repo.mock_get_package_ok("main-pkg", create_test_package("main-pkg", "1.0.0", &["dep1"]));
    repo.mock_get_package_ok("dep1", create_test_package("dep1", "1.0.0", &["main-pkg"]));

    let resolver = DependencyResolver::new(&repo, &config);
    let result = resolver.resolve_dependencies("main-pkg");

    assert!(result.is_err());
    match result {
        Err(DependencyResolverError::GraphError(DependencyGraphError::CircularDependency(_, _))) => {}
        Err(DependencyResolverError::CircularDependency(_)) => {}
        other => panic!("Expected circular dependency error; got {:?}", other),
    }
}

#[test]
fn test_dependency_not_found() {
    let (mut repo, config) = setup_test_environment();
    repo.mock_get_package_ok("main-pkg", create_test_package("main-pkg", "1.0.0", &["missing-dep"]));

    let resolver = DependencyResolver::new(&repo, &config);
    let result = resolver.resolve_dependencies("main-pkg");

    assert!(result.is_err());
    match result {
        Err(DependencyResolverError::PackageNotFound(name)) => {
            assert_eq!(name, "missing-dep");
        }
        _ => panic!("Expected package not found error"),
    }
}

#[test]
fn test_environment_not_supported() {
    let (mut repo, config) = setup_test_environment();
    repo.mock_get_package_ok("main-pkg", create_test_package("main-pkg", "1.0.0", &["dep1"]));
    let dep1 = PackageBuilder::default()
        .name("dep1")
        .version("1.0.0")
        .environment("different-env", "echo \"Installing dep1\"")
        .build();
    repo.mock_get_package_ok("dep1", dep1);

    let resolver = DependencyResolver::new(&repo, &config);
    let result = resolver.resolve_dependencies("main-pkg");

    assert!(result.is_err());
    match result {
        Err(DependencyResolverError::EnvironmentNotSupported(env, name)) => {
            assert_eq!(env, "test-env");
            assert_eq!(name, "dep1");
        }
        _ => panic!("Expected environment not supported error"),
    }
}

#[test]
fn resolver_self_dependency_is_a_cycle() {
    let (mut repo, config) = setup_test_environment();
    repo.mock_get_package_ok("a", create_test_package("a", "1.0.0", &["a"]));
    let resolver = DependencyResolver::new(&repo, &config);
    match resolver.resolve_dependencies("a") {
        Err(DependencyResolverError::GraphError(DependencyGraphError::CircularDependency(m, path))) => {
            assert_eq!(m, "Adding a as dependency of a would create a cycle");
            assert_eq!(path, vec!["a".to_string(), "a".to_string()]);
        }
        other => panic!("Expected a cycle; got {:?}", other),
    }
}

#[test]
fn resolver_repository_errors_are_kept() {
    let (mut repo, config) = setup_test_environment();
    repo.mock_get_package_err("main-pkg", PackageRepoError::MultiplePackagesFound("main-pkg".to_string()));
    let resolver = DependencyResolver::new(&repo, &config);
    assert!(matches!(
        resolver.resolve_dependencies("main-pkg"),
        Err(DependencyResolverError::MultiplePackagesFound(n)) if n == "main-pkg"
    ));

    let (mut repo, config) = setup_test_environment();
    repo.mock_get_package_err("main-pkg", PackageRepoError::IoError("disk".to_string()));
    let resolver = DependencyResolver::new(&repo, &config);
    assert!(matches!(
        resolver.resolve_dependencies("main-pkg"),
        Err(DependencyResolverError::RepoError(PackageRepoError::IoError(m))) if m == "disk"
    ));
}

#[test]
fn resolver_order_puts_every_dependency_first() {
    let (mut repo, config) = setup_test_environment();
    repo.mock_get_package_ok("app", create_test_package("app", "1.0.0", &["lib", "tool"]));
    repo.mock_get_package_ok("lib", create_test_package("lib", "1.0.0", &["core"]));
    repo.mock_get_package_ok("tool", create_test_package("tool", "1.0.0", &["core", "lib"]));
    repo.mock_get_package_ok("core", create_test_package("core", "1.0.0", &[]));

    let resolver = DependencyResolver::new(&repo, &config);
    let packages = resolver.resolve_dependencies("app").unwrap();
    let names: Vec<&str> = packages.iter().map(|p| p.name.as_str()).collect();
    assert_eq!(names.len(), 4);
    let pos = |n: &str| names.iter().position(|x| *x == n).unwrap();
    assert!(pos("core") < pos("lib"));
    assert!(pos("core") < pos("tool"));
    assert!(pos("lib") < pos("tool"));
    assert_eq!(pos("app"), 3);
}

#[test]
fn resolver_error_messages() {
    assert_eq!(
        DependencyResolverError::EnvironmentNotSupported("mac".to_string(), "rg".to_string()).to_string(),
        "Environment mac not supported by package rg"
    );
    assert_eq!(
        DependencyResolverError::RepoError(PackageRepoError::IoError("x".to_string())).to_string(),
        "Repository error: IO error: x"
    );
    assert_eq!(
        DependencyResolverError::GraphError(DependencyGraphError::PackageNotFound("p".to_string())).to_string(),
        "Dependency graph error: Package not found: p"
    );
}

#[test]
fn installer_error_from_resolver_error() {
    let e: PackageInstallerError = DependencyResolverError::PackageNotFound("p".to_string()).into();
    assert!(matches!(e, PackageInstallerError::PackageNotFound(n) if n == "p"));

    let e: PackageInstallerError =
        DependencyResolverError::GraphError(DependencyGraphError::CircularDependency("m".to_string(), vec![])).into();
    assert!(matches!(e, PackageInstallerError::CircularDependency(m) if m == "m"));

    let e: PackageInstallerError =
        DependencyResolverError::EnvironmentNotSupported("e".to_string(), "p".to_string()).into();
    assert_eq!(e.to_string(), "Dependency error: Environment e not supported by package p");

    let e: PackageInstallerError = DependencyResolverError::RepoError(PackageRepoError::IoError("x".to_string())).into();
    assert_eq!(e.to_string(), "Package repository error: IO error: x");
}

#[test]
fn mock_repository_answers_in_order() {
    let mut repo = MockPackageRepository::new();
    repo.mock_get_package_ok("a", create_test_package("a", "1.0.0", &[]));
    repo.mock_get_package_err("b", PackageRepoError::ParseError("bad".to_string()));
    assert_eq!(repo.get_package("a").unwrap().name, "a");
    assert!(matches!(repo.get_package("b"), Err(PackageRepoError::ParseError(m)) if m == "bad"));
    assert!(matches!(repo.get_package("c"), Err(PackageRepoError::PackageNotFound(n)) if n == "c"));
    assert_eq!(repo.list_packages().unwrap().len(), 1);
}
