use selfie::domain::package::{Package, PackageBuilder};
use selfie::graph::{DependencyGraph, DependencyGraphError};

fn create_test_package(name: &str) -> Package {
    PackageBuilder::default()
        .name(name)
        .version("1.0.0")
        .environment("test-env", "test install")
        .build()
}

#[test]
fn graph_test_create_empty_graph() {
    let graph = DependencyGraph::default();
    assert!(graph.is_empty());
    assert_eq!(graph.len(), 0);
}

#[test]
fn graph_test_add_single_node() {
    let mut graph = DependencyGraph::default();
    let package = create_test_package("test-package");

    assert!(graph.add_node(package).is_ok());
    assert_eq!(graph.len(), 1);
}

#[test]
fn test_add_duplicate_node() {
    let mut graph = DependencyGraph::default();
    let package1 = create_test_package("test-package");
    let package2 = create_test_package("test-package");

    assert!(graph.add_node(package1).is_ok());
    assert!(matches!(
        graph.add_node(package2),
        Err(DependencyGraphError::DuplicatePackage(_))
    ));
}

#[test]
fn graph_test_add_valid_dependency() {
    let mut graph = DependencyGraph::default();
    let package1 = create_test_package("package1");
    let package2 = create_test_package("package2");

    assert!(graph.add_node(package1).is_ok());
    assert!(graph.add_node(package2).is_ok());
    assert!(graph.add_dependency("package1", "package2").is_ok());
}

#[test]
fn graph_test_add_dependency_missing_package() {
    let mut graph = DependencyGraph::default();
    let package = create_test_package("package1");

    assert!(graph.add_node(package).is_ok());
    assert!(matches!(
        graph.add_dependency("package1", "missing"),
        Err(DependencyGraphError::PackageNotFound(_))
    ));
}

#[test]
fn graph_test_detect_simple_cycle() {
    let mut graph = DependencyGraph::default();
    let package1 = create_test_package("package1");
    let package2 = create_test_package("package2");

    assert!(graph.add_node(package1).is_ok());
    assert!(graph.add_node(package2).is_ok());
    assert!(graph.add_dependency("package1", "package2").is_ok());
    assert!(matches!(
        graph.add_dependency("package2", "package1"),
        Err(DependencyGraphError::CircularDependency(_))
    ));
}

#[test]
fn graph_test_detect_complex_cycle() {
    let mut graph = DependencyGraph::default();
    let package1 = create_test_package("package1");
    let package2 = create_test_package("package2");
    let package3 = create_test_package("package3");

    assert!(graph.add_node(package1).is_ok());
    assert!(graph.add_node(package2).is_ok());
    assert!(graph.add_node(package3).is_ok());
    assert!(graph.add_dependency("package1", "package2").is_ok());
    assert!(graph.add_dependency("package2", "package3").is_ok());
    assert!(matches!(
        graph.add_dependency("package3", "package1"),
        Err(DependencyGraphError::CircularDependency(_))
    ));
}

#[test]
fn test_installation_order() {
    let mut graph = DependencyGraph::default();
    let package1 = create_test_package("package1");
    let package2 = create_test_package("package2");
    let package3 = create_test_package("package3");

    assert!(graph.add_node(package1).is_ok());
    assert!(graph.add_node(package2).is_ok());
    assert!(graph.add_node(package3).is_ok());
    assert!(graph.add_dependency("package1", "package2").is_ok());
    assert!(graph.add_dependency("package2", "package3").is_ok());

    let order = graph.installation_order().unwrap();
    assert_eq!(order.len(), 3);
    assert_eq!(order[0].name, "package3");
    assert_eq!(order[1].name, "package2");
    assert_eq!(order[2].name, "package1");
}

#[test]
fn graph_cycle_message_names_both_packages() {
    let mut graph = DependencyGraph::default();
    assert!(graph.add_node(create_test_package("a")).is_ok());
    assert!(graph.add_node(create_test_package("b")).is_ok());
    assert!(graph.add_dependency("a", "b").is_ok());
    let err = graph.add_dependency("b", "a").unwrap_err();
    assert_eq!(
        err.to_string(),
        "Circular dependency detected: Adding a as dependency of b would create a cycle"
    );
    // the refused dependency left the graph as it was
    let order = graph.installation_order().unwrap();
    assert_eq!(order[0].name, "b");
    assert_eq!(order[1].name, "a");
}

#[test]
fn graph_self_dependency_is_a_cycle() {
    let mut graph = DependencyGraph::default();
    assert!(graph.add_node(create_test_package("a")).is_ok());
    assert!(matches!(
        graph.add_dependency("a", "a"),
        Err(DependencyGraphError::CircularDependency(_))
    ));
    assert!(!graph.has_cycle());
}

#[test]
fn graph_duplicate_package_message() {
    let mut graph = DependencyGraph::default();
    assert!(graph.add_node(create_test_package("a")).is_ok());
    let err = graph.add_node(create_test_package("a")).unwrap_err();
    assert_eq!(err.to_string(), "Duplicate package: a");
    assert_eq!(graph.len(), 1);
}
