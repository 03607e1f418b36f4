use selfie::domain::dependency::{DependencyGraph, DependencyGraphError};
use selfie::domain::package::{Package, PackageBuilder};

fn create_test_package(name: &str) -> Package {
    PackageBuilder::default()
        .name(name)
        .version("1.0.0")
        .environment("test-env", "test install")
        .build()
}

#[test]
fn dependency_test_create_empty_graph() {
    let graph = DependencyGraph::default();
    assert!(graph.is_empty());
    assert_eq!(graph.len(), 0);
    assert!(graph.get_package_names().is_empty());
}

#[test]
fn dependency_test_add_single_node() {
    let mut graph = DependencyGraph::default();
    let package = create_test_package("test-package");

    assert!(graph.add_node(package).is_ok());
    assert_eq!(graph.len(), 1);
    assert_eq!(graph.get_package_names(), vec!["test-package"]);
}

#[test]
fn test_update_existing_node() {
    let mut graph = DependencyGraph::default();
    let package1 = create_test_package("test-package");

    let package2 = PackageBuilder::default()
        .name("test-package")
        .version("1.1.0")
        .environment("test-env", "test install")
        .build();

    assert!(graph.add_node(package1).is_ok());
    assert!(graph.add_node(package2).is_ok());
    assert_eq!(graph.len(), 1);

    let nodes = graph.installation_order().unwrap();
    assert_eq!(nodes[0].version, "1.1.0");
}

#[test]
fn dependency_test_add_valid_dependency() {
    let mut graph = DependencyGraph::default();
    let package1 = create_test_package("package1");
    let package2 = create_test_package("package2");

    assert!(graph.add_node(package1).is_ok());
    assert!(graph.add_node(package2).is_ok());
    assert!(graph.add_dependency("package1", "package2").is_ok());

    let order = graph.installation_order().unwrap();
    assert_eq!(order.len(), 2);
    assert_eq!(order[0].name, "package2");
    assert_eq!(order[1].name, "package1");
}

#[test]
fn dependency_test_add_dependency_missing_package() {
    let mut graph = DependencyGraph::default();
    let package = create_test_package("package1");

    assert!(graph.add_node(package).is_ok());
    assert!(matches!(
        graph.add_dependency("package1", "missing"),
        Err(DependencyGraphError::PackageNotFound(_))
    ));
}

#[test]
fn dependency_test_detect_simple_cycle() {
    let mut graph = DependencyGraph::default();
    let package1 = create_test_package("package1");
    let package2 = create_test_package("package2");

    assert!(graph.add_node(package1).is_ok());
    assert!(graph.add_node(package2).is_ok());
    assert!(graph.add_dependency("package1", "package2").is_ok());
    assert!(matches!(
        graph.add_dependency("package2", "package1"),
        Err(DependencyGraphError::CircularDependency(_, _))
    ));
}

#[test]
fn dependency_test_detect_complex_cycle() {
    let mut graph = DependencyGraph::default();
    let package1 = create_test_package("package1");
    let package2 = create_test_package("package2");
    let package3 = create_test_package("package3");

    assert!(graph.add_node(package1).is_ok());
    assert!(graph.add_node(package2).is_ok());
    assert!(graph.add_node(package3).is_ok());
    assert!(graph.add_dependency("package1", "package2").is_ok());
    assert!(graph.add_dependency("package2", "package3").is_ok());
    assert!(matches!(
        graph.add_dependency("package3", "package1"),
        Err(DependencyGraphError::CircularDependency(_, _))
    ));
}

#[test]
fn test_installation_order_simple() {
    let mut graph = DependencyGraph::default();
    let package1 = create_test_package("package1");
    let package2 = create_test_package("package2");
    let package3 = create_test_package("package3");

    assert!(graph.add_node(package1).is_ok());
    assert!(graph.add_node(package2).is_ok());
    assert!(graph.add_node(package3).is_ok());
    assert!(graph.add_dependency("package1", "package2").is_ok());
    assert!(graph.add_dependency("package2", "package3").is_ok());

    let order = graph.installation_order().unwrap();
    assert_eq!(order.len(), 3);
    assert_eq!(order[0].name, "package3");
    assert_eq!(order[1].name, "package2");
    assert_eq!(order[2].name, "package1");
}

#[test]
fn test_installation_order_diamond() {
    let mut graph = DependencyGraph::default();

    let main = create_test_package("main");
    let dep1 = create_test_package("dep1");
    let dep2 = create_test_package("dep2");
    let common = create_test_package("common");

    assert!(graph.add_node(main).is_ok());
    assert!(graph.add_node(dep1).is_ok());
    assert!(graph.add_node(dep2).is_ok());
    assert!(graph.add_node(common).is_ok());

    assert!(graph.add_dependency("main", "dep1").is_ok());
    assert!(graph.add_dependency("main", "dep2").is_ok());
    assert!(graph.add_dependency("dep1", "common").is_ok());
    assert!(graph.add_dependency("dep2", "common").is_ok());

    let order = graph.installation_order().unwrap();
    assert_eq!(order.len(), 4);

    assert_eq!(order[0].name, "common");
    assert!(order[1].name == "dep1" || order[1].name == "dep2");
    assert!(order[2].name == "dep1" || order[2].name == "dep2");
    assert_ne!(order[1].name, order[2].name);
    assert_eq!(order[3].name, "main");
}

#[test]
fn test_installation_order_multiple_deps() {
    let mut graph = DependencyGraph::default();

    let main = create_test_package("main");
    let dep1 = create_test_package("dep1");
    let dep2 = create_test_package("dep2");
    let dep3 = create_test_package("dep3");

    assert!(graph.add_node(main).is_ok());
    assert!(graph.add_node(dep1).is_ok());
    assert!(graph.add_node(dep2).is_ok());
    assert!(graph.add_node(dep3).is_ok());

    assert!(graph.add_dependency("main", "dep1").is_ok());
    assert!(graph.add_dependency("main", "dep2").is_ok());
    assert!(graph.add_dependency("main", "dep3").is_ok());

    let order = graph.installation_order().unwrap();
    assert_eq!(order.len(), 4);

    assert!(order[0].name == "dep1" || order[0].name == "dep2" || order[0].name == "dep3");
    assert!(order[1].name == "dep1" || order[1].name == "dep2" || order[1].name == "dep3");
    assert!(order[2].name == "dep1" || order[2].name == "dep2" || order[2].name == "dep3");
    assert_eq!(order[3].name, "main");

    assert_ne!(order[0].name, order[1].name);
    assert_ne!(order[0].name, order[2].name);
    assert_ne!(order[1].name, order[2].name);
}

#[test]
fn test_complex_dependency_graph() {
    let mut graph = DependencyGraph::default();

    let a = create_test_package("A");
    let b = create_test_package("B");
    let c = create_test_package("C");
    let d = create_test_package("D");
    let e = create_test_package("E");

    assert!(graph.add_node(a).is_ok());
    assert!(graph.add_node(b).is_ok());
    assert!(graph.add_node(c).is_ok());
    assert!(graph.add_node(d).is_ok());
    assert!(graph.add_node(e).is_ok());

    assert!(graph.add_dependency("A", "B").is_ok());
    assert!(graph.add_dependency("A", "C").is_ok());
    assert!(graph.add_dependency("A", "E").is_ok());
    assert!(graph.add_dependency("B", "D").is_ok());
    assert!(graph.add_dependency("C", "D").is_ok());

    let order = graph.installation_order().unwrap();
    assert_eq!(order.len(), 5);

    let a_pos = order.iter().position(|p| p.name == "A").unwrap();
    let b_pos = order.iter().position(|p| p.name == "B").unwrap();
    let c_pos = order.iter().position(|p| p.name == "C").unwrap();
    let d_pos = order.iter().position(|p| p.name == "D").unwrap();
    let e_pos = order.iter().position(|p| p.name == "E").unwrap();

    assert!(a_pos > b_pos);
    assert!(a_pos > c_pos);
    assert!(a_pos > e_pos);

    assert!(b_pos > d_pos);
    assert!(c_pos > d_pos);
}

#[test]
fn dependency_refused_cycle_reports_path_and_keeps_graph() {
    let mut graph = DependencyGraph::default();
    assert!(graph.add_node(create_test_package("x")).is_ok());
    assert!(graph.add_node(create_test_package("y")).is_ok());
    assert!(graph.add_dependency("x", "y").is_ok());
    match graph.add_dependency("y", "x") {
        Err(DependencyGraphError::CircularDependency(message, path)) => {
            assert_eq!(message, "Adding x as dependency of y would create a cycle");
            assert_eq!(path, vec!["y".to_string(), "x".to_string()]);
        }
        _ => panic!("expected a circular dependency"),
    }
    assert!(!graph.has_cycle());
    assert!(graph.find_cycles().is_empty());
    let order = graph.installation_order().unwrap();
    assert_eq!(order[0].name, "y");
    assert_eq!(order[1].name, "x");
}

#[test]
fn dependency_error_messages() {
    assert_eq!(
        DependencyGraphError::PackageNotFound("p".to_string()).to_string(),
        "Package not found: p"
    );
    assert_eq!(
        DependencyGraphError::InvalidDependency("d".to_string()).to_string(),
        "Invalid dependency: d"
    );
}
