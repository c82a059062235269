use etudes::geometry::Point;
use etudes::packages::{Language, PackageBuilder};

#[test]
fn test_ownership() {
    {
        let p = Point(3, 4);
        println!("{}", p.0);
    }
}

#[test]
fn test_copy_types() {
    let p1 = Point(3, 4);
    let p2 = p1;
    println!("p1: {p1:?}");
    println!("p2: {p2:?}");
}

#[test]
fn test_builder_type() {
    let base64 = PackageBuilder::new("base64").version("0.13").build();
    println!("{:?}", &base64);
    assert_eq!(base64.name, "base64");
    assert_eq!(base64.version, "0.13");

    let log = PackageBuilder::new("log")
        .version("0.4")
        .languange(Language::Rust)
        .build();
    println!("{:?}", &log);
    assert!(matches!(log.languange, Some(Language::Rust)));

    let serde = PackageBuilder::new("serde")
        .authors(vec!["martin".into()])
        .version("4.0")
        .dependency(base64.as_dependencies())
        .dependency(log.as_dependencies())
        .build();

    println!("{:?}", &serde);
    assert_eq!(serde.dependencies.len(), 2);
    assert_eq!(serde.dependencies[0].name, "base64");
    assert_eq!(serde.dependencies[0].version_expression, "0.13");
    assert_eq!(serde.dependencies[1].name, "log");
    assert_eq!(serde.dependencies[1].version_expression, "0.4");
    assert_eq!(serde.authors, vec![String::from("martin")]);
}

#[test]
fn test_new_builder_defaults() {
    let package = PackageBuilder::new("fresh").build();
    assert_eq!(package.name, "fresh");
    assert_eq!(package.version, "0.1");
    assert!(package.authors.is_empty());
    assert!(package.dependencies.is_empty());
    assert!(package.languange.is_none());
}
