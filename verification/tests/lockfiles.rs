use cargo_prepopulate::document::{parse_toml, read_packages, read_record};
use cargo_prepopulate::error::{LockIssue, PrepopError, RecordField};
use cargo_prepopulate::package::{project_shape, Package, PackageRecord, ProjectShape};
use cargo_prepopulate::lockfile::{parse_lockfile, project_of_document};
use cargo_prepopulate::scaffold::{
    check_lock_file_name, plan_scaffold, populate_member, prepopulate,
};

const REGISTRY: &str = "(registry+https://github.com/rust-lang/crates.io-index)";

const SINGLE: &str = "[[package]]\n\
name = \"app\"\n\
version = \"0.1.0\"\n\
dependencies = [\n\
 \"serde 1.0.0 (registry+https://github.com/rust-lang/crates.io-index)\",\n\
]\n\
\n\
[[package]]\n\
name = \"serde\"\n\
version = \"1.0.0\"\n\
source = \"registry+https://github.com/rust-lang/crates.io-index\"\n\
\n\
[metadata]\n\
\"checksum serde 1.0.0 (registry+https://github.com/rust-lang/crates.io-index)\" = \"00\"\n";

const WORKSPACE: &str = "[[package]]\n\
name = \"first\"\n\
version = \"0.1.0\"\n\
dependencies = [\"second 0.2.0\"]\n\
\n\
[[package]]\n\
name = \"second\"\n\
version = \"0.2.0\"\n";

fn record(name: &str, source: Option<&str>, edges: Option<Vec<&str>>) -> PackageRecord {
    PackageRecord {
        name: name.to_string(),
        version: "1.2.3".to_string(),
        source: source.map(|s| s.to_string()),
        dependencies: edges.map(|e| e.into_iter().map(|s| s.to_string()).collect()),
    }
}

fn own(name: &str, edges: Option<Vec<&str>>) -> Package {
    Package {
        name: name.to_string(),
        version: "1.2.3".to_string(),
        dependencies: edges.map(|e| e.into_iter().map(|s| s.to_string()).collect()),
    }
}

fn table(pairs: Vec<(&str, toml::Value)>) -> toml::Value {
    let mut map = toml::value::Table::new();
    for (key, value) in pairs {
        map.insert(key.to_string(), value);
    }
    toml::Value::Table(map)
}

fn text(s: &str) -> toml::Value {
    toml::Value::String(s.to_string())
}

#[test]
fn package_drops_the_source() {
    let package = Package::from(record("a", Some("somewhere"), Some(vec!["b 1.0.0"])));
    assert_eq!(package, own("a", Some(vec!["b 1.0.0"])));
}

#[test]
fn one_own_package_is_a_single_project() {
    let records = vec![
        record("dep", Some("registry"), None),
        record("app", None, Some(vec!["dep 1.2.3 (registry)"])),
        record("other", Some("registry"), None),
    ];
    assert_eq!(
        project_shape(records),
        ProjectShape::SingleProject(own("app", Some(vec!["dep 1.2.3 (registry)"])))
    );
}

#[test]
fn several_own_packages_are_a_workspace_in_order() {
    let records = vec![
        record("zeta", None, None),
        record("dep", Some("registry"), None),
        record("alpha", None, Some(vec![])),
        record("mid", None, None),
    ];
    assert_eq!(
        project_shape(records),
        ProjectShape::Workspace(vec![
            own("zeta", None),
            own("alpha", Some(vec![])),
            own("mid", None)
        ])
    );
}

#[test]
fn no_own_package_is_an_empty_workspace() {
    assert_eq!(project_shape(vec![]), ProjectShape::Workspace(vec![]));
    assert_eq!(
        project_shape(vec![record("dep", Some("registry"), None)]),
        ProjectShape::Workspace(vec![])
    );
}

#[test]
fn lock_text_of_a_single_project() {
    let shape = parse_lockfile(SINGLE).unwrap();
    assert_eq!(
        shape,
        ProjectShape::SingleProject(Package {
            name: "app".to_string(),
            version: "0.1.0".to_string(),
            dependencies: Some(vec![format!("serde 1.0.0 {}", REGISTRY)]),
        })
    );
}

#[test]
fn lock_text_of_a_workspace() {
    let shape = parse_lockfile(WORKSPACE).unwrap();
    assert_eq!(
        shape,
        ProjectShape::Workspace(vec![
            Package {
                name: "first".to_string(),
                version: "0.1.0".to_string(),
                dependencies: Some(vec!["second 0.2.0".to_string()]),
            },
            Package {
                name: "second".to_string(),
                version: "0.2.0".to_string(),
                dependencies: None,
            },
        ])
    );
}

#[test]
fn records_are_read_in_document_order() {
    let document = parse_toml(SINGLE).unwrap();
    let records = read_packages(&document).unwrap();
    assert_eq!(records.len(), 2);
    assert_eq!(records[0].name, "app");
    assert_eq!(records[0].source, None);
    assert_eq!(records[1].name, "serde");
    assert_eq!(records[1].version, "1.0.0");
    assert_eq!(
        records[1].source,
        Some("registry+https://github.com/rust-lang/crates.io-index".to_string())
    );
    assert_eq!(records[1].dependencies, None);
}

#[test]
fn text_that_is_not_toml_is_a_syntax_error() {
    assert!(matches!(
        parse_lockfile("[[package]\nname = "),
        Err(PrepopError::FormatError(LockIssue::Syntax(_)))
    ));
    assert!(matches!(
        parse_toml("= 3"),
        Err(PrepopError::FormatError(LockIssue::Syntax(_)))
    ));
}

#[test]
fn document_without_packages_is_turned_down() {
    assert_eq!(
        parse_lockfile(""),
        Err(PrepopError::FormatError(LockIssue::MissingPackageList))
    );
    assert_eq!(
        parse_lockfile("[metadata]\nkey = \"value\"\n"),
        Err(PrepopError::FormatError(LockIssue::MissingPackageList))
    );
    assert_eq!(
        project_of_document(&text("package")),
        Err(PrepopError::FormatError(LockIssue::MissingPackageList))
    );
}

#[test]
fn package_list_must_be_an_array() {
    assert_eq!(
        parse_lockfile("package = \"app\"\n"),
        Err(PrepopError::FormatError(LockIssue::PackageListNotArray))
    );
    assert_eq!(
        parse_lockfile("[package]\nname = \"app\"\nversion = \"1\"\n"),
        Err(PrepopError::FormatError(LockIssue::PackageListNotArray))
    );
}

#[test]
fn empty_package_list_is_an_empty_workspace() {
    assert_eq!(parse_lockfile("package = []\n"), Ok(ProjectShape::Workspace(vec![])));
}

#[test]
fn entry_without_a_required_field_is_turned_down() {
    assert_eq!(
        parse_lockfile("[[package]]\nname = \"a\"\nversion = \"1\"\n\n[[package]]\nversion = \"1\"\n"),
        Err(PrepopError::FormatError(LockIssue::BadField { entry: 1, field: RecordField::Name }))
    );
    assert_eq!(
        parse_lockfile("[[package]]\nname = \"a\"\n"),
        Err(PrepopError::FormatError(
            LockIssue::BadField { entry: 0, field: RecordField::Version }
        ))
    );
    assert_eq!(
        parse_lockfile("package = [1]\n"),
        Err(PrepopError::FormatError(LockIssue::BadField { entry: 0, field: RecordField::Name }))
    );
}

#[test]
fn field_of_the_wrong_type_is_turned_down() {
    assert_eq!(
        read_record(&table(vec![("name", toml::Value::Integer(1)), ("version", text("1"))])),
        Err(RecordField::Name)
    );
    assert_eq!(
        read_record(&table(vec![("name", text("a")), ("version", toml::Value::Boolean(true))])),
        Err(RecordField::Version)
    );
    assert_eq!(
        read_record(&table(vec![
            ("name", text("a")),
            ("version", text("1")),
            ("source", toml::Value::Integer(7)),
            ("dependencies", toml::Value::Integer(7)),
        ])),
        Err(RecordField::Source)
    );
    assert_eq!(
        read_record(&table(vec![
            ("name", text("a")),
            ("version", text("1")),
            ("dependencies", text("b 1.0.0")),
        ])),
        Err(RecordField::Dependencies)
    );
    assert_eq!(
        read_record(&table(vec![
            ("name", text("a")),
            ("version", text("1")),
            ("dependencies", toml::Value::Array(vec![text("b 1.0.0"), toml::Value::Integer(2)])),
        ])),
        Err(RecordField::Dependencies)
    );
    assert_eq!(read_record(&toml::Value::Array(vec![text("a"), text("1")])), Err(RecordField::Name));
}

#[test]
fn entry_is_read_field_by_field() {
    let entry = table(vec![
        ("name", text("a")),
        ("version", text("1")),
        ("source", text("s")),
        ("dependencies", toml::Value::Array(vec![text("b 1.0.0"), text("c 2.0.0 (x)")])),
        ("checksum", text("ignored")),
    ]);
    assert_eq!(
        read_record(&entry),
        Ok(PackageRecord {
            name: "a".to_string(),
            version: "1".to_string(),
            source: Some("s".to_string()),
            dependencies: Some(vec!["b 1.0.0".to_string(), "c 2.0.0 (x)".to_string()]),
        })
    );
    let bare = table(vec![("name", text("a")), ("version", text("1"))]);
    assert_eq!(
        read_record(&bare),
        Ok(PackageRecord {
            name: "a".to_string(),
            version: "1".to_string(),
            source: None,
            dependencies: None,
        })
    );
}

#[test]
fn lock_file_name_is_checked() {
    assert_eq!(check_lock_file_name(Some("Cargo.lock")), Ok(()));
    for name in [Some("notlock.toml"), Some("cargo.lock"), Some("Cargo.lock.bak"), Some(""), None] {
        assert_eq!(
            check_lock_file_name(name),
            Err(PrepopError::PathError("Path does not point to a Cargo.lock file".to_string()))
        );
    }
}

#[test]
fn other_file_name_plans_nothing() {
    assert_eq!(
        prepopulate(Some("notlock.toml"), SINGLE),
        Err(PrepopError::PathError("Path does not point to a Cargo.lock file".to_string()))
    );
    assert!(matches!(prepopulate(None, "not toml ["), Err(PrepopError::PathError(_))));
}

#[test]
fn single_project_is_planned_beside_the_lock_file() {
    let plan = prepopulate(Some("Cargo.lock"), SINGLE).unwrap();
    assert_eq!(plan.workspace, None);
    assert_eq!(plan.members.len(), 1);
    let member = &plan.members[0];
    assert_eq!(member.directory, None);
    assert_eq!(member.manifest.package.name, "app");
    assert_eq!(member.manifest.package.version, "0.0.0");
    assert_eq!(
        member.manifest.dependencies.entries(),
        &vec![("serde".to_string(), "1.0.0".to_string())]
    );
    assert!(member.ignored_sources.is_empty());
    let paths = member.paths();
    assert_eq!(paths.directory, Vec::<String>::new());
    assert_eq!(paths.source_directory, vec!["src".to_string()]);
    assert_eq!(paths.stub, vec!["src".to_string(), "lib-stub".to_string()]);
    assert_eq!(paths.manifest, vec!["Cargo.toml".to_string()]);
}

#[test]
fn lock_file_of_one_package_plans_that_package() {
    let text = "[[package]]\nname = \"app\"\nversion = \"0.1.0\"\n\
dependencies = [\"serde 1.0.0 (registry+https://github.com/rust-lang/crates.io-index)\"]\n";
    let plan = cargo_prepopulate::prepopulate(Some("Cargo.lock"), text).unwrap();
    assert_eq!(plan.workspace, None);
    assert_eq!(plan.members.len(), 1);
    assert_eq!(plan.members[0].directory, None);
    assert_eq!(plan.members[0].manifest.package.name, "app");
    assert_eq!(
        plan.members[0].manifest.dependencies.entries(),
        &vec![("serde".to_string(), "1.0.0".to_string())]
    );
    assert_eq!(plan.members[0].paths().stub, vec!["src".to_string(), "lib-stub".to_string()]);
}

#[test]
fn workspace_is_planned_member_by_member() {
    let plan = prepopulate(Some("Cargo.lock"), WORKSPACE).unwrap();
    assert_eq!(plan.members.len(), 2);
    assert_eq!(plan.members[0].directory, Some("first".to_string()));
    assert_eq!(plan.members[0].manifest.package.name, "first");
    assert!(plan.members[0].manifest.dependencies.entries().is_empty());
    assert_eq!(plan.members[1].directory, Some("second".to_string()));
    assert_eq!(plan.members[1].manifest.package.name, "second");
    assert!(plan.members[1].manifest.dependencies.entries().is_empty());
    let paths = plan.members[1].paths();
    assert_eq!(paths.directory, vec!["second".to_string()]);
    assert_eq!(paths.source_directory, vec!["second".to_string(), "src".to_string()]);
    assert_eq!(
        paths.stub,
        vec!["second".to_string(), "src".to_string(), "lib-stub".to_string()]
    );
    assert_eq!(paths.manifest, vec!["second".to_string(), "Cargo.toml".to_string()]);
    let workspace = plan.workspace.unwrap();
    assert_eq!(workspace.members, vec!["first".to_string(), "second".to_string()]);
}

#[test]
fn sources_left_out_are_reported_in_order() {
    let member = populate_member(
        None,
        own(
            "app",
            Some(vec![
                "a 1.0.0 (git+https://example.org/a.git)",
                "b 1.0.0 (registry+https://github.com/rust-lang/crates.io-index)",
                "c 1.0.0",
                "d 1.0.0 (path+file:///d)",
            ]),
        ),
    )
    .unwrap();
    assert_eq!(
        member.ignored_sources,
        vec!["(git+https://example.org/a.git)".to_string(), "(path+file:///d)".to_string()]
    );
    assert_eq!(
        member.manifest.dependencies.entries(),
        &vec![("b".to_string(), "1.0.0".to_string())]
    );
}

#[test]
fn lock_file_without_own_packages_plans_an_empty_workspace() {
    let text = "[[package]]\nname = \"dep\"\nversion = \"1.0.0\"\nsource = \"registry\"\n";
    let plan = prepopulate(Some("Cargo.lock"), text).unwrap();
    assert!(plan.members.is_empty());
    assert_eq!(plan.workspace.unwrap().members, Vec::<String>::new());
}

#[test]
fn malformed_edge_of_an_own_package_plans_nothing() {
    let text = "[[package]]\nname = \"a\"\nversion = \"1\"\n\n\
[[package]]\nname = \"b\"\nversion = \"1\"\ndependencies = [\"a 1\", \"broken\"]\n";
    assert_eq!(
        prepopulate(Some("Cargo.lock"), text),
        Err(PrepopError::FormatError(LockIssue::MalformedEdge("broken".to_string())))
    );
}

#[test]
fn malformed_edge_of_an_outside_package_is_not_read() {
    let text = "[[package]]\nname = \"a\"\nversion = \"1\"\n\n\
[[package]]\nname = \"dep\"\nversion = \"1\"\nsource = \"registry\"\ndependencies = [\"broken\"]\n";
    let plan = prepopulate(Some("Cargo.lock"), text).unwrap();
    assert_eq!(plan.members.len(), 1);
    assert_eq!(plan.workspace, None);
}

#[test]
fn member_is_planned_in_its_directory() {
    let member = populate_member(
        Some("tools".to_string()),
        own("tools", Some(vec!["log 0.4.0 (registry+https://github.com/rust-lang/crates.io-index)"])),
    )
    .unwrap();
    assert_eq!(member.directory, Some("tools".to_string()));
    assert_eq!(
        member.manifest.dependencies.entries(),
        &vec![("log".to_string(), "0.4.0".to_string())]
    );
    assert_eq!(
        populate_member(None, own("bad", Some(vec!["x"]))),
        Err(PrepopError::FormatError(LockIssue::MalformedEdge("x".to_string())))
    );
}

#[test]
fn first_member_with_a_malformed_edge_is_the_error() {
    let shape = ProjectShape::Workspace(vec![
        own("a", Some(vec!["fine 1.0.0"])),
        own("b", Some(vec!["fine 1.0.0", "bad-b", "worse b c d"])),
        own("c", Some(vec!["bad-c"])),
    ]);
    assert_eq!(
        plan_scaffold(shape),
        Err(PrepopError::FormatError(LockIssue::MalformedEdge("bad-b".to_string())))
    );
}
