use soar_core::error::{IngestField, StatementKind, StorageError};
use soar_core::metadata::{ManifestFault, PackageVersion, RemotePackage, RemotePackageMetadata};
use soar_core::rows::{build_rows, plan_import, RowWrite, Table};
use soar_core::sql::{attach_statement, shard_alias, statement_sql};

fn version(v: &str, deps: &[&str]) -> PackageVersion {
    PackageVersion {
        version: v.to_string(),
        dependencies: deps.iter().map(|d| d.to_string()).collect(),
    }
}

fn package(name: &str, description: &str, versions: Vec<PackageVersion>) -> RemotePackage {
    RemotePackage { name: name.to_string(), description: description.to_string(), versions }
}

fn flat(rows: &[RowWrite]) -> Vec<(Table, String, String, String, String, String)> {
    rows.iter()
        .map(|r| {
            (
                r.table,
                r.repo.clone(),
                r.package.clone(),
                r.version.clone(),
                r.dependency.clone(),
                r.description.clone(),
            )
        })
        .collect()
}

fn row(t: Table, repo: &str, p: &str, v: &str, d: &str, desc: &str) -> (Table, String, String, String, String, String) {
    (t, repo.to_string(), p.to_string(), v.to_string(), d.to_string(), desc.to_string())
}

#[test]
fn rows_follow_the_manifest_in_order() {
    let m = RemotePackageMetadata {
        packages: vec![
            package("foo", "a tool", vec![version("1.0", &["libc", "zlib"]), version("1.1", &[])]),
            package("bar", "", vec![]),
        ],
    };
    let rows = build_rows(&m, "main");
    assert_eq!(
        flat(&rows),
        vec![
            row(Table::Packages, "main", "foo", "", "", "a tool"),
            row(Table::Versions, "main", "foo", "1.0", "", ""),
            row(Table::Dependencies, "main", "foo", "1.0", "libc", ""),
            row(Table::Dependencies, "main", "foo", "1.0", "zlib", ""),
            row(Table::Versions, "main", "foo", "1.1", "", ""),
            row(Table::Packages, "main", "bar", "", "", ""),
        ]
    );
}

#[test]
fn empty_manifest_has_no_rows() {
    let m = RemotePackageMetadata { packages: vec![] };
    assert!(m.fault().is_none());
    assert!(build_rows(&m, "main").is_empty());
    assert!(plan_import(&m, "main").unwrap().is_empty());
}

#[test]
fn plan_of_a_well_formed_manifest_is_its_rows() {
    let m = RemotePackageMetadata { packages: vec![package("foo", "d", vec![version("1.0", &["a"])])] };
    let rows = plan_import(&m, "testing").unwrap();
    assert_eq!(
        flat(&rows),
        vec![
            row(Table::Packages, "testing", "foo", "", "", "d"),
            row(Table::Versions, "testing", "foo", "1.0", "", ""),
            row(Table::Dependencies, "testing", "foo", "1.0", "a", ""),
        ]
    );
}

#[test]
fn every_row_lies_under_the_repository_of_the_import() {
    let m = RemotePackageMetadata {
        packages: vec![
            package("foo", "d", vec![version("1.0", &["a", "b"])]),
            package("baz", "e", vec![version("2", &[]), version("3", &["foo"])]),
        ],
    };
    let rows = build_rows(&m, "main");
    assert_eq!(rows.len(), 8);
    assert!(rows.iter().all(|r| r.repo == "main"));
}

#[test]
fn missing_name_is_the_first_fault() {
    let m = RemotePackageMetadata {
        packages: vec![package("ok", "", vec![version("1", &[])]), package("", "", vec![version("", &[])])],
    };
    assert_eq!(m.fault(), Some(ManifestFault { package: 1, field: IngestField::Name }));
    match plan_import(&m, "main") {
        Err(StorageError::Ingest { package, field, detail }) => {
            assert_eq!(package, "");
            assert_eq!(field, IngestField::Name);
            assert_eq!(detail, "malformed record");
        }
        other => panic!("unexpected: {:?}", other),
    }
}

#[test]
fn missing_version_comes_before_missing_dependency() {
    let v = version("", &[""]);
    assert_eq!(v.fault(), Some(IngestField::Version));
    let m = RemotePackageMetadata { packages: vec![package("foo", "", vec![version("1", &["a"]), v])] };
    assert_eq!(m.fault(), Some(ManifestFault { package: 0, field: IngestField::Version }));
    match plan_import(&m, "main") {
        Err(StorageError::Ingest { package, field, .. }) => {
            assert_eq!(package, "foo");
            assert_eq!(field, IngestField::Version);
        }
        other => panic!("unexpected: {:?}", other),
    }
}

#[test]
fn missing_dependency_name_is_a_fault() {
    let v = version("1.0", &["a", "", "c"]);
    assert_eq!(v.fault(), Some(IngestField::Dependency));
    let p = package("foo", "", vec![version("0.9", &[]), v]);
    assert_eq!(p.fault(), Some(IngestField::Dependency));
    let m = RemotePackageMetadata { packages: vec![package("bar", "", vec![]), p] };
    assert_eq!(m.fault(), Some(ManifestFault { package: 1, field: IngestField::Dependency }));
}

#[test]
fn first_faulty_package_is_reported() {
    let m = RemotePackageMetadata {
        packages: vec![
            package("a", "", vec![]),
            package("b", "", vec![version("1", &[""])]),
            package("", "", vec![]),
        ],
    };
    assert_eq!(m.fault(), Some(ManifestFault { package: 1, field: IngestField::Dependency }));
}

#[test]
fn params_follow_the_table() {
    let m = RemotePackageMetadata { packages: vec![package("foo", "d", vec![version("1.0", &["a"])])] };
    let rows = build_rows(&m, "main");
    assert_eq!(rows[0].params(), vec!["main", "foo", "d"]);
    assert_eq!(rows[1].params(), vec!["main", "foo", "1.0"]);
    assert_eq!(rows[2].params(), vec!["main", "foo", "1.0", "a"]);
    assert_eq!(rows[0].field(), IngestField::Name);
    assert_eq!(rows[1].field(), IngestField::Version);
    assert_eq!(rows[2].field(), IngestField::Dependency);
}

#[test]
fn aliases_count_from_one_in_decimal() {
    assert_eq!(shard_alias(1), "shard1");
    assert_eq!(shard_alias(2), "shard2");
    assert_eq!(shard_alias(0), "shard0");
    assert_eq!(shard_alias(10), "shard10");
    assert_eq!(shard_alias(1203), "shard1203");
    assert_ne!(shard_alias(1), shard_alias(11));
}

#[test]
fn attach_statement_binds_the_path() {
    assert_eq!(attach_statement("shard1"), "ATTACH DATABASE ?1 AS shard1");
    assert_eq!(attach_statement(&shard_alias(27)), "ATTACH DATABASE ?1 AS shard27");
}

#[test]
fn write_statements_replace_on_conflict() {
    assert_eq!(
        statement_sql(StatementKind::UpsertPackage),
        "INSERT OR REPLACE INTO packages (repo, name, description) VALUES (?1, ?2, ?3)"
    );
    assert_eq!(
        statement_sql(StatementKind::UpsertVersion),
        "INSERT OR REPLACE INTO versions (repo, name, version) VALUES (?1, ?2, ?3)"
    );
    assert_eq!(
        statement_sql(StatementKind::UpsertDependency),
        "INSERT OR REPLACE INTO dependencies (repo, name, version, dependency) VALUES (?1, ?2, ?3, ?4)"
    );
}

#[test]
fn message_names_the_kind() {
    let e = StorageError::Attach { shard: 2, detail: "no such file".to_string() };
    assert_eq!(e.message(), "attach: no such file");
    let e = StorageError::Ingest { package: "foo".to_string(), field: IngestField::Name, detail: "x".to_string() };
    assert_eq!(e.message(), "ingest: x");
    assert_eq!(StorageError::Open { detail: "a".to_string() }.message(), "open: a");
    assert_eq!(StorageError::Config { detail: "b".to_string() }.message(), "config: b");
    assert_eq!(StorageError::Commit { detail: "c".to_string() }.message(), "commit: c");
    let e = StorageError::Prepare { statement: StatementKind::UpsertVersion, detail: "d".to_string() };
    assert_eq!(e.message(), "prepare: d");
}
