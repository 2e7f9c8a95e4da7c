//! The rows that a manifest stands for, and the model of a store that
//! receives them.

use vstd::prelude::*;
use crate::error::{IngestField, StorageError};
use crate::metadata::{
    lemma_fault_in_range, manifest_fault, texts, ManifestSpec, PackageSpec, PackageVersion,
    RemotePackage, RemotePackageMetadata, VersionSpec,
};

verus! {

/// The tables of the store.
#[derive(Clone, Copy, Debug, PartialEq, Eq, Structural)]
pub enum Table {
    Packages,
    Versions,
    Dependencies,
}

/// The identity of a row. A package row leaves `version` and `dependency`
/// empty, a version row leaves `dependency` empty.
pub ghost struct RowKey {
    pub table: Table,
    pub repo: Seq<char>,
    pub package: Seq<char>,
    pub version: Seq<char>,
    pub dependency: Seq<char>,
}

/// A row: its identity and what it carries besides.
pub ghost struct RowSpec {
    pub key: RowKey,
    pub description: Seq<char>,
}

/// The content of a store: what each row that is present carries.
pub type Store = Map<RowKey, Seq<char>>;

/// One row to insert, or to replace where a row of that identity exists.
#[derive(Clone, Debug)]
pub struct RowWrite {
    pub table: Table,
    pub repo: String,
    pub package: String,
    pub version: String,
    pub dependency: String,
    pub description: String,
}

impl View for RowWrite {
    type V = RowSpec;

    open spec fn view(&self) -> RowSpec {
        RowSpec {
            key: RowKey {
                table: self.table,
                repo: self.repo@,
                package: self.package@,
                version: self.version@,
                dependency: self.dependency@,
            },
            description: self.description@,
        }
    }
}

/// The rows that a sequence of writes stands for, in order.
pub open spec fn rows_view(rows: Seq<RowWrite>) -> Seq<RowSpec> {
    Seq::new(rows.len(), |i: int| rows[i]@)
}

/// The identity row of a package under a repository.
pub open spec fn package_row(repo: Seq<char>, p: PackageSpec) -> RowSpec {
    RowSpec {
        key: RowKey {
            table: Table::Packages,
            repo,
            package: p.name,
            version: Seq::empty(),
            dependency: Seq::empty(),
        },
        description: p.description,
    }
}

/// The row of one version of a package.
pub open spec fn version_row(repo: Seq<char>, p: PackageSpec, v: VersionSpec) -> RowSpec {
    RowSpec {
        key: RowKey {
            table: Table::Versions,
            repo,
            package: p.name,
            version: v.version,
            dependency: Seq::empty(),
        },
        description: Seq::empty(),
    }
}

/// The row of one dependency of a version.
pub open spec fn dependency_row(
    repo: Seq<char>,
    p: PackageSpec,
    v: VersionSpec,
    dependency: Seq<char>,
) -> RowSpec {
    RowSpec {
        key: RowKey {
            table: Table::Dependencies,
            repo,
            package: p.name,
            version: v.version,
            dependency,
        },
        description: Seq::empty(),
    }
}

/// The rows of the first `upto` dependencies of a version.
pub open spec fn dependency_rows(
    repo: Seq<char>,
    p: PackageSpec,
    v: VersionSpec,
    upto: nat,
) -> Seq<RowSpec> {
    Seq::new(upto, |k: int| dependency_row(repo, p, v, v.dependencies[k]))
}

/// A version's row, then one row for each of its dependencies.
pub open spec fn version_rows(repo: Seq<char>, p: PackageSpec, v: VersionSpec) -> Seq<RowSpec> {
    seq![version_row(repo, p, v)] + dependency_rows(repo, p, v, v.dependencies.len())
}

/// The rows of the versions of `p` at or after position `from`.
pub open spec fn versions_rows_from(repo: Seq<char>, p: PackageSpec, from: int) -> Seq<RowSpec>
    decreases p.versions.len() - from,
{
    if from < 0 || from >= p.versions.len() {
        Seq::empty()
    } else {
        version_rows(repo, p, p.versions[from]) + versions_rows_from(repo, p, from + 1)
    }
}

/// A package's identity row, then the rows of its versions.
pub open spec fn package_rows(repo: Seq<char>, p: PackageSpec) -> Seq<RowSpec> {
    seq![package_row(repo, p)] + versions_rows_from(repo, p, 0)
}

/// The rows of the packages at or after position `from`.
pub open spec fn packages_rows_from(repo: Seq<char>, packages: Seq<PackageSpec>, from: int) -> Seq<
    RowSpec,
>
    decreases packages.len() - from,
{
    if from < 0 || from >= packages.len() {
        Seq::empty()
    } else {
        package_rows(repo, packages[from]) + packages_rows_from(repo, packages, from + 1)
    }
}

/// Every row that importing a manifest under a repository writes, in the
/// order of writing.
pub open spec fn manifest_rows(repo: Seq<char>, m: ManifestSpec) -> Seq<RowSpec> {
    packages_rows_from(repo, m.packages, 0)
}

/// The store after a sequence of writes: each write inserts its row, or
/// replaces the row of the same identity.
pub open spec fn apply_writes(store: Store, writes: Seq<RowSpec>) -> Store
    decreases writes.len(),
{
    if writes.len() == 0 {
        store
    } else {
        apply_writes(store, writes.drop_last()).insert(writes.last().key, writes.last().description)
    }
}

/// The values bound to the parameters of a row's write statement.
pub open spec fn row_params(r: RowSpec) -> Seq<Seq<char>> {
    match r.key.table {
        Table::Packages => seq![r.key.repo, r.key.package, r.description],
        Table::Versions => seq![r.key.repo, r.key.package, r.key.version],
        Table::Dependencies => seq![r.key.repo, r.key.package, r.key.version, r.key.dependency],
    }
}

/// The field that a refused row of a table points at.
pub open spec fn table_field(table: Table) -> IngestField {
    match table {
        Table::Packages => IngestField::Name,
        Table::Versions => IngestField::Version,
        Table::Dependencies => IngestField::Dependency,
    }
}

impl RowWrite {
    /// The values to bind to the parameters of this row's write statement.
    pub fn params(&self) -> (out: Vec<String>)
        ensures
            texts(out@) == row_params(self@),
    {
        let mut out: Vec<String> = Vec::new();
        out.push(self.repo.clone());
        out.push(self.package.clone());
        match self.table {
            Table::Packages => {
                out.push(self.description.clone());
            },
            Table::Versions => {
                out.push(self.version.clone());
            },
            Table::Dependencies => {
                out.push(self.version.clone());
                out.push(self.dependency.clone());
            },
        }
        assert(texts(out@) =~= row_params(self@));
        out
    }

    /// The field that an ingest error names when the store refuses this row.
    pub fn field(&self) -> (field: IngestField)
        ensures
            field == table_field(self.table),
    {
        match self.table {
            Table::Packages => IngestField::Name,
            Table::Versions => IngestField::Version,
            Table::Dependencies => IngestField::Dependency,
        }
    }
}

/// Appends a version's row and the rows of its dependencies.
fn push_version_rows(rows: &mut Vec<RowWrite>, repo: &String, p: &RemotePackage, v: &PackageVersion)
    ensures
        rows_view(final(rows)@) == rows_view(old(rows)@) + version_rows(repo@, p@, v@),
{
    let ghost before = rows_view(rows@);
    rows.push(
        RowWrite {
            table: Table::Versions,
            repo: repo.clone(),
            package: p.name.clone(),
            version: v.version.clone(),
            dependency: String::new(),
            description: String::new(),
        },
    );
    assert(rows_view(rows@) =~= before + seq![version_row(repo@, p@, v@)]);
    let mut k: usize = 0;
    while k < v.dependencies.len()
        invariant
            k <= v.dependencies.len(),
            rows_view(rows@) == before + seq![version_row(repo@, p@, v@)] + dependency_rows(
                repo@,
                p@,
                v@,
                k as nat,
            ),
        decreases v.dependencies.len() - k,
    {
        let ghost sofar = rows_view(rows@);
        rows.push(
            RowWrite {
                table: Table::Dependencies,
                repo: repo.clone(),
                package: p.name.clone(),
                version: v.version.clone(),
                dependency: v.dependencies[k].clone(),
                description: String::new(),
            },
        );
        k += 1;
        assert(rows_view(rows@) =~= sofar.push(
            dependency_row(repo@, p@, v@, v@.dependencies[k - 1]),
        ));
        assert(rows_view(rows@) =~= before + seq![version_row(repo@, p@, v@)] + dependency_rows(
            repo@,
            p@,
            v@,
            k as nat,
        ));
    }
    assert(rows_view(rows@) =~= before + version_rows(repo@, p@, v@));
}

/// Appends a package's identity row and the rows of its versions.
fn push_package_rows(rows: &mut Vec<RowWrite>, repo: &String, p: &RemotePackage)
    ensures
        rows_view(final(rows)@) == rows_view(old(rows)@) + package_rows(repo@, p@),
{
    let ghost before = rows_view(rows@);
    rows.push(
        RowWrite {
            table: Table::Packages,
            repo: repo.clone(),
            package: p.name.clone(),
            version: String::new(),
            dependency: String::new(),
            description: p.description.clone(),
        },
    );
    assert(rows_view(rows@) =~= before + seq![package_row(repo@, p@)]);
    let mut j: usize = 0;
    while j < p.versions.len()
        invariant
            j <= p.versions.len(),
            rows_view(rows@) + versions_rows_from(repo@, p@, j as int) == before + package_rows(
                repo@,
                p@,
            ),
        decreases p.versions.len() - j,
    {
        let ghost sofar = rows_view(rows@);
        assert(p@.versions[j as int] == p.versions@[j as int]@);
        push_version_rows(rows, repo, p, &p.versions[j]);
        assert(rows_view(rows@) + versions_rows_from(repo@, p@, j + 1) =~= sofar
            + versions_rows_from(repo@, p@, j as int));
        j += 1;
    }
    assert(rows_view(rows@) =~= rows_view(rows@) + versions_rows_from(repo@, p@, j as int));
}

/// Lists every row that importing the manifest under `repo` writes, in
/// the order of writing. A malformed record is not looked for here.
pub fn build_rows(metadata: &RemotePackageMetadata, repo: &str) -> (rows: Vec<RowWrite>)
    ensures
        rows_view(rows@) == manifest_rows(repo@, metadata@),
{
    let repo_name: String = repo.to_owned();
    let mut rows: Vec<RowWrite> = Vec::new();
    assert(rows_view(rows@) =~= Seq::empty());
    let mut i: usize = 0;
    while i < metadata.packages.len()
        invariant
            i <= metadata.packages.len(),
            repo_name@ == repo@,
            rows_view(rows@) + packages_rows_from(repo@, metadata@.packages, i as int)
                == manifest_rows(repo@, metadata@),
        decreases metadata.packages.len() - i,
    {
        let ghost sofar = rows_view(rows@);
        assert(metadata@.packages[i as int] == metadata.packages@[i as int]@);
        push_package_rows(&mut rows, &repo_name, &metadata.packages[i]);
        assert(rows_view(rows@) + packages_rows_from(repo@, metadata@.packages, i + 1) =~= sofar
            + packages_rows_from(repo@, metadata@.packages, i as int));
        i += 1;
    }
    assert(rows_view(rows@) =~= rows_view(rows@) + packages_rows_from(
        repo@,
        metadata@.packages,
        i as int,
    ));
    rows
}

/// The error that a malformed manifest is refused with: it names the
/// first malformed record's package and field.
pub open spec fn is_fault_error(e: StorageError, m: ManifestSpec) -> bool {
    &&& manifest_fault(m) matches Some(fault)
    &&& e matches StorageError::Ingest { package, field, detail }
    &&& package@ == m.packages[fault.0].name
    &&& field == fault.1
    &&& detail@ == "malformed record"@
}

/// Turns a manifest into the rows to write under `repo`, or refuses it
/// as a whole where one of its records is malformed.
pub fn plan_import(metadata: &RemotePackageMetadata, repo: &str) -> (plan: Result<
    Vec<RowWrite>,
    StorageError,
>)
    ensures
        manifest_fault(metadata@) is None <==> plan is Ok,
        plan matches Ok(rows) ==> rows_view(rows@) == manifest_rows(repo@, metadata@),
        plan matches Err(e) ==> is_fault_error(e, metadata@),
{
    match metadata.fault() {
        Some(fault) => {
            proof {
                lemma_fault_in_range(metadata@.packages, 0);
            }
            Err(
                StorageError::Ingest {
                    package: metadata.packages[fault.package].name.clone(),
                    field: fault.field,
                    detail: String::from_str("malformed record"),
                },
            )
        },
        None => Ok(build_rows(metadata, repo)),
    }
}

} // verus!
