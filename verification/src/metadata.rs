//! The parsed manifest of a repository, and the test that tells a
//! well-formed manifest from a malformed one.

use vstd::prelude::*;
use crate::error::IngestField;

verus! {

/// One version of a package and the packages it depends on.
#[derive(Clone, Debug)]
pub struct PackageVersion {
    pub version: String,
    pub dependencies: Vec<String>,
}

/// One package record of a manifest.
#[derive(Clone, Debug)]
pub struct RemotePackage {
    pub name: String,
    pub description: String,
    pub versions: Vec<PackageVersion>,
}

/// A repository manifest: its package records, in the manifest's order.
#[derive(Clone, Debug)]
pub struct RemotePackageMetadata {
    pub packages: Vec<RemotePackage>,
}

/// What a version record says.
pub ghost struct VersionSpec {
    pub version: Seq<char>,
    pub dependencies: Seq<Seq<char>>,
}

/// What a package record says.
pub ghost struct PackageSpec {
    pub name: Seq<char>,
    pub description: Seq<char>,
    pub versions: Seq<VersionSpec>,
}

/// What a manifest says.
pub ghost struct ManifestSpec {
    pub packages: Seq<PackageSpec>,
}

/// The texts of a sequence of strings, in order.
pub open spec fn texts(strings: Seq<String>) -> Seq<Seq<char>> {
    Seq::new(strings.len(), |i: int| strings[i]@)
}

impl View for PackageVersion {
    type V = VersionSpec;

    open spec fn view(&self) -> VersionSpec {
        VersionSpec { version: self.version@, dependencies: texts(self.dependencies@) }
    }
}

impl View for RemotePackage {
    type V = PackageSpec;

    open spec fn view(&self) -> PackageSpec {
        PackageSpec {
            name: self.name@,
            description: self.description@,
            versions: Seq::new(self.versions@.len(), |i: int| self.versions@[i]@),
        }
    }
}

impl View for RemotePackageMetadata {
    type V = ManifestSpec;

    open spec fn view(&self) -> ManifestSpec {
        ManifestSpec { packages: Seq::new(self.packages@.len(), |i: int| self.packages@[i]@) }
    }
}

/// The first malformed record of a manifest: the position of its package
/// and the field that is missing.
#[derive(Clone, Copy, Debug, PartialEq, Eq, Structural)]
pub struct ManifestFault {
    pub package: usize,
    pub field: IngestField,
}

/// Every dependency name is non-empty.
pub open spec fn dependencies_named(deps: Seq<Seq<char>>) -> bool {
    forall|k: int| 0 <= k < deps.len() ==> (#[trigger] deps[k]).len() > 0
}

/// The field that makes a version record malformed, if any: an empty
/// version string comes before an empty dependency name.
pub open spec fn version_fault(v: VersionSpec) -> Option<IngestField> {
    if v.version.len() == 0 {
        Some(IngestField::Version)
    } else if !dependencies_named(v.dependencies) {
        Some(IngestField::Dependency)
    } else {
        None
    }
}

/// The fault of the first malformed version at or after position `from`.
pub open spec fn versions_fault_from(versions: Seq<VersionSpec>, from: int) -> Option<IngestField>
    decreases versions.len() - from,
{
    if from < 0 || from >= versions.len() {
        None
    } else if version_fault(versions[from]) is Some {
        version_fault(versions[from])
    } else {
        versions_fault_from(versions, from + 1)
    }
}

/// The field that makes a package record malformed, if any: an empty name
/// comes before any fault among its versions.
pub open spec fn package_fault(p: PackageSpec) -> Option<IngestField> {
    if p.name.len() == 0 {
        Some(IngestField::Name)
    } else {
        versions_fault_from(p.versions, 0)
    }
}

/// The first malformed package at or after position `from`.
pub open spec fn packages_fault_from(packages: Seq<PackageSpec>, from: int) -> Option<
    (int, IngestField),
>
    decreases packages.len() - from,
{
    if from < 0 || from >= packages.len() {
        None
    } else if package_fault(packages[from]) is Some {
        Some((from, package_fault(packages[from])->0))
    } else {
        packages_fault_from(packages, from + 1)
    }
}

/// The first malformed record of the manifest, if it has one: the position
/// of its package and the field that is missing.
pub open spec fn manifest_fault(m: ManifestSpec) -> Option<(int, IngestField)> {
    packages_fault_from(m.packages, 0)
}

/// A fault found from `from` on lies at a position of the manifest, at or
/// after `from`, and names the fault of the package there; no package
/// between the two is malformed.
pub proof fn lemma_fault_in_range(packages: Seq<PackageSpec>, from: int)
    requires
        0 <= from,
    ensures
        packages_fault_from(packages, from) matches Some(fault) ==> {
            &&& from <= fault.0 < packages.len()
            &&& package_fault(packages[fault.0]) == Some(fault.1)
            &&& forall|i: int| from <= i < fault.0 ==> package_fault(#[trigger] packages[i]) is None
        },
        packages_fault_from(packages, from) is None ==> forall|i: int|
            from <= i < packages.len() ==> package_fault(#[trigger] packages[i]) is None,
    decreases packages.len() - from,
{
    if from < packages.len() && package_fault(packages[from]) is None {
        lemma_fault_in_range(packages, from + 1);
    }
}

impl PackageVersion {
    /// Finds the field that makes this version record malformed.
    pub fn fault(&self) -> (found: Option<IngestField>)
        ensures
            found == version_fault(self@),
    {
        if self.version.as_str().is_empty() {
            return Some(IngestField::Version);
        }
        let mut k: usize = 0;
        while k < self.dependencies.len()
            invariant
                k <= self.dependencies.len(),
                self.version@.len() > 0,
                forall|j: int| 0 <= j < k ==> (#[trigger] self.dependencies@[j])@.len() > 0,
            decreases self.dependencies.len() - k,
        {
            if self.dependencies[k].as_str().is_empty() {
                assert(self@.dependencies[k as int].len() == 0);
                return Some(IngestField::Dependency);
            }
            k += 1;
        }
        None
    }
}

impl RemotePackage {
    /// Finds the field that makes this package record malformed.
    pub fn fault(&self) -> (found: Option<IngestField>)
        ensures
            found == package_fault(self@),
    {
        if self.name.as_str().is_empty() {
            return Some(IngestField::Name);
        }
        let mut j: usize = 0;
        while j < self.versions.len()
            invariant
                j <= self.versions.len(),
                self.name@.len() > 0,
                versions_fault_from(self@.versions, 0) == versions_fault_from(
                    self@.versions,
                    j as int,
                ),
            decreases self.versions.len() - j,
        {
            let found = self.versions[j].fault();
            assert(self@.versions[j as int] == self.versions@[j as int]@);
            if found.is_some() {
                return found;
            }
            j += 1;
        }
        None
    }
}

impl RemotePackageMetadata {
    /// Finds the first malformed record of the manifest.
    pub fn fault(&self) -> (found: Option<ManifestFault>)
        ensures
            found is None <==> manifest_fault(self@) is None,
            found matches Some(fault) ==> manifest_fault(self@) == Some(
                (fault.package as int, fault.field),
            ),
    {
        let mut i: usize = 0;
        while i < self.packages.len()
            invariant
                i <= self.packages.len(),
                packages_fault_from(self@.packages, 0) == packages_fault_from(
                    self@.packages,
                    i as int,
                ),
            decreases self.packages.len() - i,
        {
            assert(self@.packages[i as int] == self.packages@[i as int]@);
            match self.packages[i].fault() {
                Some(field) => {
                    return Some(ManifestFault { package: i, field });
                },
                None => {},
            }
            i += 1;
        }
        None
    }
}

} // verus!
