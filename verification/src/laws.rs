//! What holds of every import, stated over the model of the store.

use vstd::prelude::*;
use crate::metadata::{manifest_fault, ManifestSpec, PackageSpec};
use crate::rows::{
    apply_writes, manifest_rows, package_row, package_rows, packages_rows_from, version_rows,
    versions_rows_from, RowKey, RowSpec, Store,
};
use crate::sql::{decimal, digit_char, shard_alias_text, shard_alias_texts};

verus! {

/// Every row of the sequence lies under the repository `repo`.
pub open spec fn all_under(rows: Seq<RowSpec>, repo: Seq<char>) -> bool {
    forall|i: int| 0 <= i < rows.len() ==> (#[trigger] rows[i]).key.repo == repo
}

/// The store that an import leaves: a well-formed manifest's rows are all
/// written, a malformed manifest changes nothing.
pub open spec fn import_result(store: Store, repo: Seq<char>, m: ManifestSpec) -> Store {
    if manifest_fault(m) is None {
        apply_writes(store, manifest_rows(repo, m))
    } else {
        store
    }
}

/// Writing rows to a store gives the store overlaid with what the same
/// writes leave in an empty store.
pub proof fn lemma_apply_overlays(store: Store, writes: Seq<RowSpec>)
    ensures
        apply_writes(store, writes) == store.union_prefer_right(
            apply_writes(Map::empty(), writes),
        ),
    decreases writes.len(),
{
    if writes.len() > 0 {
        lemma_apply_overlays(store, writes.drop_last());
    }
    assert(apply_writes(store, writes) =~= store.union_prefer_right(
        apply_writes(Map::empty(), writes),
    ));
}

/// Writes leave every row alone whose identity none of them has.
pub proof fn lemma_untouched(store: Store, writes: Seq<RowSpec>, key: RowKey)
    requires
        forall|i: int| 0 <= i < writes.len() ==> (#[trigger] writes[i]).key != key,
    ensures
        apply_writes(store, writes).contains_key(key) == store.contains_key(key),
        apply_writes(store, writes)[key] == store[key],
    decreases writes.len(),
{
    if writes.len() > 0 {
        let rest = writes.drop_last();
        assert forall|i: int| 0 <= i < rest.len() implies (#[trigger] rest[i]).key != key by {
            assert(rest[i] == writes[i]);
        }
        lemma_untouched(store, rest, key);
        assert(writes.last() == writes[writes.len() - 1]);
    }
}

/// After a sequence of writes every written row is present, and a row
/// that no later write replaces carries what its write gave it.
pub proof fn lemma_written_rows_present(store: Store, writes: Seq<RowSpec>, i: int)
    requires
        0 <= i < writes.len(),
    ensures
        apply_writes(store, writes).contains_key(writes[i].key),
        (forall|j: int| i < j < writes.len() ==> (#[trigger] writes[j]).key != writes[i].key)
            ==> apply_writes(store, writes)[writes[i].key] == writes[i].description,
    decreases writes.len(),
{
    if i < writes.len() - 1 {
        let rest = writes.drop_last();
        assert(rest[i] == writes[i]);
        lemma_written_rows_present(store, rest, i);
        if forall|j: int| i < j < writes.len() ==> (#[trigger] writes[j]).key != writes[i].key {
            assert forall|j: int| i < j < rest.len() implies (#[trigger] rest[j]).key
                != rest[i].key by {
                assert(rest[j] == writes[j]);
            }
            assert(writes.last() == writes[writes.len() - 1]);
        }
    }
}

proof fn lemma_versions_under(repo: Seq<char>, p: PackageSpec, from: int)
    requires
        0 <= from,
    ensures
        all_under(versions_rows_from(repo, p, from), repo),
    decreases p.versions.len() - from,
{
    if from < p.versions.len() {
        lemma_versions_under(repo, p, from + 1);
        let head = version_rows(repo, p, p.versions[from]);
        let tail = versions_rows_from(repo, p, from + 1);
        assert(all_under(head, repo));
        assert forall|i: int| 0 <= i < (head + tail).len() implies (#[trigger] (head + tail)[i]).key.repo
            == repo by {
            if i >= head.len() {
                assert((head + tail)[i] == tail[i - head.len()]);
            } else {
                assert((head + tail)[i] == head[i]);
            }
        }
    }
}

proof fn lemma_packages_under(repo: Seq<char>, packages: Seq<PackageSpec>, from: int)
    requires
        0 <= from,
    ensures
        all_under(packages_rows_from(repo, packages, from), repo),
    decreases packages.len() - from,
{
    if from < packages.len() {
        lemma_packages_under(repo, packages, from + 1);
        lemma_versions_under(repo, packages[from], 0);
        let head = package_rows(repo, packages[from]);
        let tail = packages_rows_from(repo, packages, from + 1);
        assert(all_under(head, repo));
        assert forall|i: int| 0 <= i < (head + tail).len() implies (#[trigger] (head + tail)[i]).key.repo
            == repo by {
            if i >= head.len() {
                assert((head + tail)[i] == tail[i - head.len()]);
            } else {
                assert((head + tail)[i] == head[i]);
            }
        }
    }
}

/// Every row of an import lies under the repository name of the import.
pub proof fn lemma_rows_scoped(repo: Seq<char>, m: ManifestSpec)
    ensures
        all_under(manifest_rows(repo, m), repo),
{
    lemma_packages_under(repo, m.packages, 0);
}

/// All or nothing: an import of a well-formed manifest leaves every one
/// of its rows present, and a refused manifest leaves the store as it was.
pub proof fn lemma_import_all_or_nothing(store: Store, repo: Seq<char>, m: ManifestSpec)
    ensures
        manifest_fault(m) is None ==> forall|i: int|
            0 <= i < manifest_rows(repo, m).len() ==> import_result(store, repo, m).contains_key(
                (#[trigger] manifest_rows(repo, m)[i]).key,
            ),
        manifest_fault(m) is Some ==> import_result(store, repo, m) == store,
{
    if manifest_fault(m) is None {
        let rows = manifest_rows(repo, m);
        assert forall|i: int| 0 <= i < rows.len() implies import_result(store, repo, m).contains_key(
            (#[trigger] rows[i]).key,
        ) by {
            lemma_written_rows_present(store, rows, i);
        }
    }
}

/// Importing a manifest twice under one repository name leaves the store
/// that importing it once leaves.
pub proof fn lemma_import_idempotent(store: Store, repo: Seq<char>, m: ManifestSpec)
    ensures
        import_result(import_result(store, repo, m), repo, m) == import_result(store, repo, m),
{
    if manifest_fault(m) is None {
        let rows = manifest_rows(repo, m);
        lemma_apply_overlays(store, rows);
        lemma_apply_overlays(apply_writes(store, rows), rows);
        assert(apply_writes(apply_writes(store, rows), rows) =~= apply_writes(store, rows));
    }
}

/// An import under one repository name leaves every row of every other
/// repository as it was: neither added, removed nor changed.
pub proof fn lemma_repository_isolation(
    store: Store,
    repo: Seq<char>,
    m: ManifestSpec,
    key: RowKey,
)
    requires
        key.repo != repo,
    ensures
        import_result(store, repo, m).contains_key(key) == store.contains_key(key),
        import_result(store, repo, m)[key] == store[key],
{
    if manifest_fault(m) is None {
        lemma_rows_scoped(repo, m);
        lemma_untouched(store, manifest_rows(repo, m), key);
    }
}

/// One package imported under two repository names has two rows: their
/// identities differ.
pub proof fn lemma_repositories_have_own_rows(first: Seq<char>, second: Seq<char>, p: PackageSpec)
    requires
        first != second,
    ensures
        package_row(first, p).key != package_row(second, p).key,
{
}

proof fn lemma_decimal_nonempty(n: nat)
    ensures
        decimal(n).len() >= 1,
    decreases n,
{
    if n >= 10 {
        lemma_decimal_nonempty(n / 10);
    }
}

/// Two numbers with the same decimal text are equal.
pub proof fn lemma_decimal_injective(a: nat, b: nat)
    requires
        decimal(a) == decimal(b),
    ensures
        a == b,
    decreases a,
{
    lemma_decimal_nonempty(a / 10);
    lemma_decimal_nonempty(b / 10);
    if a < 10 && b < 10 {
        assert(decimal(a)[0] == digit_char(a));
        assert(decimal(b)[0] == digit_char(b));
    } else if a >= 10 && b >= 10 {
        assert(decimal(a).last() == digit_char(a % 10));
        assert(decimal(b).last() == digit_char(b % 10));
        assert(decimal(a).drop_last() =~= decimal(a / 10));
        assert(decimal(b).drop_last() =~= decimal(b / 10));
        lemma_decimal_injective(a / 10, b / 10);
    } else if a < 10 {
        assert(decimal(a).len() == 1);
        assert(decimal(b).len() == decimal(b / 10).len() + 1);
    } else {
        assert(decimal(b).len() == 1);
        assert(decimal(a).len() == decimal(a / 10).len() + 1);
    }
}

/// Shards at different positions have different aliases.
pub proof fn lemma_aliases_distinct(i: nat, j: nat)
    requires
        i != j,
    ensures
        shard_alias_text(i) != shard_alias_text(j),
{
    if shard_alias_text(i) == shard_alias_text(j) {
        let head = "shard"@;
        assert(shard_alias_text(i).subrange(head.len() as int, shard_alias_text(i).len() as int)
            =~= decimal(i));
        assert(shard_alias_text(j).subrange(head.len() as int, shard_alias_text(j).len() as int)
            =~= decimal(j));
        lemma_decimal_injective(i, j);
    }
}

/// No two shards of a handle share an alias.
pub proof fn lemma_handle_aliases_unique(count: nat, i: int, j: int)
    requires
        0 <= i < count,
        0 <= j < count,
        i != j,
    ensures
        shard_alias_texts(count)[i] != shard_alias_texts(count)[j],
{
    lemma_aliases_distinct((i + 1) as nat, (j + 1) as nat);
}

} // verus!
