//! Reconciling the catalog's existing keys against the keys observed in one
//! scan: which records are new, which are to be deleted, and the counts that
//! a run reports.
//!
//! A file that fails extraction is not observed, so a record whose file
//! merely became unreadable or unprobeable is deleted just like one whose
//! file was removed from disk.

use vstd::prelude::*;
use crate::path::{bytes_views, copy_bytes};
use crate::keyset::{KeySet, lemma_to_set_push};

verus! {

/// Keys observed in the scan but not yet in the catalog.
pub open spec fn added_keys(existing: Set<Seq<u8>>, observed: Set<Seq<u8>>) -> Set<Seq<u8>> {
    observed.difference(existing)
}

/// Keys in the catalog that the scan did not observe.
pub open spec fn removed_keys(existing: Set<Seq<u8>>, observed: Set<Seq<u8>>) -> Set<Seq<u8>> {
    existing.difference(observed)
}

/// The catalog's keys once a run has upserted every observed key and deleted
/// every removed one.
pub open spec fn catalog_after(existing: Set<Seq<u8>>, observed: Set<Seq<u8>>) -> Set<Seq<u8>> {
    existing.difference(removed_keys(existing, observed)).union(observed)
}

/// The total a run reports: existing count, less the deletions applied,
/// plus the additions.
pub open spec fn reported_total(existing_count: int, removed: int, added: int) -> int {
    existing_count - removed + added
}

/// The number of deletions that affected a row.
pub open spec fn applied_count(changes: Seq<usize>) -> nat
    decreases changes.len(),
{
    if changes.len() == 0 {
        0
    } else {
        applied_count(changes.drop_last()) + if changes.last() > 0 {
            1nat
        } else {
            0nat
        }
    }
}

/// What a run is to do once the scan is over.
pub struct ReconcilePlan {
    /// How many observed keys are new to the catalog.
    pub added: usize,
    /// The keys to delete, each once.
    pub to_remove: Vec<Vec<u8>>,
}

/// The counts a run reports.
#[derive(Clone, Copy, Debug, PartialEq, Eq, Structural)]
pub struct ReconcileSummary {
    pub added: usize,
    pub removed: usize,
    pub total: usize,
}

/// Compares the catalog's keys before the run with the keys observed by the
/// scan: counts the additions and lists the keys to delete.
pub fn plan_reconciliation(existing: &KeySet, observed: &KeySet) -> (r: ReconcilePlan)
    requires
        existing.wf(),
        observed.wf(),
    ensures
        r.added == added_keys(existing@, observed@).len(),
        bytes_views(r.to_remove@).no_duplicates(),
        bytes_views(r.to_remove@).to_set() == removed_keys(existing@, observed@),
        r.to_remove@.len() == removed_keys(existing@, observed@).len(),
{
    proof {
        existing.lemma_key_seq();
        observed.lemma_key_seq();
    }
    let obs = observed.keys();
    let mut added: usize = 0;
    let ghost mut new_keys: Seq<Seq<u8>> = Seq::empty();
    let mut i: usize = 0;
    while i < obs.len()
        invariant
            i <= obs@.len(),
            bytes_views(obs@).no_duplicates(),
            bytes_views(obs@).to_set() == observed@,
            new_keys.no_duplicates(),
            new_keys.to_set() == bytes_views(obs@).subrange(0, i as int).to_set().difference(
                existing@,
            ),
            added == new_keys.len(),
            added <= i,
        decreases obs@.len() - i,
    {
        let ghost pre = bytes_views(obs@).subrange(0, i as int);
        let ghost k = obs@[i as int]@;
        assert(bytes_views(obs@).subrange(0, i + 1) =~= pre.push(k));
        proof {
            lemma_to_set_push(pre, k);
        }
        if !existing.contains(&obs[i]) {
            proof {
                assert(!pre.contains(k)) by {
                    if pre.contains(k) {
                        let j = choose|j: int| 0 <= j < pre.len() && pre[j] == k;
                        assert(bytes_views(obs@)[j] == bytes_views(obs@)[i as int]);
                    }
                };
                assert(!new_keys.to_set().contains(k));
                assert(!new_keys.contains(k));
                lemma_to_set_push(new_keys, k);
                new_keys = new_keys.push(k);
                assert(new_keys.to_set() =~= pre.push(k).to_set().difference(existing@));
            }
            added = added + 1;
        } else {
            assert(new_keys.to_set() =~= pre.push(k).to_set().difference(existing@));
        }
        i = i + 1;
    }
    assert(bytes_views(obs@).subrange(0, obs@.len() as int) =~= bytes_views(obs@));
    proof {
        new_keys.unique_seq_to_set();
    }
    let ex = existing.keys();
    let mut to_remove: Vec<Vec<u8>> = Vec::new();
    let mut i: usize = 0;
    while i < ex.len()
        invariant
            i <= ex@.len(),
            bytes_views(ex@).no_duplicates(),
            bytes_views(ex@).to_set() == existing@,
            bytes_views(to_remove@).no_duplicates(),
            bytes_views(to_remove@).to_set() == bytes_views(ex@).subrange(
                0,
                i as int,
            ).to_set().difference(observed@),
        decreases ex@.len() - i,
    {
        let ghost pre = bytes_views(ex@).subrange(0, i as int);
        let ghost k = ex@[i as int]@;
        let ghost before = bytes_views(to_remove@);
        assert(bytes_views(ex@).subrange(0, i + 1) =~= pre.push(k));
        proof {
            lemma_to_set_push(pre, k);
        }
        if !observed.contains(&ex[i]) {
            proof {
                assert(!pre.contains(k)) by {
                    if pre.contains(k) {
                        let j = choose|j: int| 0 <= j < pre.len() && pre[j] == k;
                        assert(bytes_views(ex@)[j] == bytes_views(ex@)[i as int]);
                    }
                };
                assert(!before.to_set().contains(k));
                assert(!before.contains(k));
                lemma_to_set_push(before, k);
            }
            to_remove.push(copy_bytes(&ex[i]));
            assert(bytes_views(to_remove@) =~= before.push(k));
            assert(bytes_views(to_remove@).to_set() =~= pre.push(k).to_set().difference(
                observed@,
            ));
        } else {
            assert(bytes_views(to_remove@).to_set() =~= pre.push(k).to_set().difference(
                observed@,
            ));
        }
        i = i + 1;
    }
    assert(bytes_views(ex@).subrange(0, ex@.len() as int) =~= bytes_views(ex@));
    proof {
        bytes_views(to_remove@).unique_seq_to_set();
    }
    ReconcilePlan { added, to_remove }
}

/// The counts of a finished run: `existing_count` keys before it, the plan it
/// followed, and the rows each deletion affected, in the plan's order.
pub fn summarize(
    existing_count: usize,
    plan: &ReconcilePlan,
    delete_changes: &Vec<usize>,
) -> (r: ReconcileSummary)
    requires
        plan.to_remove@.len() <= existing_count,
        delete_changes@.len() == plan.to_remove@.len(),
        existing_count + plan.added <= usize::MAX,
    ensures
        r.added == plan.added,
        r.removed == applied_count(delete_changes@),
        r.total == reported_total(existing_count as int, r.removed as int, r.added as int),
{
    let mut removed: usize = 0;
    let mut i: usize = 0;
    while i < delete_changes.len()
        invariant
            i <= delete_changes@.len(),
            delete_changes@.len() <= existing_count,
            removed == applied_count(delete_changes@.subrange(0, i as int)),
            removed <= i,
        decreases delete_changes@.len() - i,
    {
        assert(delete_changes@.subrange(0, i + 1).drop_last() =~= delete_changes@.subrange(
            0,
            i as int,
        ));
        if delete_changes[i] > 0 {
            removed = removed + 1;
        }
        i = i + 1;
    }
    assert(delete_changes@.subrange(0, delete_changes@.len() as int) =~= delete_changes@);
    ReconcileSummary { added: plan.added, removed, total: existing_count - removed + plan.added }
}

/// When every planned deletion is applied, the reported total is the size of
/// the catalog after the run, which holds exactly the observed keys.
pub proof fn lemma_total_is_catalog_size(existing: Set<Seq<u8>>, observed: Set<Seq<u8>>)
    requires
        existing.finite(),
        observed.finite(),
    ensures
        catalog_after(existing, observed) == observed,
        reported_total(
            existing.len() as int,
            removed_keys(existing, observed).len() as int,
            added_keys(existing, observed).len() as int,
        ) == catalog_after(existing, observed).len(),
{
    assert(catalog_after(existing, observed) =~= observed);
    let common = existing.intersect(observed);
    assert(existing =~= common.union(removed_keys(existing, observed)));
    assert(common.disjoint(removed_keys(existing, observed)));
    vstd::set_lib::lemma_set_disjoint_lens(common, removed_keys(existing, observed));
    assert(observed =~= common.union(added_keys(existing, observed)));
    assert(common.disjoint(added_keys(existing, observed)));
    vstd::set_lib::lemma_set_disjoint_lens(common, added_keys(existing, observed));
}

/// Running a reconciliation a second time, with nothing changed on disk,
/// adds nothing, removes nothing and leaves the catalog as it was.
pub proof fn lemma_second_run_changes_nothing(existing: Set<Seq<u8>>, observed: Set<Seq<u8>>)
    requires
        existing.finite(),
        observed.finite(),
    ensures
        added_keys(catalog_after(existing, observed), observed).len() == 0,
        removed_keys(catalog_after(existing, observed), observed).len() == 0,
        catalog_after(catalog_after(existing, observed), observed) == catalog_after(
            existing,
            observed,
        ),
        reported_total(catalog_after(existing, observed).len() as int, 0, 0) == catalog_after(
            existing,
            observed,
        ).len(),
{
    lemma_total_is_catalog_size(existing, observed);
    assert(added_keys(observed, observed) =~= Set::empty());
    assert(removed_keys(observed, observed) =~= Set::empty());
    lemma_total_is_catalog_size(observed, observed);
}

/// A run against an empty catalog adds every observed key, removes nothing,
/// and leaves exactly the observed keys.
pub proof fn lemma_first_run_adds_all(observed: Set<Seq<u8>>)
    requires
        observed.finite(),
    ensures
        added_keys(Set::empty(), observed).len() == observed.len(),
        removed_keys(Set::empty(), observed).len() == 0,
        catalog_after(Set::empty(), observed) == observed,
{
    assert(added_keys(Set::empty(), observed) =~= observed);
    assert(removed_keys(Set::empty(), observed) =~= Set::empty());
    lemma_total_is_catalog_size(Set::empty(), observed);
}

/// When the file of a cataloged key is gone and nothing else changed, the
/// next run removes exactly that key and nothing more, and the key is absent
/// afterwards.
pub proof fn lemma_deleted_file_is_removed(
    existing: Set<Seq<u8>>,
    observed: Set<Seq<u8>>,
    gone: Seq<u8>,
)
    requires
        existing.finite(),
        observed.finite(),
        catalog_after(existing, observed).contains(gone),
    ensures
        removed_keys(catalog_after(existing, observed), observed.remove(gone)) == set![gone],
        removed_keys(catalog_after(existing, observed), observed.remove(gone)).len() == 1,
        added_keys(catalog_after(existing, observed), observed.remove(gone)).len() == 0,
        !catalog_after(catalog_after(existing, observed), observed.remove(gone)).contains(gone),
{
    lemma_total_is_catalog_size(existing, observed);
    assert(removed_keys(observed, observed.remove(gone)) =~= set![gone]);
    assert(added_keys(observed, observed.remove(gone)) =~= Set::empty());
    assert(set![gone].len() == 1) by {
        assert(set![gone] =~= Set::<Seq<u8>>::empty().insert(gone));
    };
}

} // verus!
