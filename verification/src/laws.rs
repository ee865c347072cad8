//! The composition layer's global guarantees, stated and proved over the
//! models that the executable functions' contracts use.

use vstd::prelude::*;
use crate::adapters::{
    consensus_set_model, data_availability_metrics_set_model, data_availability_set_model,
    finality_set_model, historical_set_model, metadata_set_model, migration_set_model,
    payment_set_model, sync_state_set_model, transaction_set_model,
};
use crate::compose::{flatten_sets, full_set_models, lemma_flatten_take_step};
use crate::methods::{set_declares, SetModel};
use crate::registry::{
    contains_name, distinct_names, entry_of, sealed_wf, spec_dispatch, tagged_entries,
    DispatchOutcome, EntryModel, SealedModel,
};

verus! {

proof fn lemma_flatten_prefix(ms: Seq<SetModel>, k: int)
    requires
        0 <= k <= ms.len(),
    ensures
        flatten_sets(ms.take(k)).len() <= flatten_sets(ms).len(),
        forall|x: int|
            0 <= x < flatten_sets(ms.take(k)).len() ==> flatten_sets(ms)[x] == flatten_sets(
                ms.take(k),
            )[x],
    decreases ms.len() - k,
{
    if k == ms.len() {
        assert(ms.take(k) =~= ms);
    } else {
        lemma_flatten_take_step(ms, k);
        lemma_flatten_prefix(ms, k + 1);
        assert forall|x: int| 0 <= x < flatten_sets(ms.take(k)).len() implies flatten_sets(
            ms,
        )[x] == flatten_sets(ms.take(k))[x] by {
            assert(flatten_sets(ms.take(k + 1))[x] == flatten_sets(ms.take(k))[x]);
        }
    }
}

/// Where one declaration lands in the flattened namespace: set `i`'s
/// declaration `j` becomes the entry at the end of everything the earlier
/// sets contributed.
pub proof fn lemma_flatten_position(ms: Seq<SetModel>, i: int, j: int)
    requires
        0 <= i < ms.len(),
        0 <= j < ms[i].methods.len(),
    ensures
        0 <= flatten_sets(ms.take(i)).len() + j < flatten_sets(ms).len(),
        flatten_sets(ms)[flatten_sets(ms.take(i)).len() + j] == entry_of(
            ms[i].adapter,
            ms[i].methods[j],
        ),
{
    lemma_flatten_take_step(ms, i);
    let x = flatten_sets(ms.take(i)).len() + j;
    assert(flatten_sets(ms.take(i + 1))[x] == tagged_entries(ms[i])[j]);
    lemma_flatten_prefix(ms, i + 1);
}

/// The composed namespace is complete and adds nothing: it carries a
/// method name exactly when some admitted adapter declares it.  Together
/// with the composition contract this is the "all or nothing" guarantee:
/// a returned registry serves every admitted method set in full, with zero
/// collisions, and a failed composition serves nothing.
pub proof fn lemma_sealed_registry_complete(ms: Seq<SetModel>, n: Seq<char>)
    ensures
        contains_name(flatten_sets(ms), n) <==> exists|i: int|
            0 <= i < ms.len() && set_declares(ms[i], n),
    decreases ms.len(),
{
    if ms.len() == 0 {
    } else {
        lemma_sealed_registry_complete(ms.drop_last(), n);
        let fl = flatten_sets(ms);
        let head = flatten_sets(ms.drop_last());
        let tail = tagged_entries(ms.last());
        if contains_name(fl, n) {
            let x = choose|x: int| 0 <= x < fl.len() && fl[x].name == n;
            if x < head.len() {
                assert(head[x] == fl[x]);
                assert(contains_name(head, n));
                let i = choose|i: int| 0 <= i < ms.drop_last().len() && set_declares(
                    ms.drop_last()[i],
                    n,
                );
                assert(ms.drop_last()[i] == ms[i]);
                assert(set_declares(ms[i], n));
            } else {
                let j = x - head.len();
                assert(fl[x] == tail[j]);
                assert(tail[j] == entry_of(ms.last().adapter, ms.last().methods[j]));
                assert(ms.last().methods[j].name == n);
                assert(set_declares(ms[ms.len() - 1], n));
            }
        }
        if exists|i: int| 0 <= i < ms.len() && set_declares(ms[i], n) {
            let i = choose|i: int| 0 <= i < ms.len() && set_declares(ms[i], n);
            let j = choose|j: int| 0 <= j < ms[i].methods.len() && ms[i].methods[j].name == n;
            lemma_flatten_position(ms, i, j);
            let x = flatten_sets(ms.take(i)).len() + j;
            assert(fl[x].name == n);
            assert(contains_name(fl, n));
        }
    }
}

/// A method name declared by two different admitted adapters makes the
/// whole composition fail: the flattened namespace cannot be
/// collision-free, so, by the composition contract, no registry is
/// produced and the reported error names both contributors.
pub proof fn lemma_cross_adapter_collision_fails(ms: Seq<SetModel>, i: int, j: int, n: Seq<char>)
    requires
        0 <= i < j < ms.len(),
        set_declares(ms[i], n),
        set_declares(ms[j], n),
    ensures
        !distinct_names(flatten_sets(ms)),
{
    let ji = choose|x: int| 0 <= x < ms[i].methods.len() && ms[i].methods[x].name == n;
    let jj = choose|x: int| 0 <= x < ms[j].methods.len() && ms[j].methods[x].name == n;
    lemma_flatten_position(ms, i, ji);
    lemma_flatten_position(ms, j, jj);
    let xi = flatten_sets(ms.take(i)).len() + ji;
    let xj = flatten_sets(ms.take(j)).len() + jj;
    lemma_flatten_take_step(ms, i);
    lemma_flatten_monotone(ms, i + 1, j);
    assert(xi < flatten_sets(ms.take(i + 1)).len());
    assert(flatten_sets(ms.take(i + 1)).len() <= flatten_sets(ms.take(j)).len());
    assert(xi < xj);
    assert(flatten_sets(ms)[xi].name == n);
    assert(flatten_sets(ms)[xj].name == n);
}

proof fn lemma_flatten_monotone(ms: Seq<SetModel>, a: int, b: int)
    requires
        0 <= a <= b <= ms.len(),
    ensures
        flatten_sets(ms.take(a)).len() <= flatten_sets(ms.take(b)).len(),
    decreases b - a,
{
    if a < b {
        lemma_flatten_take_step(ms, a);
        lemma_flatten_monotone(ms, a + 1, b);
    }
}

/// Central policy enforcement: under a deny-unsafe policy, dispatching any
/// method classified `Unsafe` is `PolicyDenied`, no matter which adapter
/// declared the method or when it was merged.
pub proof fn lemma_deny_unsafe_blankets(s: SealedModel, i: int, n: Seq<char>)
    requires
        sealed_wf(s),
        s.deny_unsafe is Yes,
        0 <= i < s.entries.len(),
        s.entries[i].name == n,
        s.entries[i].classification is Unsafe,
    ensures
        spec_dispatch(s, n) == DispatchOutcome::PolicyDenied,
{
    assert(contains_name(s.entries, n));
    let k = choose|k: int| 0 <= k < s.entries.len() && s.entries[k].name == n;
    assert(s.entries[k] == s.entries[i]) by {
        if k != i {
            assert(s.entries[k].name == s.entries[i].name);
            assert(false);
        }
    }
}

/// The optional family's method names: the data-availability adapters and
/// nobody else declare names carrying this prefix.
pub open spec fn data_availability_family(n: Seq<char>) -> bool {
    n.len() >= 5 && n.subrange(0, 5) == "kate_"@
}

/// Disabling every toggle of the data-availability family removes the
/// family from the composed namespace entirely: dispatching any name of
/// the family is `NotFound`, the very outcome any name that never existed
/// in any adapter gets.
pub proof fn lemma_disabled_family_not_found(s: SealedModel, n: Seq<char>)
    requires
        sealed_wf(s),
        s.entries == flatten_sets(full_set_models(false, false)),
        data_availability_family(n),
    ensures
        !contains_name(s.entries, n),
        spec_dispatch(s, n) == DispatchOutcome::NotFound,
        forall|m: Seq<char>| !contains_name(s.entries, m) ==> spec_dispatch(s, m) == spec_dispatch(
            s,
            n,
        ),
{
    reveal_strlit("kate_");
    assert(n.subrange(0, 5)[0] == n[0]);
    assert(n[0] == 'k');
    if contains_name(s.entries, n) {
        lemma_sealed_registry_complete(full_set_models(false, false), n);
        let ms = full_set_models(false, false);
        let i = choose|i: int| 0 <= i < ms.len() && set_declares(ms[i], n);
        let m = ms[i];
        let j = choose|j: int| 0 <= j < m.methods.len() && m.methods[j].name == n;
        reveal_strlit("chainSpec_v1_chainName");
        reveal_strlit("chainSpec_v1_genesisHash");
        reveal_strlit("chainSpec_v1_properties");
        reveal_strlit("system_accountNextIndex");
        reveal_strlit("system_dryRun");
        reveal_strlit("mmr_root");
        reveal_strlit("mmr_generateProof");
        reveal_strlit("mmr_verifyProof");
        reveal_strlit("payment_queryInfo");
        reveal_strlit("payment_queryFeeDetails");
        reveal_strlit("babe_epochAuthorship");
        reveal_strlit("grandpa_roundState");
        reveal_strlit("grandpa_proveFinality");
        reveal_strlit("grandpa_subscribeJustifications");
        reveal_strlit("sync_state_genSyncSpec");
        reveal_strlit("state_trieMigrationStatus");
        if i == 0 {
            assert(m == metadata_set_model());
            assert(n[0] == 'c');
        } else if i == 1 {
            assert(m == transaction_set_model());
            assert(n[0] == 's');
        } else if i == 2 {
            assert(m == historical_set_model());
            assert(n[0] == 'm');
        } else if i == 3 {
            assert(m == payment_set_model());
            assert(n[0] == 'p');
        } else if i == 4 {
            assert(m == consensus_set_model());
            assert(n[0] == 'b');
        } else if i == 5 {
            assert(m == finality_set_model());
            assert(n[0] == 'g');
        } else if i == 6 {
            assert(m == sync_state_set_model());
            assert(n[0] == 's');
        } else {
            assert(i == 7);
            assert(m == migration_set_model());
            assert(n[0] == 's');
        }
        assert(false);
    }
}

/// The primary and the metrics variant of the data-availability family
/// never collide: no method name is declared by both, so enabling both
/// variants (which the composition builds against one shared request-size
/// bound) merges cleanly.
pub proof fn lemma_variant_sets_disjoint()
    ensures
        forall|n: Seq<char>|
            set_declares(data_availability_set_model(), n) ==> !set_declares(
                data_availability_metrics_set_model(),
                n,
            ),
{
    reveal_strlit("kate_queryRows");
    reveal_strlit("kate_queryProof");
    reveal_strlit("kate_blockLength");
    reveal_strlit("kate_queryDataProof");
    reveal_strlit("kate_queryRowsMetrics");
    reveal_strlit("kate_queryProofMetrics");
    assert forall|n: Seq<char>|
        set_declares(data_availability_set_model(), n) implies !set_declares(
        data_availability_metrics_set_model(),
        n,
    ) by {
        let p = data_availability_set_model();
        let q = data_availability_metrics_set_model();
        let j = choose|j: int| 0 <= j < p.methods.len() && p.methods[j].name == n;
        assert(n.len() <= 19);
        if set_declares(q, n) {
            let k = choose|k: int| 0 <= k < q.methods.len() && q.methods[k].name == n;
            assert(n.len() >= 21);
            assert(false);
        }
    }
}

/// Composition is deterministic: two sealed registries built from the same
/// admitted method sets under the same policy hold the same namespace and
/// dispatch every name identically.
pub proof fn lemma_compose_deterministic(entries: Seq<EntryModel>, r1: SealedModel, r2: SealedModel)
    requires
        r1.entries == entries,
        r2.entries == entries,
        r1.deny_unsafe == r2.deny_unsafe,
    ensures
        r1 == r2,
        forall|n: Seq<char>| spec_dispatch(r1, n) == spec_dispatch(r2, n),
{
}

} // verus!
