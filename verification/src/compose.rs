//! The composition driver: builds every admitted adapter in dependency
//! order from the resource bundle, merges their method sets into one
//! namespace, and seals the registry.
//!
//! Composition runs once at node start, single-threaded.  Any failure is
//! fatal to startup and no registry is handed out: the result is either a
//! sealed, collision-free registry or an error, never a partially wired
//! surface.

use vstd::prelude::*;
use crate::adapters::{
    consensus_set_model, data_availability_metrics_set_model, data_availability_set_model,
    finality_set_model, historical_set_model, metadata_set_model, migration_set_model,
    payment_set_model, sync_state_set_model, transaction_set_model, ConsensusAdapter,
    DataAvailabilityAdapter, DataAvailabilityMetricsAdapter, FinalityAdapter,
    HistoricalStateAdapter, MetadataAdapter, MigrationAdapter, PaymentAdapter, SyncStateAdapter,
    TransactionAdapter,
};
use crate::methods::{MethodSet, SetModel};
use crate::policy::DenyUnsafe;
use crate::registry::{
    collision_witnessed, distinct_names, sealed_wf, tagged_entries, CollisionError, EntryModel,
    OpenRegistry, SealedRegistry,
};
use crate::resources::{
    spec_builds_metrics, spec_builds_primary, BackendHandle, FeatureGate, FullDeps,
    StateReaderHandle,
};

verus! {

/// The models of a sequence of method sets.
pub open spec fn set_models(sets: Seq<MethodSet>) -> Seq<SetModel> {
    sets.map(|i: int, s: MethodSet| s@)
}

/// Every entry the given method sets contribute, in merge order.
pub open spec fn flatten_sets(ms: Seq<SetModel>) -> Seq<EntryModel>
    decreases ms.len(),
{
    if ms.len() == 0 {
        Seq::empty()
    } else {
        flatten_sets(ms.drop_last()) + tagged_entries(ms.last())
    }
}

/// One more merged set extends the flattened namespace by exactly that
/// set's tagged declarations.
pub proof fn lemma_flatten_take_step(ms: Seq<SetModel>, j: int)
    requires
        0 <= j < ms.len(),
    ensures
        flatten_sets(ms.take(j + 1)) == flatten_sets(ms.take(j)) + tagged_entries(ms[j]),
{
    assert(ms.take(j + 1).drop_last() =~= ms.take(j));
    assert(ms.take(j + 1).last() == ms[j]);
}

proof fn lemma_not_distinct_extend(ms: Seq<SetModel>, j: int)
    requires
        0 <= j <= ms.len(),
        !distinct_names(flatten_sets(ms.take(j))),
    ensures
        !distinct_names(flatten_sets(ms)),
    decreases ms.len() - j,
{
    if j == ms.len() {
        assert(ms.take(j) =~= ms);
    } else {
        lemma_flatten_take_step(ms, j);
        let p = flatten_sets(ms.take(j));
        let q = flatten_sets(ms.take(j + 1));
        let (a, b) = choose|a: int, b: int| 0 <= a < b < p.len() && p[a].name == p[b].name;
        assert(q[a] == p[a] && q[b] == p[b]);
        assert(!distinct_names(q));
        lemma_not_distinct_extend(ms, j + 1);
    }
}

/// Merge the given method sets, in order, into one namespace and seal it
/// under the given policy.
///
/// Returns the sealed registry exactly when the union of all declared
/// method names is collision-free; otherwise the first collision found, as
/// an error naming both contributing adapters, and no registry at all.
pub fn compose(sets: Vec<MethodSet>, deny_unsafe: DenyUnsafe) -> (r: Result<
    SealedRegistry,
    CollisionError,
>)
    ensures
        r is Ok <==> distinct_names(flatten_sets(set_models(sets@))),
        (match r {
            Ok(reg) => {
                &&& sealed_wf(reg@)
                &&& reg@.deny_unsafe == deny_unsafe
                &&& reg@.entries == flatten_sets(set_models(sets@))
            },
            Err(c) => exists|i: int|
                0 <= i < sets@.len() && collision_witnessed(
                    flatten_sets(set_models(sets@).take(i)),
                    set_models(sets@)[i],
                    c@,
                ),
        }),
{
    let ghost ms = set_models(sets@);
    let mut open = OpenRegistry::new();
    let mut i: usize = 0;
    proof {
        assert(flatten_sets(ms.take(0)) =~= Seq::<EntryModel>::empty());
    }
    while i < sets.len()
        invariant
            i <= sets.len(),
            ms == set_models(sets@),
            ms.len() == sets@.len(),
            distinct_names(open@),
            open@ == flatten_sets(ms.take(i as int)),
        decreases sets.len() - i,
    {
        let set = &sets[i];
        proof {
            assert(ms[i as int] == sets@[i as int]@);
        }
        match open.merge(set) {
            Ok(()) => {
                proof {
                    lemma_flatten_take_step(ms, i as int);
                }
            },
            Err(c) => {
                proof {
                    lemma_flatten_take_step(ms, i as int);
                    assert(!distinct_names(flatten_sets(ms.take(i as int + 1))));
                    lemma_not_distinct_extend(ms, i as int + 1);
                }
                return Err(c);
            },
        }
        i += 1;
    }
    proof {
        assert(ms.take(ms.len() as int) =~= ms);
    }
    Ok(open.seal(deny_unsafe))
}

/// Why a composition was aborted.  Errors are generic on purpose: nothing
/// read from a security-sensitive resource appears in them.
#[derive(Debug)]
pub enum CompositionError {
    /// The genesis block hash was not resolvable; genesis must exist by
    /// node-startup time, so this is an invariant violation of the node.
    MissingGenesis,
    /// The backend provides no offchain storage, which the
    /// historical-state adapter requires.
    MissingOffchainStorage,
    /// Two adapters declared the same method name.
    MethodCollision(CollisionError),
}

/// Construct the optional data-availability family from its feature gate.
///
/// The variants are decided independently; both are built against the same
/// configured request-size bound.
pub fn build_data_availability(
    gate: &FeatureGate,
    client: &StateReaderHandle,
    max_cells_size: usize,
) -> (r: (Option<DataAvailabilityAdapter>, Option<DataAvailabilityMetricsAdapter>))
    ensures
        r.0 is Some <==> spec_builds_primary(*gate),
        r.1 is Some <==> spec_builds_metrics(*gate),
        (r.0 matches Some(a) ==> a.max_cells_size == max_cells_size && a.client == *client),
        (r.1 matches Some(m) ==> m.max_cells_size == max_cells_size && m.client == *client),
{
    let primary = if gate.builds_primary() {
        Some(DataAvailabilityAdapter::new(*client, max_cells_size))
    } else {
        None
    };
    let metrics = if gate.builds_metrics() {
        Some(DataAvailabilityMetricsAdapter::new(*client, max_cells_size))
    } else {
        None
    };
    (primary, metrics)
}

/// The method-set models composition merges, in merge order, for a given
/// state of the feature toggles.
pub open spec fn full_set_models(kate_enabled: bool, kate_metrics_enabled: bool) -> Seq<SetModel> {
    let base = seq![
        metadata_set_model(),
        transaction_set_model(),
        historical_set_model(),
        payment_set_model(),
        consensus_set_model(),
        finality_set_model(),
        sync_state_set_model(),
        migration_set_model(),
    ];
    let with_metrics = if kate_metrics_enabled {
        base.push(data_availability_metrics_set_model())
    } else {
        base
    };
    if kate_enabled || kate_metrics_enabled {
        with_metrics.push(data_availability_set_model())
    } else {
        with_metrics
    }
}

/// Instantiate the full composed registry.
///
/// Builds every admitted adapter in dependency order from the resource
/// bundle, merges their method sets and seals the result under the
/// bundle's safety policy.  Fails, serving nothing, when genesis is not
/// resolvable, when the backend lacks the offchain storage the
/// historical-state adapter needs, or when two adapters collide on a
/// method name.
pub fn create_full(deps: FullDeps, backend: BackendHandle) -> (r: Result<
    SealedRegistry,
    CompositionError,
>)
    ensures
        deps.client.genesis_hash is None ==> (r matches Err(e) && e is MissingGenesis),
        deps.client.genesis_hash is Some && backend.offchain_storage is None ==> (r matches Err(e)
            && e is MissingOffchainStorage),
        r is Ok <==> (deps.client.genesis_hash is Some && backend.offchain_storage is Some
            && distinct_names(
            flatten_sets(full_set_models(deps.kate_rpc_enabled, deps.kate_rpc_metrics_enabled)),
        )),
        deps.client.genesis_hash is Some && backend.offchain_storage is Some && !distinct_names(
            flatten_sets(full_set_models(deps.kate_rpc_enabled, deps.kate_rpc_metrics_enabled)),
        ) ==> (r matches Err(e) && e matches CompositionError::MethodCollision(c)
            && exists|i: int|
            0 <= i < full_set_models(deps.kate_rpc_enabled, deps.kate_rpc_metrics_enabled).len()
                && collision_witnessed(
                flatten_sets(
                    full_set_models(deps.kate_rpc_enabled, deps.kate_rpc_metrics_enabled).take(i),
                ),
                full_set_models(deps.kate_rpc_enabled, deps.kate_rpc_metrics_enabled)[i],
                c@,
            )),
        (r matches Ok(reg) ==> {
            &&& sealed_wf(reg@)
            &&& reg@.deny_unsafe == deps.deny_unsafe
            &&& reg@.entries == flatten_sets(
                full_set_models(deps.kate_rpc_enabled, deps.kate_rpc_metrics_enabled),
            )
        }),
{
    let FullDeps {
        client,
        pool,
        select_chain,
        chain_spec,
        deny_unsafe,
        babe,
        grandpa,
        kate_max_cells_size,
        kate_rpc_enabled,
        kate_rpc_metrics_enabled,
    } = deps;

    // Genesis must be resolvable before anything is wired.
    let genesis_hash: u64 = match client.genesis_hash {
        Some(h) => h,
        None => {
            return Err(CompositionError::MissingGenesis);
        },
    };
    // The historical-state adapter requires offchain storage.
    let offchain = match backend.offchain_storage {
        Some(o) => o,
        None => {
            return Err(CompositionError::MissingOffchainStorage);
        },
    };

    let chain_name = chain_spec.chain_name.clone();
    let properties = chain_spec.properties.clone();

    let gate = FeatureGate {
        data_availability: kate_rpc_enabled,
        data_availability_metrics: kate_rpc_metrics_enabled,
    };

    // Adapters, in dependency order; the sync-state adapter is built after
    // the finality adapter so both hold the same shared authority-set
    // handle, and it consumes the chain specification.
    let metadata = MetadataAdapter::new(chain_name, genesis_hash, properties);
    let transaction = TransactionAdapter::new(client, pool, deny_unsafe);
    let historical = HistoricalStateAdapter::new(client, offchain);
    let payment = PaymentAdapter::new(client);
    let consensus = ConsensusAdapter::new(
        client,
        babe.babe_worker_handle,
        babe.keystore,
        select_chain,
        deny_unsafe,
    );
    let finality = FinalityAdapter::new(
        grandpa.subscription_executor,
        grandpa.shared_authority_set,
        grandpa.shared_voter_state,
        grandpa.justification_stream,
        grandpa.finality_provider,
    );
    let sync_state = SyncStateAdapter::new(
        chain_spec,
        client,
        finality.authority_set,
        consensus.worker,
    );
    let migration = MigrationAdapter::new(client, backend, deny_unsafe);
    let (da_primary, da_metrics) = build_data_availability(&gate, &client, kate_max_cells_size);

    let mut sets: Vec<MethodSet> = Vec::new();
    sets.push(metadata.methods());
    sets.push(transaction.methods());
    sets.push(historical.methods());
    sets.push(payment.methods());
    sets.push(consensus.methods());
    sets.push(finality.methods());
    sets.push(sync_state.methods());
    sets.push(migration.methods());
    if let Some(m) = &da_metrics {
        sets.push(m.methods());
    }
    if let Some(a) = &da_primary {
        sets.push(a.methods());
    }
    proof {
        assert(set_models(sets@) =~= full_set_models(kate_rpc_enabled, kate_rpc_metrics_enabled));
    }

    match compose(sets, deny_unsafe) {
        Ok(reg) => Ok(reg),
        Err(c) => Err(CompositionError::MethodCollision(c)),
    }
}

} // verus!
