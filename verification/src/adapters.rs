//! The subsystem adapters: each wraps one collaborator's native interface
//! behind the uniform method-set contract.
//!
//! An adapter is constructed once, from its slice of the resource bundle
//! plus subsystem-specific dependencies, and declares a fixed method set:
//! name, handler token, safety classification.  Construction wires handles
//! only; it starts no background work of its own.

use vstd::prelude::*;
use crate::methods::{DeclModel, HandlerId, MethodDecl, MethodSet, SetModel};
use crate::policy::{Classification, DenyUnsafe};
use crate::resources::{
    AuthoritySetHandle, BackendHandle, ChainSpecHandle, ConsensusWorkerHandle,
    FinalityProofProviderHandle, JustificationStreamHandle, KeystoreHandle,
    OffchainStorageHandle, SelectChainHandle, StateReaderHandle, SubscriptionExecutorHandle,
    TxPoolHandle, VoterStateHandle,
};

verus! {

/// One method declaration from its parts.
fn decl(name: &str, handler: HandlerId, classification: Classification) -> (d: MethodDecl)
    ensures
        d@ == (DeclModel { name: name@, handler, classification }),
{
    MethodDecl { name: name.to_owned(), handler, classification }
}

/// Chain-metadata adapter: serves the chain name, the genesis hash and the
/// pass-through properties read from the chain specification.
pub struct MetadataAdapter {
    /// Chain name read from the specification.
    pub chain_name: String,
    /// The resolved genesis hash.
    pub genesis_hash: u64,
    /// Opaque chain properties.
    pub properties: String,
}

/// Method set declared by the chain-metadata adapter.
pub open spec fn metadata_set_model() -> SetModel {
    SetModel {
        adapter: "chain_spec"@,
        methods: seq![
            DeclModel { name: "chainSpec_v1_chainName"@, handler: 1, classification: Classification::Safe },
            DeclModel { name: "chainSpec_v1_genesisHash"@, handler: 2, classification: Classification::Safe },
            DeclModel { name: "chainSpec_v1_properties"@, handler: 3, classification: Classification::Safe },
        ],
    }
}

impl MetadataAdapter {
    /// Wire the adapter from values already read out of the chain
    /// specification and the state reader.
    pub fn new(chain_name: String, genesis_hash: u64, properties: String) -> (a: MetadataAdapter)
        ensures
            a.chain_name == chain_name,
            a.genesis_hash == genesis_hash,
            a.properties == properties,
    {
        MetadataAdapter { chain_name, genesis_hash, properties }
    }

    /// The adapter's declared method set.
    pub fn methods(&self) -> (s: MethodSet)
        ensures
            s@ == metadata_set_model(),
    {
        let mut v: Vec<MethodDecl> = Vec::new();
        v.push(decl("chainSpec_v1_chainName", 1, Classification::Safe));
        v.push(decl("chainSpec_v1_genesisHash", 2, Classification::Safe));
        v.push(decl("chainSpec_v1_properties", 3, Classification::Safe));
        let s = MethodSet { adapter: "chain_spec".to_owned(), methods: v };
        proof {
            assert(s@.methods =~= metadata_set_model().methods);
        }
        s
    }
}

/// Account/transaction adapter: nonce queries and dry-run submission.
pub struct TransactionAdapter {
    /// Shared state reader.
    pub client: StateReaderHandle,
    /// Shared transaction pool.
    pub pool: TxPoolHandle,
    /// Policy flag the wrapped collaborator also receives.
    pub deny_unsafe: DenyUnsafe,
}

/// Method set declared by the transaction adapter.
pub open spec fn transaction_set_model() -> SetModel {
    SetModel {
        adapter: "system"@,
        methods: seq![
            DeclModel { name: "system_accountNextIndex"@, handler: 10, classification: Classification::Safe },
            DeclModel { name: "system_dryRun"@, handler: 11, classification: Classification::Unsafe },
        ],
    }
}

impl TransactionAdapter {
    /// Wire the adapter from its slice of the resource bundle.
    pub fn new(client: StateReaderHandle, pool: TxPoolHandle, deny_unsafe: DenyUnsafe) -> (a:
        TransactionAdapter)
        ensures
            a.client == client,
            a.pool == pool,
            a.deny_unsafe == deny_unsafe,
    {
        TransactionAdapter { client, pool, deny_unsafe }
    }

    /// The adapter's declared method set.
    pub fn methods(&self) -> (s: MethodSet)
        ensures
            s@ == transaction_set_model(),
    {
        let mut v: Vec<MethodDecl> = Vec::new();
        v.push(decl("system_accountNextIndex", 10, Classification::Safe));
        v.push(decl("system_dryRun", 11, Classification::Unsafe));
        let s = MethodSet { adapter: "system".to_owned(), methods: v };
        proof {
            assert(s@.methods =~= transaction_set_model().methods);
        }
        s
    }
}

/// Historical-state adapter over the merkle-mountain-range utilities; needs
/// the backend's offchain storage, whose absence is a recoverable
/// construction error caught before this adapter is built.
pub struct HistoricalStateAdapter {
    /// Shared state reader.
    pub client: StateReaderHandle,
    /// The offchain storage the backend provided.
    pub offchain: OffchainStorageHandle,
}

/// Method set declared by the historical-state adapter.
pub open spec fn historical_set_model() -> SetModel {
    SetModel {
        adapter: "mmr"@,
        methods: seq![
            DeclModel { name: "mmr_root"@, handler: 20, classification: Classification::Safe },
            DeclModel { name: "mmr_generateProof"@, handler: 21, classification: Classification::Safe },
            DeclModel { name: "mmr_verifyProof"@, handler: 22, classification: Classification::Safe },
        ],
    }
}

impl HistoricalStateAdapter {
    /// Wire the adapter from its slice of the resource bundle.
    pub fn new(client: StateReaderHandle, offchain: OffchainStorageHandle) -> (a:
        HistoricalStateAdapter)
        ensures
            a.client == client,
            a.offchain == offchain,
    {
        HistoricalStateAdapter { client, offchain }
    }

    /// The adapter's declared method set.
    pub fn methods(&self) -> (s: MethodSet)
        ensures
            s@ == historical_set_model(),
    {
        let mut v: Vec<MethodDecl> = Vec::new();
        v.push(decl("mmr_root", 20, Classification::Safe));
        v.push(decl("mmr_generateProof", 21, Classification::Safe));
        v.push(decl("mmr_verifyProof", 22, Classification::Safe));
        let s = MethodSet { adapter: "mmr".to_owned(), methods: v };
        proof {
            assert(s@.methods =~= historical_set_model().methods);
        }
        s
    }
}

/// Fee-estimation adapter.
pub struct PaymentAdapter {
    /// Shared state reader.
    pub client: StateReaderHandle,
}

/// Method set declared by the fee-estimation adapter.
pub open spec fn payment_set_model() -> SetModel {
    SetModel {
        adapter: "transaction_payment"@,
        methods: seq![
            DeclModel { name: "payment_queryInfo"@, handler: 30, classification: Classification::Safe },
            DeclModel { name: "payment_queryFeeDetails"@, handler: 31, classification: Classification::Safe },
        ],
    }
}

impl PaymentAdapter {
    /// Wire the adapter from its slice of the resource bundle.
    pub fn new(client: StateReaderHandle) -> (a: PaymentAdapter)
        ensures
            a.client == client,
    {
        PaymentAdapter { client }
    }

    /// The adapter's declared method set.
    pub fn methods(&self) -> (s: MethodSet)
        ensures
            s@ == payment_set_model(),
    {
        let mut v: Vec<MethodDecl> = Vec::new();
        v.push(decl("payment_queryInfo", 30, Classification::Safe));
        v.push(decl("payment_queryFeeDetails", 31, Classification::Safe));
        let s = MethodSet { adapter: "transaction_payment".to_owned(), methods: v };
        proof {
            assert(s@.methods =~= payment_set_model().methods);
        }
        s
    }
}

/// Consensus adapter: epoch/slot queries against the running worker.  It
/// consumes the chain-selection strategy, so only this adapter can use it.
pub struct ConsensusAdapter {
    /// Shared state reader.
    pub client: StateReaderHandle,
    /// Handle to the already-running consensus worker.
    pub worker: ConsensusWorkerHandle,
    /// Shared keystore.
    pub keystore: KeystoreHandle,
    /// The chain-selection strategy, consumed by this adapter alone.
    pub select_chain: SelectChainHandle,
    /// Policy flag the wrapped collaborator also receives.
    pub deny_unsafe: DenyUnsafe,
}

/// Method set declared by the consensus adapter.  Epoch authorship reveals
/// key-bearing information, so it is classified `Unsafe`.
pub open spec fn consensus_set_model() -> SetModel {
    SetModel {
        adapter: "babe"@,
        methods: seq![
            DeclModel { name: "babe_epochAuthorship"@, handler: 40, classification: Classification::Unsafe },
        ],
    }
}

impl ConsensusAdapter {
    /// Wire the adapter from its slice of the resource bundle plus the
    /// consensus-specific dependencies.
    pub fn new(
        client: StateReaderHandle,
        worker: ConsensusWorkerHandle,
        keystore: KeystoreHandle,
        select_chain: SelectChainHandle,
        deny_unsafe: DenyUnsafe,
    ) -> (a: ConsensusAdapter)
        ensures
            a.client == client,
            a.worker == worker,
            a.keystore == keystore,
            a.select_chain == select_chain,
            a.deny_unsafe == deny_unsafe,
    {
        ConsensusAdapter { client, worker, keystore, select_chain, deny_unsafe }
    }

    /// The adapter's declared method set.
    pub fn methods(&self) -> (s: MethodSet)
        ensures
            s@ == consensus_set_model(),
    {
        let mut v: Vec<MethodDecl> = Vec::new();
        v.push(decl("babe_epochAuthorship", 40, Classification::Unsafe));
        let s = MethodSet { adapter: "babe".to_owned(), methods: v };
        proof {
            assert(s@.methods =~= consensus_set_model().methods);
        }
        s
    }
}

/// Finality adapter: round state, finality proofs and the justification
/// subscription stream.
pub struct FinalityAdapter {
    /// Executor for the subscription manager, passed through unmodified.
    pub subscription_executor: SubscriptionExecutorHandle,
    /// Shared authority set, the same handle the sync-state adapter sees.
    pub authority_set: AuthoritySetHandle,
    /// Voting round info.
    pub voter_state: VoterStateHandle,
    /// Justification notification stream.
    pub justification_stream: JustificationStreamHandle,
    /// Finality proof provider.
    pub finality_provider: FinalityProofProviderHandle,
}

/// Method set declared by the finality adapter.
pub open spec fn finality_set_model() -> SetModel {
    SetModel {
        adapter: "grandpa"@,
        methods: seq![
            DeclModel { name: "grandpa_roundState"@, handler: 50, classification: Classification::Safe },
            DeclModel { name: "grandpa_proveFinality"@, handler: 51, classification: Classification::Safe },
            DeclModel { name: "grandpa_subscribeJustifications"@, handler: 52, classification: Classification::Safe },
        ],
    }
}

impl FinalityAdapter {
    /// Wire the adapter from the finality-specific dependencies.
    pub fn new(
        subscription_executor: SubscriptionExecutorHandle,
        authority_set: AuthoritySetHandle,
        voter_state: VoterStateHandle,
        justification_stream: JustificationStreamHandle,
        finality_provider: FinalityProofProviderHandle,
    ) -> (a: FinalityAdapter)
        ensures
            a.subscription_executor == subscription_executor,
            a.authority_set == authority_set,
            a.voter_state == voter_state,
            a.justification_stream == justification_stream,
            a.finality_provider == finality_provider,
    {
        FinalityAdapter {
            subscription_executor,
            authority_set,
            voter_state,
            justification_stream,
            finality_provider,
        }
    }

    /// The adapter's declared method set.
    pub fn methods(&self) -> (s: MethodSet)
        ensures
            s@ == finality_set_model(),
    {
        let mut v: Vec<MethodDecl> = Vec::new();
        v.push(decl("grandpa_roundState", 50, Classification::Safe));
        v.push(decl("grandpa_proveFinality", 51, Classification::Safe));
        v.push(decl("grandpa_subscribeJustifications", 52, Classification::Safe));
        let s = MethodSet { adapter: "grandpa".to_owned(), methods: v };
        proof {
            assert(s@.methods =~= finality_set_model().methods);
        }
        s
    }
}

/// Sync-state adapter: produces a light-sync specification.  Built after
/// the finality adapter, because it must see the same shared authority-set
/// handle; it consumes the chain specification.
pub struct SyncStateAdapter {
    /// The chain specification, consumed by this adapter.
    pub chain_spec: ChainSpecHandle,
    /// Shared state reader.
    pub client: StateReaderHandle,
    /// The shared authority-set handle, the same the finality adapter holds.
    pub authority_set: AuthoritySetHandle,
    /// Shared consensus worker handle.
    pub worker: ConsensusWorkerHandle,
}

/// Method set declared by the sync-state adapter.
pub open spec fn sync_state_set_model() -> SetModel {
    SetModel {
        adapter: "sync_state"@,
        methods: seq![
            DeclModel { name: "sync_state_genSyncSpec"@, handler: 60, classification: Classification::Safe },
        ],
    }
}

impl SyncStateAdapter {
    /// Wire the adapter; takes the chain specification by value.
    pub fn new(
        chain_spec: ChainSpecHandle,
        client: StateReaderHandle,
        authority_set: AuthoritySetHandle,
        worker: ConsensusWorkerHandle,
    ) -> (a: SyncStateAdapter)
        ensures
            a.chain_spec == chain_spec,
            a.client == client,
            a.authority_set == authority_set,
            a.worker == worker,
    {
        SyncStateAdapter { chain_spec, client, authority_set, worker }
    }

    /// The adapter's declared method set.
    pub fn methods(&self) -> (s: MethodSet)
        ensures
            s@ == sync_state_set_model(),
    {
        let mut v: Vec<MethodDecl> = Vec::new();
        v.push(decl("sync_state_genSyncSpec", 60, Classification::Safe));
        let s = MethodSet { adapter: "sync_state".to_owned(), methods: v };
        proof {
            assert(s@.methods =~= sync_state_set_model().methods);
        }
        s
    }
}

/// State-trie migration adapter.
pub struct MigrationAdapter {
    /// Shared state reader.
    pub client: StateReaderHandle,
    /// Shared backend handle.
    pub backend: BackendHandle,
    /// Policy flag the wrapped collaborator also receives.
    pub deny_unsafe: DenyUnsafe,
}

/// Method set declared by the migration adapter.  Migration status walks
/// the whole trie, so it is classified `Unsafe`.
pub open spec fn migration_set_model() -> SetModel {
    SetModel {
        adapter: "state_migration"@,
        methods: seq![
            DeclModel { name: "state_trieMigrationStatus"@, handler: 70, classification: Classification::Unsafe },
        ],
    }
}

impl MigrationAdapter {
    /// Wire the adapter from its slice of the resource bundle.
    pub fn new(client: StateReaderHandle, backend: BackendHandle, deny_unsafe: DenyUnsafe) -> (a:
        MigrationAdapter)
        ensures
            a.client == client,
            a.backend == backend,
            a.deny_unsafe == deny_unsafe,
    {
        MigrationAdapter { client, backend, deny_unsafe }
    }

    /// The adapter's declared method set.
    pub fn methods(&self) -> (s: MethodSet)
        ensures
            s@ == migration_set_model(),
    {
        let mut v: Vec<MethodDecl> = Vec::new();
        v.push(decl("state_trieMigrationStatus", 70, Classification::Unsafe));
        let s = MethodSet { adapter: "state_migration".to_owned(), methods: v };
        proof {
            assert(s@.methods =~= migration_set_model().methods);
        }
        s
    }
}

/// Primary data-availability adapter: sampling and query methods, bounded
/// by the configured maximum request size.
pub struct DataAvailabilityAdapter {
    /// Shared state reader.
    pub client: StateReaderHandle,
    /// The maximum number of cells one request may ask for.
    pub max_cells_size: usize,
}

/// Method set declared by the primary data-availability adapter.
pub open spec fn data_availability_set_model() -> SetModel {
    SetModel {
        adapter: "kate"@,
        methods: seq![
            DeclModel { name: "kate_queryRows"@, handler: 80, classification: Classification::Safe },
            DeclModel { name: "kate_queryProof"@, handler: 81, classification: Classification::Safe },
            DeclModel { name: "kate_blockLength"@, handler: 82, classification: Classification::Safe },
            DeclModel { name: "kate_queryDataProof"@, handler: 83, classification: Classification::Safe },
        ],
    }
}

impl DataAvailabilityAdapter {
    /// Wire the adapter with its configured request-size bound.
    pub fn new(client: StateReaderHandle, max_cells_size: usize) -> (a: DataAvailabilityAdapter)
        ensures
            a.client == client,
            a.max_cells_size == max_cells_size,
    {
        DataAvailabilityAdapter { client, max_cells_size }
    }

    /// The adapter's declared method set.
    pub fn methods(&self) -> (s: MethodSet)
        ensures
            s@ == data_availability_set_model(),
    {
        let mut v: Vec<MethodDecl> = Vec::new();
        v.push(decl("kate_queryRows", 80, Classification::Safe));
        v.push(decl("kate_queryProof", 81, Classification::Safe));
        v.push(decl("kate_blockLength", 82, Classification::Safe));
        v.push(decl("kate_queryDataProof", 83, Classification::Safe));
        let s = MethodSet { adapter: "kate".to_owned(), methods: v };
        proof {
            assert(s@.methods =~= data_availability_set_model().methods);
        }
        s
    }
}

/// Metrics variant of the data-availability adapter.  Independent of the
/// primary variant and built against the same request-size bound.
pub struct DataAvailabilityMetricsAdapter {
    /// Shared state reader.
    pub client: StateReaderHandle,
    /// The maximum number of cells one request may ask for; the same bound
    /// the primary variant uses.
    pub max_cells_size: usize,
}

/// Method set declared by the metrics variant.
pub open spec fn data_availability_metrics_set_model() -> SetModel {
    SetModel {
        adapter: "kate_metrics"@,
        methods: seq![
            DeclModel { name: "kate_queryRowsMetrics"@, handler: 90, classification: Classification::Safe },
            DeclModel { name: "kate_queryProofMetrics"@, handler: 91, classification: Classification::Safe },
        ],
    }
}

impl DataAvailabilityMetricsAdapter {
    /// Wire the metrics variant with its configured request-size bound.
    pub fn new(client: StateReaderHandle, max_cells_size: usize) -> (a:
        DataAvailabilityMetricsAdapter)
        ensures
            a.client == client,
            a.max_cells_size == max_cells_size,
    {
        DataAvailabilityMetricsAdapter { client, max_cells_size }
    }

    /// The adapter's declared method set.
    pub fn methods(&self) -> (s: MethodSet)
        ensures
            s@ == data_availability_metrics_set_model(),
    {
        let mut v: Vec<MethodDecl> = Vec::new();
        v.push(decl("kate_queryRowsMetrics", 90, Classification::Safe));
        v.push(decl("kate_queryProofMetrics", 91, Classification::Safe));
        let s = MethodSet { adapter: "kate_metrics".to_owned(), methods: v };
        proof {
            assert(s@.methods =~= data_availability_metrics_set_model().methods);
        }
        s
    }
}

} // verus!
