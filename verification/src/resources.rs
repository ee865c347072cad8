//! The shared, long-lived node resources the composition wires into
//! adapters, modelled as plain-value handles.
//!
//! Each handle stands for one already-initialized collaborator and carries
//! exactly what this layer reads of it (a resolvable genesis hash, the chain
//! name, the presence of offchain storage); everything else about the
//! collaborator is opaque and out of scope.  Ownership discipline is
//! enforced at the type level: handles that are shared between adapters are
//! `Clone`, handles that may be consumed only once are move-only.

use vstd::prelude::*;
use crate::policy::DenyUnsafe;

verus! {

/// Shared read-only handle to the node's state reader / client.  Fans out
/// to many adapters, so it is `Clone`; the collaborator behind it manages
/// its own concurrency.
#[derive(Clone, Copy, PartialEq, Eq, Structural, Debug)]
pub struct StateReaderHandle {
    /// The genesis block hash, if it is resolvable.  Genesis must exist by
    /// node-startup time; composition treats its absence as fatal.
    pub genesis_hash: Option<u64>,
    /// Opaque identity of the underlying client.
    pub token: u64,
}

/// Shared handle to the transaction pool.
#[derive(Clone, Copy, PartialEq, Eq, Structural, Debug)]
pub struct TxPoolHandle {
    /// Opaque identity of the underlying pool.
    pub token: u64,
}

/// Shared handle to the keystore.  Security-sensitive: no construction
/// error carries anything read from it.
#[derive(Clone, Copy, PartialEq, Eq, Structural, Debug)]
pub struct KeystoreHandle {
    /// Opaque identity of the underlying keystore.
    pub token: u64,
}

/// The chain specification, owned by the bundle and consumed exactly once
/// (the sync-state adapter takes it); its name and properties are read
/// before it moves.  Deliberately not `Clone`.
pub struct ChainSpecHandle {
    /// Human-readable chain name.
    pub chain_name: String,
    /// Arbitrary chain properties, passed through opaquely.
    pub properties: String,
    /// Opaque identity of the underlying specification.
    pub token: u64,
}

/// Handle to auxiliary offchain storage, when the backend provides one.
#[derive(Clone, Copy, PartialEq, Eq, Structural, Debug)]
pub struct OffchainStorageHandle {
    /// Opaque identity of the underlying storage.
    pub token: u64,
}

/// Shared handle to the backend / storage collaborator.
#[derive(Clone, Copy, PartialEq, Eq, Structural, Debug)]
pub struct BackendHandle {
    /// The optional offchain storage the backend may provide.  Its absence
    /// is a recoverable construction error for adapters that require it.
    pub offchain_storage: Option<OffchainStorageHandle>,
    /// Opaque identity of the underlying backend.
    pub token: u64,
}

/// The active chain-selection strategy.  Only one adapter may use it, so
/// the handle is move-only: handing it to two adapters is a compile-time
/// error, not a runtime fault.
#[derive(PartialEq, Eq, Structural, Debug)]
pub struct SelectChainHandle {
    /// Opaque identity of the underlying strategy.
    pub token: u64,
}

/// Shared handle to the running consensus worker.
#[derive(Clone, Copy, PartialEq, Eq, Structural, Debug)]
pub struct ConsensusWorkerHandle {
    /// Opaque identity of the underlying worker.
    pub token: u64,
}

/// Shared handle to the finality voter state.
#[derive(Clone, Copy, PartialEq, Eq, Structural, Debug)]
pub struct VoterStateHandle {
    /// Opaque identity of the underlying voter state.
    pub token: u64,
}

/// Shared handle to the finality authority set.  Both the finality adapter
/// and the sync-state adapter must see this one shared handle, never
/// independent copies of the underlying resource.
#[derive(Clone, Copy, PartialEq, Eq, Structural, Debug)]
pub struct AuthoritySetHandle {
    /// Opaque identity of the underlying authority set.
    pub token: u64,
}

/// Handle to the stream of finality justification notifications.
#[derive(Clone, Copy, PartialEq, Eq, Structural, Debug)]
pub struct JustificationStreamHandle {
    /// Opaque identity of the underlying stream.
    pub token: u64,
}

/// Executor / cancellation token the transport supplies for streaming
/// methods; passed through unmodified to the adapter that creates streams.
#[derive(Clone, Copy, PartialEq, Eq, Structural, Debug)]
pub struct SubscriptionExecutorHandle {
    /// Opaque identity of the underlying executor.
    pub token: u64,
}

/// Shared handle to the finality proof provider.
#[derive(Clone, Copy, PartialEq, Eq, Structural, Debug)]
pub struct FinalityProofProviderHandle {
    /// Opaque identity of the underlying provider.
    pub token: u64,
}

/// Extra dependencies of the consensus adapter.
pub struct BabeDeps {
    /// A handle to the running consensus worker for issuing requests.
    pub babe_worker_handle: ConsensusWorkerHandle,
    /// The keystore that manages the keys of the node.
    pub keystore: KeystoreHandle,
}

/// Extra dependencies of the finality adapter.
pub struct GrandpaDeps {
    /// Voting round info.
    pub shared_voter_state: VoterStateHandle,
    /// Authority set info, shared with the sync-state adapter.
    pub shared_authority_set: AuthoritySetHandle,
    /// Receives notifications about justification events.
    pub justification_stream: JustificationStreamHandle,
    /// Executor to drive the subscription manager in the finality adapter.
    pub subscription_executor: SubscriptionExecutorHandle,
    /// Finality proof provider.
    pub finality_provider: FinalityProofProviderHandle,
}

/// Full client dependencies: the resource bundle plus the feature toggles
/// and the safety policy, everything composition needs.
pub struct FullDeps {
    /// The client instance to use.
    pub client: StateReaderHandle,
    /// Transaction pool instance.
    pub pool: TxPoolHandle,
    /// The chain-selection strategy; consumed once.
    pub select_chain: SelectChainHandle,
    /// The chain specification; consumed once.
    pub chain_spec: ChainSpecHandle,
    /// Whether to deny unsafe calls.
    pub deny_unsafe: DenyUnsafe,
    /// Consensus-specific dependencies.
    pub babe: BabeDeps,
    /// Finality-specific dependencies.
    pub grandpa: GrandpaDeps,
    /// The maximum number of cells one data-availability request may ask
    /// for; shared by the primary and the metrics variant.
    pub kate_max_cells_size: usize,
    /// Build the data-availability adapter.
    pub kate_rpc_enabled: bool,
    /// Build the metrics variant of the data-availability adapter.
    pub kate_rpc_metrics_enabled: bool,
}

/// Runtime feature toggles for the optional adapter family.  The toggles
/// are independent: either variant may be enabled without the other, and
/// both at once is legitimate.
#[derive(Clone, Copy, PartialEq, Eq, Structural, Debug)]
pub struct FeatureGate {
    /// The primary data-availability variant was requested.
    pub data_availability: bool,
    /// The metrics variant was requested.
    pub data_availability_metrics: bool,
}

/// The primary data-availability adapter is built when either toggle of the
/// family is on.
pub open spec fn spec_builds_primary(g: FeatureGate) -> bool {
    g.data_availability || g.data_availability_metrics
}

/// The metrics variant is built exactly when its own toggle is on.
pub open spec fn spec_builds_metrics(g: FeatureGate) -> bool {
    g.data_availability_metrics
}

impl FeatureGate {
    /// Whether to construct the primary data-availability adapter.
    pub fn builds_primary(&self) -> (b: bool)
        ensures
            b == spec_builds_primary(*self),
    {
        self.data_availability || self.data_availability_metrics
    }

    /// Whether to construct the metrics variant.
    pub fn builds_metrics(&self) -> (b: bool)
        ensures
            b == spec_builds_metrics(*self),
    {
        self.data_availability_metrics
    }

    /// Whether any variant of the family is enabled at all; when this is
    /// false the family's methods simply do not appear in the registry.
    pub fn family_enabled(&self) -> (b: bool)
        ensures
            b == (spec_builds_primary(*self) || spec_builds_metrics(*self)),
    {
        self.data_availability || self.data_availability_metrics
    }
}

} // verus!
