use node_rpc::compose::{compose, create_full, CompositionError};
use node_rpc::methods::{MethodDecl, MethodSet};
use node_rpc::policy::{Classification, DenyUnsafe};
use node_rpc::registry::{DispatchOutcome, OpenRegistry};
use node_rpc::resources::{
    AuthoritySetHandle, BabeDeps, BackendHandle, ChainSpecHandle, ConsensusWorkerHandle,
    FinalityProofProviderHandle, FullDeps, GrandpaDeps, JustificationStreamHandle, KeystoreHandle,
    OffchainStorageHandle, SelectChainHandle, StateReaderHandle, SubscriptionExecutorHandle,
    TxPoolHandle, VoterStateHandle,
};

fn full_deps(
    deny_unsafe: DenyUnsafe,
    kate_rpc_enabled: bool,
    kate_rpc_metrics_enabled: bool,
) -> FullDeps {
    FullDeps {
        client: StateReaderHandle { genesis_hash: Some(7), token: 1 },
        pool: TxPoolHandle { token: 2 },
        select_chain: SelectChainHandle { token: 3 },
        chain_spec: ChainSpecHandle {
            chain_name: "avail-devnet".to_owned(),
            properties: "{}".to_owned(),
            token: 4,
        },
        deny_unsafe,
        babe: BabeDeps {
            babe_worker_handle: ConsensusWorkerHandle { token: 5 },
            keystore: KeystoreHandle { token: 6 },
        },
        grandpa: GrandpaDeps {
            shared_voter_state: VoterStateHandle { token: 7 },
            shared_authority_set: AuthoritySetHandle { token: 8 },
            justification_stream: JustificationStreamHandle { token: 9 },
            subscription_executor: SubscriptionExecutorHandle { token: 10 },
            finality_provider: FinalityProofProviderHandle { token: 11 },
        },
        kate_max_cells_size: 64,
        kate_rpc_enabled,
        kate_rpc_metrics_enabled,
    }
}

fn backend_with_offchain() -> BackendHandle {
    BackendHandle { offchain_storage: Some(OffchainStorageHandle { token: 12 }), token: 13 }
}

fn set(adapter: &str, names: &[(&str, u64, Classification)]) -> MethodSet {
    MethodSet {
        adapter: adapter.to_owned(),
        methods: names
            .iter()
            .map(|(n, h, c)| MethodDecl { name: (*n).to_owned(), handler: *h, classification: *c })
            .collect(),
    }
}

#[test]
fn compose_full_node_succeeds() {
    let reg = create_full(full_deps(DenyUnsafe::No, true, true), backend_with_offchain())
        .expect("composition of the full node surface");
    // 16 base methods + 2 metrics + 4 primary data-availability methods
    assert_eq!(reg.len(), 22);
    assert!(reg.contains("system_accountNextIndex"));
    assert!(reg.contains("grandpa_roundState"));
    assert!(reg.contains("kate_queryRows"));
    assert!(reg.contains("kate_queryRowsMetrics"));
}

#[test]
fn safe_methods_are_routed() {
    let reg = create_full(full_deps(DenyUnsafe::Yes, false, false), backend_with_offchain())
        .expect("composition");
    match reg.dispatch("payment_queryInfo") {
        DispatchOutcome::Routed(h) => assert_eq!(h, 30),
        other => panic!("expected a routed call, got {:?}", other),
    }
}

#[test]
fn deny_unsafe_blankets_every_adapter() {
    let reg = create_full(full_deps(DenyUnsafe::Yes, true, true), backend_with_offchain())
        .expect("composition");
    // methods of three different adapters, all classified unsafe
    assert_eq!(reg.dispatch("system_dryRun"), DispatchOutcome::PolicyDenied);
    assert_eq!(reg.dispatch("babe_epochAuthorship"), DispatchOutcome::PolicyDenied);
    assert_eq!(reg.dispatch("state_trieMigrationStatus"), DispatchOutcome::PolicyDenied);
    // the same methods are served once the policy allows them
    let open = create_full(full_deps(DenyUnsafe::No, true, true), backend_with_offchain())
        .expect("composition");
    assert_eq!(open.dispatch("system_dryRun"), DispatchOutcome::Routed(11));
    assert_eq!(open.dispatch("babe_epochAuthorship"), DispatchOutcome::Routed(40));
}

#[test]
fn disabled_family_is_absent() {
    // data-availability disabled, finality enabled (always built)
    let reg = create_full(full_deps(DenyUnsafe::No, false, false), backend_with_offchain())
        .expect("composition");
    assert!(reg.contains("grandpa_roundState"));
    assert!(reg.contains("grandpa_proveFinality"));
    assert!(!reg.contains("kate_queryRows"));
    assert!(!reg.contains("kate_queryProof"));
    assert!(!reg.contains("kate_queryRowsMetrics"));
    // a gated-off name and a name that never existed are indistinguishable
    assert_eq!(reg.dispatch("kate_queryRows"), DispatchOutcome::NotFound);
    assert_eq!(reg.dispatch("da.query"), DispatchOutcome::NotFound);
    assert_eq!(reg.len(), 16);
}

#[test]
fn metrics_toggle_builds_primary_variant_too() {
    let reg = create_full(full_deps(DenyUnsafe::No, false, true), backend_with_offchain())
        .expect("composition");
    assert!(reg.contains("kate_queryRows"));
    assert!(reg.contains("kate_queryRowsMetrics"));
    assert_eq!(reg.len(), 22);
    let primary_only = create_full(full_deps(DenyUnsafe::No, true, false), backend_with_offchain())
        .expect("composition");
    assert!(primary_only.contains("kate_queryRows"));
    assert!(!primary_only.contains("kate_queryRowsMetrics"));
    assert_eq!(primary_only.len(), 20);
}

#[test]
fn both_variants_share_the_bound_without_colliding() {
    let gate = node_rpc::resources::FeatureGate {
        data_availability: true,
        data_availability_metrics: true,
    };
    let client = StateReaderHandle { genesis_hash: Some(7), token: 1 };
    let (primary, metrics) = node_rpc::compose::build_data_availability(&gate, &client, 64);
    let primary = primary.expect("primary variant");
    let metrics = metrics.expect("metrics variant");
    assert_eq!(primary.max_cells_size, 64);
    assert_eq!(metrics.max_cells_size, 64);
    let mut open = OpenRegistry::new();
    open.merge(&primary.methods()).expect("primary merges");
    open.merge(&metrics.methods()).expect("metrics merges cleanly beside the primary");
}

#[test]
fn missing_genesis_is_fatal() {
    let mut deps = full_deps(DenyUnsafe::No, true, false);
    deps.client.genesis_hash = None;
    match create_full(deps, backend_with_offchain()) {
        Err(CompositionError::MissingGenesis) => {},
        other => panic!("expected the missing-genesis error, got {:?}", other.is_ok()),
    }
}

#[test]
fn missing_offchain_storage_is_fatal() {
    let deps = full_deps(DenyUnsafe::No, true, false);
    let backend = BackendHandle { offchain_storage: None, token: 13 };
    match create_full(deps, backend) {
        Err(CompositionError::MissingOffchainStorage) => {},
        other => panic!("expected the missing-offchain error, got {:?}", other.is_ok()),
    }
}

#[test]
fn cross_adapter_collision_aborts_naming_both() {
    let a = set("alpha", &[("shared_name", 1, Classification::Safe)]);
    let b = set("beta", &[("beta_only", 2, Classification::Safe), ("shared_name", 3, Classification::Safe)]);
    match compose(vec![a, b], DenyUnsafe::No) {
        Err(c) => {
            assert_eq!(c.method, "shared_name");
            assert_eq!(c.first_adapter, "alpha");
            assert_eq!(c.second_adapter, "beta");
        },
        Ok(_) => panic!("a colliding composition must not produce a registry"),
    }
}

#[test]
fn collision_inside_one_adapter_aborts() {
    let a = set(
        "alpha",
        &[("twice", 1, Classification::Safe), ("twice", 2, Classification::Safe)],
    );
    match compose(vec![a], DenyUnsafe::No) {
        Err(c) => {
            assert_eq!(c.method, "twice");
            assert_eq!(c.first_adapter, "alpha");
            assert_eq!(c.second_adapter, "alpha");
        },
        Ok(_) => panic!("a colliding composition must not produce a registry"),
    }
}

#[test]
fn failed_merge_leaves_registry_unchanged() {
    let mut open = OpenRegistry::new();
    open.merge(&set("alpha", &[("m_one", 1, Classification::Safe)])).expect("first merge");
    let colliding = set("beta", &[("b_new", 2, Classification::Safe), ("m_one", 3, Classification::Safe)]);
    assert!(open.merge(&colliding).is_err());
    // the half-merged set left nothing behind
    let sealed = compose(
        vec![set("alpha", &[("m_one", 1, Classification::Safe)])],
        DenyUnsafe::No,
    )
    .expect("clean composition");
    assert_eq!(sealed.len(), 1);
    assert!(!sealed.contains("b_new"));
}

#[test]
fn composition_is_deterministic() {
    let once = create_full(full_deps(DenyUnsafe::Yes, true, true), backend_with_offchain())
        .expect("first composition");
    let twice = create_full(full_deps(DenyUnsafe::Yes, true, true), backend_with_offchain())
        .expect("second composition");
    assert_eq!(once.len(), twice.len());
    for name in [
        "chainSpec_v1_chainName",
        "system_accountNextIndex",
        "system_dryRun",
        "mmr_root",
        "payment_queryInfo",
        "babe_epochAuthorship",
        "grandpa_subscribeJustifications",
        "sync_state_genSyncSpec",
        "state_trieMigrationStatus",
        "kate_queryRows",
        "kate_queryRowsMetrics",
        "no_such_method",
    ] {
        assert_eq!(once.dispatch(name), twice.dispatch(name), "method {}", name);
    }
}

#[test]
fn colliding_composition_is_deterministic_too() {
    let build = || {
        vec![
            set("alpha", &[("shared_name", 1, Classification::Safe)]),
            set("beta", &[("shared_name", 2, Classification::Safe)]),
        ]
    };
    let first = compose(build(), DenyUnsafe::No).err().expect("collision");
    let second = compose(build(), DenyUnsafe::No).err().expect("collision");
    assert_eq!(first.method, second.method);
    assert_eq!(first.first_adapter, second.first_adapter);
    assert_eq!(first.second_adapter, second.second_adapter);
}

#[test]
fn dispatch_is_read_only() {
    let reg = create_full(full_deps(DenyUnsafe::No, true, false), backend_with_offchain())
        .expect("composition");
    // repeated dispatch against the sealed registry sees one immutable state
    let first = reg.dispatch("kate_queryProof");
    let second = reg.dispatch("kate_queryProof");
    assert_eq!(first, DispatchOutcome::Routed(81));
    assert_eq!(first, second);
    assert_eq!(reg.len(), 20);
}

#[test]
fn policy_admission_rules() {
    assert!(DenyUnsafe::No.admits(Classification::Safe));
    assert!(DenyUnsafe::No.admits(Classification::Unsafe));
    assert!(DenyUnsafe::Yes.admits(Classification::Safe));
    assert!(!DenyUnsafe::Yes.admits(Classification::Unsafe));
}
