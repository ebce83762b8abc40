use node_rpc::dispatcher::{Dispatcher, HandlerInstance, HandlerKind};
use node_rpc::handlers::{Signer, StorageOverride, StorageSchema};
use node_rpc::{
    create_full, BackendHandle, ClientHandle, DenyUnsafe, FullDeps, NetworkHandle,
    PendingTransactionsHandle, PoolHandle,
};

fn sample_deps(enable_dev_signer: bool) -> FullDeps {
    FullDeps {
        client: ClientHandle { id: 11 },
        pool: PoolHandle { id: 22 },
        deny_unsafe: DenyUnsafe::Yes,
        is_authority: false,
        enable_dev_signer,
        network: NetworkHandle { id: 33 },
        pending_transactions: PendingTransactionsHandle { id: 44 },
        backend: BackendHandle { id: 55 },
        max_past_logs: 1024,
    }
}

fn all_names(io: &Dispatcher) -> Vec<String> {
    let mut names = Vec::new();
    for d in &io.delegates {
        for m in &d.methods {
            names.push(m.clone());
        }
    }
    names
}

#[test]
fn four_delegates_in_registration_order() {
    let io = create_full(sample_deps(false));
    assert_eq!(io.delegates.len(), 4);
    let kinds: Vec<HandlerKind> = io.delegates.iter().map(|d| d.handler.kind_of()).collect();
    assert_eq!(
        kinds,
        vec![
            HandlerKind::System,
            HandlerKind::Payment,
            HandlerKind::Contracts,
            HandlerKind::Eth,
        ]
    );
}

#[test]
fn handlers_close_over_their_dependency_subsets() {
    let deps = sample_deps(false);
    let io = create_full(deps);
    match &io.delegates[0].handler {
        HandlerInstance::System(h) => {
            assert_eq!(h.client, deps.client);
            assert_eq!(h.pool, deps.pool);
            assert_eq!(h.deny_unsafe, deps.deny_unsafe);
        }
        _ => panic!("first delegate is not the system handler"),
    }
    match &io.delegates[1].handler {
        HandlerInstance::Payment(h) => assert_eq!(h.client, deps.client),
        _ => panic!("second delegate is not the fee-estimation handler"),
    }
    match &io.delegates[2].handler {
        HandlerInstance::Contracts(h) => assert_eq!(h.client, deps.client),
        _ => panic!("third delegate is not the contract-call handler"),
    }
    match &io.delegates[3].handler {
        HandlerInstance::Eth(h) => {
            assert_eq!(h.client, deps.client);
            assert_eq!(h.pool, deps.pool);
            assert_eq!(h.network, deps.network);
            assert_eq!(h.pending_transactions, deps.pending_transactions);
            assert_eq!(h.backend, deps.backend);
            assert_eq!(h.is_authority, deps.is_authority);
            assert_eq!(h.max_past_logs, deps.max_past_logs);
        }
        _ => panic!("fourth delegate is not the Ethereum handler"),
    }
}

#[test]
fn dev_signer_flag_populates_signer_list() {
    for flag in [false, true] {
        let io = create_full(sample_deps(flag));
        match &io.delegates[3].handler {
            HandlerInstance::Eth(h) => {
                if flag {
                    assert_eq!(h.signers, vec![Signer::Dev]);
                } else {
                    assert_eq!(h.signers, Vec::<Signer>::new());
                }
            }
            _ => panic!("fourth delegate is not the Ethereum handler"),
        }
    }
}

#[test]
fn override_table_has_one_v1_entry_and_a_fallback() {
    for flag in [false, true] {
        let deps = sample_deps(flag);
        let io = create_full(deps);
        match &io.delegates[3].handler {
            HandlerInstance::Eth(h) => {
                assert_eq!(h.overrides.schemas.len(), 1);
                assert_eq!(h.overrides.schemas[0].0, StorageSchema::V1);
                assert_eq!(
                    h.overrides.schemas[0].1,
                    StorageOverride::SchemaV1 { client: deps.client }
                );
                assert_eq!(
                    h.overrides.fallback,
                    StorageOverride::RuntimeApi { client: deps.client }
                );
            }
            _ => panic!("fourth delegate is not the Ethereum handler"),
        }
    }
}

#[test]
fn assembly_is_structurally_idempotent() {
    for flag in [false, true] {
        let io1 = create_full(sample_deps(flag));
        let io2 = create_full(sample_deps(flag));
        assert_eq!(all_names(&io1), all_names(&io2));
    }
}

#[test]
fn method_names_do_not_collide_across_groups() {
    for flag in [false, true] {
        let io = create_full(sample_deps(flag));
        let names = all_names(&io);
        let per_group_total: usize = io.delegates.iter().map(|d| d.methods.len()).sum();
        let mut unioned = names.clone();
        unioned.sort();
        unioned.dedup();
        assert_eq!(unioned.len(), per_group_total);
        assert_eq!(names.len(), if flag { 18 } else { 16 });
    }
}
