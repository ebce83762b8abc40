use node_rpc::dispatcher::{Dispatcher, HandlerKind, RouteResult};
use node_rpc::handlers::{OverrideHandle, StorageOverride, StorageSchema};
use node_rpc::{
    create_full, BackendHandle, ClientHandle, DenyUnsafe, FullDeps, NetworkHandle,
    PendingTransactionsHandle, PoolHandle,
};

fn sample_deps(enable_dev_signer: bool) -> FullDeps {
    FullDeps {
        client: ClientHandle { id: 7 },
        pool: PoolHandle { id: 8 },
        deny_unsafe: DenyUnsafe::No,
        is_authority: true,
        enable_dev_signer,
        network: NetworkHandle { id: 9 },
        pending_transactions: PendingTransactionsHandle { id: 10 },
        backend: BackendHandle { id: 12 },
        max_past_logs: 10_000,
    }
}

#[test]
fn each_group_answers_its_own_methods() {
    let io = create_full(sample_deps(false));
    let cases = [
        ("system_accountNextIndex", HandlerKind::System),
        ("account_nextIndex", HandlerKind::System),
        ("payment_queryInfo", HandlerKind::Payment),
        ("payment_queryFeeDetails", HandlerKind::Payment),
        ("contracts_call", HandlerKind::Contracts),
        ("contracts_getStorage", HandlerKind::Contracts),
        ("contracts_rentProjection", HandlerKind::Contracts),
        ("eth_blockNumber", HandlerKind::Eth),
        ("eth_getBalance", HandlerKind::Eth),
        ("eth_sendRawTransaction", HandlerKind::Eth),
        ("eth_getLogs", HandlerKind::Eth),
        ("net_version", HandlerKind::Eth),
        ("web3_clientVersion", HandlerKind::Eth),
    ];
    for (name, kind) in cases {
        assert_eq!(io.lookup(&name.to_string()), RouteResult::Routed(kind));
    }
}

#[test]
fn unknown_methods_are_not_found() {
    let io = create_full(sample_deps(true));
    assert_eq!(io.lookup(&"chain_getBlock".to_string()), RouteResult::MethodNotFound);
    assert_eq!(io.lookup(&"eth_".to_string()), RouteResult::MethodNotFound);
    assert_eq!(io.lookup(&"".to_string()), RouteResult::MethodNotFound);
}

#[test]
fn signing_methods_need_the_dev_signer() {
    let without = create_full(sample_deps(false));
    assert_eq!(without.lookup(&"eth_sign".to_string()), RouteResult::MethodNotFound);
    assert_eq!(
        without.lookup(&"eth_sendTransaction".to_string()),
        RouteResult::MethodNotFound
    );

    let with = create_full(sample_deps(true));
    assert_eq!(
        with.lookup(&"eth_sign".to_string()),
        RouteResult::Routed(HandlerKind::Eth)
    );
    assert_eq!(
        with.lookup(&"eth_sendTransaction".to_string()),
        RouteResult::Routed(HandlerKind::Eth)
    );
}

#[test]
fn empty_dispatcher_serves_nothing() {
    let io = Dispatcher::new();
    assert_eq!(io.lookup(&"eth_blockNumber".to_string()), RouteResult::MethodNotFound);
}

#[test]
fn override_lookup_prefers_the_explicit_entry() {
    let client = ClientHandle { id: 3 };
    let table = OverrideHandle::for_client(client);
    assert_eq!(
        table.override_for(StorageSchema::V1),
        StorageOverride::SchemaV1 { client }
    );
    assert_eq!(
        table.override_for(StorageSchema::Undefined),
        StorageOverride::RuntimeApi { client }
    );
}

#[test]
fn override_lookup_falls_back_on_an_empty_table() {
    let client = ClientHandle { id: 4 };
    let table = OverrideHandle {
        schemas: Vec::new(),
        fallback: StorageOverride::RuntimeApi { client },
    };
    assert_eq!(
        table.override_for(StorageSchema::V1),
        StorageOverride::RuntimeApi { client }
    );
    assert_eq!(
        table.override_for(StorageSchema::Undefined),
        StorageOverride::RuntimeApi { client }
    );
}
