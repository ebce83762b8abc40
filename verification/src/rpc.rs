//! The assembler: consumes the dependency bundle once and returns the
//! fully populated dispatcher.

use vstd::prelude::*;
use crate::dispatcher::Dispatcher;
use crate::dispatcher::HandlerInstance;
use crate::dispatcher::lemma_concat_no_dup_parts;
use crate::handles::BackendHandle;
use crate::handles::ClientHandle;
use crate::handles::DenyUnsafe;
use crate::handles::NetworkHandle;
use crate::handles::PendingTransactionsHandle;
use crate::handles::PoolHandle;
use crate::handles::TransactionConverter;
use crate::handlers::Contracts;
use crate::handlers::EthApi;
use crate::handlers::FullSystem;
use crate::handlers::OverrideHandle;
use crate::handlers::Signer;
use crate::handlers::StorageOverride;
use crate::handlers::StorageSchema;
use crate::handlers::TransactionPayment;
use crate::methods::all_method_names;
use crate::methods::contracts_method_names;
use crate::methods::eth_method_names;
use crate::methods::eth_signing_method_names;
use crate::methods::lemma_method_names_distinct;
use crate::methods::names_of;
use crate::methods::payment_method_names;
use crate::methods::system_method_names;

verus! {

/// The full set of dependencies the assembler consumes: shared handles
/// to the node's long-lived objects, the policy and feature flags, and
/// the query-size limit. Built once per node startup and moved into
/// [`create_full`].
#[derive(Clone, Copy, PartialEq, Eq, Structural, Debug)]
pub struct FullDeps {
    /// The client instance to use.
    pub client: ClientHandle,
    /// Transaction pool instance.
    pub pool: PoolHandle,
    /// Whether to deny unsafe calls.
    pub deny_unsafe: DenyUnsafe,
    /// The node authority flag.
    pub is_authority: bool,
    /// Whether to enable the development signer.
    pub enable_dev_signer: bool,
    /// Network service.
    pub network: NetworkHandle,
    /// Ethereum pending transactions.
    pub pending_transactions: PendingTransactionsHandle,
    /// Backend.
    pub backend: BackendHandle,
    /// Maximum number of logs in a query.
    pub max_past_logs: u32,
}

/// The Ethereum-compatibility handler holds exactly the wiring the
/// bundle prescribes: every shared handle, the converter, the signer
/// list resolved from the development-signer flag, and the override
/// table with its single explicit entry and its fallback.
pub open spec fn eth_wired(eth: EthApi, deps: FullDeps) -> bool {
    &&& eth.client == deps.client
    &&& eth.pool == deps.pool
    &&& eth.converter == TransactionConverter
    &&& eth.network == deps.network
    &&& eth.pending_transactions == deps.pending_transactions
    &&& eth.signers@ == if deps.enable_dev_signer {
        seq![Signer::Dev]
    } else {
        Seq::<Signer>::empty()
    }
    &&& eth.overrides.schemas@ == seq![
        (StorageSchema::V1, (StorageOverride::SchemaV1 { client: deps.client })),
    ]
    &&& eth.overrides.fallback == (StorageOverride::RuntimeApi { client: deps.client })
    &&& eth.backend == deps.backend
    &&& eth.is_authority == deps.is_authority
    &&& eth.max_past_logs == deps.max_past_logs
}

/// The dispatcher is exactly what assembling `deps` produces: four
/// delegates in registration order, each holding the prescribed
/// handler instance and registered under its group's method names.
pub open spec fn is_assembly_of(io: Dispatcher, deps: FullDeps) -> bool {
    &&& io.delegates@.len() == 4
    &&& io.delegates@[0].handler == HandlerInstance::System(
        (FullSystem { client: deps.client, pool: deps.pool, deny_unsafe: deps.deny_unsafe }),
    )
    &&& names_of(io.delegates@[0].methods@) == system_method_names()
    &&& io.delegates@[1].handler == HandlerInstance::Payment(
        (TransactionPayment { client: deps.client }),
    )
    &&& names_of(io.delegates@[1].methods@) == payment_method_names()
    &&& io.delegates@[2].handler == HandlerInstance::Contracts(
        (Contracts { client: deps.client }),
    )
    &&& names_of(io.delegates@[2].methods@) == contracts_method_names()
    &&& match io.delegates@[3].handler {
        HandlerInstance::Eth(eth) => eth_wired(eth, deps),
        _ => false,
    }
    &&& names_of(io.delegates@[3].methods@) == eth_method_names(deps.enable_dev_signer)
}

/// Instantiate all full RPC extensions.
///
/// Consumes the dependency bundle and returns the populated dispatcher:
/// the system-information, fee-estimation and contract-call handlers
/// built from their subsets of the bundle, then the Ethereum-
/// compatibility handler built from the rest, with the development
/// signer installed only when the bundle opted into it. The contract
/// pins the whole result: the wiring of every delegate, the served
/// method names, and their freedom from collision.
pub fn create_full(deps: FullDeps) -> (io: Dispatcher)
    ensures
        is_assembly_of(io, deps),
        io.method_names() == all_method_names(deps.enable_dev_signer),
        io.wf(),
{
    let FullDeps {
        client,
        pool,
        deny_unsafe,
        is_authority,
        enable_dev_signer,
        network,
        pending_transactions,
        backend,
        max_past_logs,
    } = deps;

    proof {
        lemma_method_names_distinct(enable_dev_signer);
        lemma_concat_no_dup_parts(
            system_method_names() + payment_method_names() + contracts_method_names(),
            eth_method_names(enable_dev_signer),
        );
        lemma_concat_no_dup_parts(
            system_method_names() + payment_method_names(),
            contracts_method_names(),
        );
        lemma_concat_no_dup_parts(system_method_names(), payment_method_names());
    }

    let mut io = Dispatcher::new();

    io.extend_with(FullSystem::new(client, pool, deny_unsafe).to_delegate());
    proof {
        assert(io.method_names() =~= system_method_names());
    }

    io.extend_with(TransactionPayment::new(client).to_delegate());

    io.extend_with(Contracts::new(client).to_delegate());

    let mut signers: Vec<Signer> = Vec::new();
    if enable_dev_signer {
        signers.push(Signer::Dev);
        proof {
            assert(signers@ =~= seq![Signer::Dev]);
        }
    } else {
        proof {
            assert(signers@ =~= Seq::<Signer>::empty());
        }
    }

    let overrides = OverrideHandle::for_client(client);

    io.extend_with(
        EthApi::new(
            client,
            pool,
            TransactionConverter,
            network,
            pending_transactions,
            signers,
            overrides,
            backend,
            is_authority,
            max_past_logs,
        ).to_delegate(),
    );

    proof {
        assert(io.method_names() == all_method_names(enable_dev_signer));
    }
    io
}

/// The signer list holds exactly one entry when development signing
/// was enabled and none otherwise.
pub proof fn lemma_dev_signer_presence(io: Dispatcher, deps: FullDeps)
    requires
        is_assembly_of(io, deps),
    ensures
        match io.delegates@[3].handler {
            HandlerInstance::Eth(eth) => eth.signers@.len() == (if deps.enable_dev_signer {
                1int
            } else {
                0int
            }),
            _ => false,
        },
{
}

/// The override table holds exactly one explicit entry — for schema
/// V1, decoding through the bundle's client — and exactly one
/// fallback, whatever the rest of the bundle was.
pub proof fn lemma_override_table_shape(io: Dispatcher, deps: FullDeps)
    requires
        is_assembly_of(io, deps),
    ensures
        match io.delegates@[3].handler {
            HandlerInstance::Eth(eth) => {
                &&& eth.overrides.schemas@.len() == 1
                &&& eth.overrides.schemas@[0] == (
                    StorageSchema::V1,
                    (StorageOverride::SchemaV1 { client: deps.client }),
                )
                &&& eth.overrides.fallback == (StorageOverride::RuntimeApi {
                    client: deps.client,
                })
                &&& eth.overrides.wf()
            },
            _ => false,
        },
{
}

/// Assembly is structurally idempotent: two dispatchers assembled from
/// equivalent bundles expose identical method-name sequences, and so
/// identical method-name sets.
pub proof fn lemma_assembly_idempotent(
    deps1: FullDeps,
    deps2: FullDeps,
    io1: Dispatcher,
    io2: Dispatcher,
)
    requires
        deps1 == deps2,
        io1.method_names() == all_method_names(deps1.enable_dev_signer),
        io2.method_names() == all_method_names(deps2.enable_dev_signer),
    ensures
        io1.method_names() == io2.method_names(),
        io1.method_names().to_set() == io2.method_names().to_set(),
{
}

/// No method name collides across the four registered handler groups:
/// the union of the groups' name sets is as large as the sum of the
/// groups' individual counts.
pub proof fn lemma_no_method_collision(io: Dispatcher, deps: FullDeps)
    requires
        io.method_names() == all_method_names(deps.enable_dev_signer),
    ensures
        io.method_names().no_duplicates(),
        io.method_names().to_set().len() == system_method_names().len()
            + payment_method_names().len() + contracts_method_names().len() + eth_method_names(
            deps.enable_dev_signer,
        ).len(),
{
    lemma_method_names_distinct(deps.enable_dev_signer);
    all_method_names(deps.enable_dev_signer).unique_seq_to_set();
}

/// Without the development signer, the dispatcher does not serve the
/// signing methods at all, so a request for one falls through to the
/// dispatcher's method-not-found answer rather than reaching a signer.
pub proof fn lemma_signing_needs_dev_signer(io: Dispatcher, deps: FullDeps)
    requires
        !deps.enable_dev_signer,
        io.method_names() == all_method_names(deps.enable_dev_signer),
    ensures
        !io.serves("eth_sign"@),
        !io.serves("eth_sendTransaction"@),
{
    lemma_method_names_distinct(true);
    let full = all_method_names(true);
    let base = all_method_names(false);
    assert(full =~= base + eth_signing_method_names());
    assert(base.len() == 16);
    assert(full[16] == "eth_sign"@);
    assert(full[17] == "eth_sendTransaction"@);
    assert(!base.contains("eth_sign"@)) by {
        if base.contains("eth_sign"@) {
            let i = choose|i: int| 0 <= i < base.len() && base[i] == "eth_sign"@;
            assert(full[i] == "eth_sign"@);
        }
    }
    assert(!base.contains("eth_sendTransaction"@)) by {
        if base.contains("eth_sendTransaction"@) {
            let i = choose|i: int| 0 <= i < base.len() && base[i] == "eth_sendTransaction"@;
            assert(full[i] == "eth_sendTransaction"@);
        }
    }
}

} // verus!
