//! The handler instances the assembler builds, one per method group,
//! each holding exactly the handles it closes over.

use vstd::prelude::*;
use crate::handles::BackendHandle;
use crate::handles::ClientHandle;
use crate::handles::DenyUnsafe;
use crate::handles::NetworkHandle;
use crate::handles::PendingTransactionsHandle;
use crate::handles::PoolHandle;
use crate::handles::TransactionConverter;

verus! {

/// A signing capability installed into the Ethereum-compatibility
/// handler. Only the development signer exists at this layer; it signs
/// with a well-known, non-secret key and must never be installed unless
/// explicitly opted into.
#[derive(Clone, Copy, PartialEq, Eq, Structural, Debug)]
pub enum Signer {
    /// The development signer and its well-known key.
    Dev,
}

/// Version identifier of the schema under which Ethereum-shaped state
/// was written into chain storage.
#[derive(Clone, Copy, PartialEq, Eq, Structural, Debug)]
pub enum StorageSchema {
    /// State written before schema metadata existed.
    Undefined,
    /// The first explicit schema version.
    V1,
}

/// A strategy for decoding raw chain state into a structured view, tied
/// to the client it reads through.
#[derive(Clone, Copy, PartialEq, Eq, Structural, Debug)]
pub enum StorageOverride {
    /// Reads storage directly; valid for state written under schema V1.
    SchemaV1 {
        /// The client the strategy reads through.
        client: ClientHandle,
    },
    /// Decodes through the runtime's own API; valid for any state, and
    /// therefore the fallback for schemas without an explicit entry.
    RuntimeApi {
        /// The client the strategy reads through.
        client: ClientHandle,
    },
}

/// The storage-schema override table: one decoding strategy per
/// explicitly known schema version, plus the always-present fallback
/// for state whose schema is not listed.
#[derive(Debug)]
pub struct OverrideHandle {
    /// The explicit entries, keyed by schema version.
    pub schemas: Vec<(StorageSchema, StorageOverride)>,
    /// The strategy for every schema version without an explicit entry.
    pub fallback: StorageOverride,
}

impl OverrideHandle {
    /// Exactly one explicit strategy per schema version.
    pub open spec fn wf(self) -> bool {
        forall|i: int, j: int|
            0 <= i < self.schemas@.len() && 0 <= j < self.schemas@.len() && i != j
                ==> self.schemas@[i].0 != self.schemas@[j].0
    }

    /// Builds the table the assembler installs: one explicit entry, for
    /// schema V1, and the runtime-API fallback, both tied to `client`.
    pub fn for_client(client: ClientHandle) -> (r: OverrideHandle)
        ensures
            r.schemas@ == seq![(StorageSchema::V1, (StorageOverride::SchemaV1 { client }))],
            r.fallback == (StorageOverride::RuntimeApi { client }),
            r.wf(),
    {
        let mut schemas: Vec<(StorageSchema, StorageOverride)> = Vec::new();
        schemas.push((StorageSchema::V1, StorageOverride::SchemaV1 { client }));
        proof {
            assert(schemas@ =~= seq![(StorageSchema::V1, (StorageOverride::SchemaV1 { client }))]);
        }
        OverrideHandle { schemas, fallback: StorageOverride::RuntimeApi { client } }
    }

    /// The strategy that decodes state written under `schema`: the
    /// explicit entry when one exists, the fallback otherwise.
    pub open spec fn spec_override_for(self, schema: StorageSchema) -> StorageOverride {
        if exists|i: int| 0 <= i < self.schemas@.len() && self.schemas@[i].0 == schema {
            self.schemas@[choose|i: int|
                0 <= i < self.schemas@.len() && self.schemas@[i].0 == schema].1
        } else {
            self.fallback
        }
    }

    /// Looks up the decoding strategy for `schema`.
    pub fn override_for(&self, schema: StorageSchema) -> (r: StorageOverride)
        requires
            self.wf(),
        ensures
            r == self.spec_override_for(schema),
    {
        let mut i: usize = 0;
        while i < self.schemas.len()
            invariant
                self.wf(),
                i <= self.schemas@.len(),
                forall|t: int| 0 <= t < i ==> self.schemas@[t].0 != schema,
            decreases self.schemas@.len() - i,
        {
            let entry = self.schemas[i];
            if entry.0 == schema {
                return entry.1;
            }
            i = i + 1;
        }
        self.fallback
    }
}

/// Handler for node and account metadata queries, such as the next
/// transaction sequence number of an account.
#[derive(Clone, Copy, PartialEq, Eq, Structural, Debug)]
pub struct FullSystem {
    /// The shared chain client.
    pub client: ClientHandle,
    /// The shared transaction pool.
    pub pool: PoolHandle,
    /// The node's policy on unsafe RPC calls.
    pub deny_unsafe: DenyUnsafe,
}

impl FullSystem {
    /// Builds the handler from the client, the pool and the unsafe-call
    /// policy.
    pub fn new(client: ClientHandle, pool: PoolHandle, deny_unsafe: DenyUnsafe) -> (r: FullSystem)
        ensures
            r == (FullSystem { client, pool, deny_unsafe }),
    {
        FullSystem { client, pool, deny_unsafe }
    }
}

/// Handler for transaction-fee estimation queries.
#[derive(Clone, Copy, PartialEq, Eq, Structural, Debug)]
pub struct TransactionPayment {
    /// The shared chain client.
    pub client: ClientHandle,
}

impl TransactionPayment {
    /// Builds the handler from the client alone.
    pub fn new(client: ClientHandle) -> (r: TransactionPayment)
        ensures
            r == (TransactionPayment { client }),
    {
        TransactionPayment { client }
    }
}

/// Handler for read-only simulated smart-contract invocation against
/// current state.
#[derive(Clone, Copy, PartialEq, Eq, Structural, Debug)]
pub struct Contracts {
    /// The shared chain client.
    pub client: ClientHandle,
}

impl Contracts {
    /// Builds the handler from the client alone.
    pub fn new(client: ClientHandle) -> (r: Contracts)
        ensures
            r == (Contracts { client }),
    {
        Contracts { client }
    }
}

/// Handler for the Ethereum-compatible surface: accounts, balances,
/// transaction submission and simulation, and log queries bounded by
/// the maximum-logs-per-query limit.
#[derive(Debug)]
pub struct EthApi {
    /// The shared chain client.
    pub client: ClientHandle,
    /// The shared transaction pool.
    pub pool: PoolHandle,
    /// Converts submitted Ethereum transactions into native extrinsics.
    pub converter: TransactionConverter,
    /// The shared network service.
    pub network: NetworkHandle,
    /// The shared registry of submitted but not yet finalized
    /// transactions.
    pub pending_transactions: PendingTransactionsHandle,
    /// The installed signing capabilities; empty unless development
    /// signing was opted into.
    pub signers: Vec<Signer>,
    /// The storage-schema override table.
    pub overrides: OverrideHandle,
    /// The shared storage backend.
    pub backend: BackendHandle,
    /// Whether this node is an authority.
    pub is_authority: bool,
    /// Upper bound on the number of logs a single query may return.
    pub max_past_logs: u32,
}

impl EthApi {
    /// Builds the handler from every dependency it closes over.
    pub fn new(
        client: ClientHandle,
        pool: PoolHandle,
        converter: TransactionConverter,
        network: NetworkHandle,
        pending_transactions: PendingTransactionsHandle,
        signers: Vec<Signer>,
        overrides: OverrideHandle,
        backend: BackendHandle,
        is_authority: bool,
        max_past_logs: u32,
    ) -> (r: EthApi)
        ensures
            r == (EthApi {
                client,
                pool,
                converter,
                network,
                pending_transactions,
                signers,
                overrides,
                backend,
                is_authority,
                max_past_logs,
            }),
    {
        EthApi {
            client,
            pool,
            converter,
            network,
            pending_transactions,
            signers,
            overrides,
            backend,
            is_authority,
            max_past_logs,
        }
    }
}

} // verus!
