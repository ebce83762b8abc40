//! Plain-value stand-ins for the shared, reference-counted objects that
//! every handler closes over.
//!
//! The surrounding node owns the real client, transaction pool, network
//! service, pending-transaction registry and storage backend. This layer
//! never looks inside any of them: it only clones handles and passes them
//! on. Each handle is therefore modelled as a copyable identifier, so the
//! contracts can state exactly which handler received which handle.

use vstd::prelude::*;

verus! {

/// A shared handle to the chain client.
#[derive(Clone, Copy, PartialEq, Eq, Structural, Debug)]
pub struct ClientHandle {
    /// Identifies the underlying client object; copies of the handle
    /// carry the same identifier, as clones of a shared pointer do.
    pub id: u64,
}

/// A shared handle to the transaction pool.
#[derive(Clone, Copy, PartialEq, Eq, Structural, Debug)]
pub struct PoolHandle {
    /// Identifies the underlying pool object.
    pub id: u64,
}

/// A shared handle to the network service.
#[derive(Clone, Copy, PartialEq, Eq, Structural, Debug)]
pub struct NetworkHandle {
    /// Identifies the underlying network service.
    pub id: u64,
}

/// A shared handle to the registry of submitted but not yet finalized
/// transactions, the one mutable structure the bundle carries. The
/// assembler itself only clones the handle and never takes a lock.
#[derive(Clone, Copy, PartialEq, Eq, Structural, Debug)]
pub struct PendingTransactionsHandle {
    /// Identifies the underlying registry.
    pub id: u64,
}

/// A shared handle to the storage backend.
#[derive(Clone, Copy, PartialEq, Eq, Structural, Debug)]
pub struct BackendHandle {
    /// Identifies the underlying backend.
    pub id: u64,
}

/// Node-level policy on RPC methods that are unsafe to expose publicly:
/// either such calls are denied, or they are allowed.
#[derive(Clone, Copy, PartialEq, Eq, Structural, Debug)]
pub enum DenyUnsafe {
    /// Deny unsafe RPC calls.
    Yes,
    /// Allow unsafe RPC calls.
    No,
}

/// Converts a submitted Ethereum-shaped transaction into the node's
/// native extrinsic format. The conversion itself belongs to the runtime;
/// the assembler only hands the converter to the Ethereum handler.
#[derive(Clone, Copy, PartialEq, Eq, Structural, Debug)]
pub struct TransactionConverter;

} // verus!
