//! A verified model of a node's JSON-RPC assembly layer.
//!
//! The library describes, over plain values, how a node wires its RPC
//! surface together: a bundle of shared dependencies is consumed once, a
//! handler instance is built for each method group (system information,
//! transaction-fee estimation, contract calls, and an Ethereum-compatible
//! surface), and every handler is registered against a dispatcher under
//! its own method names. The contracts pin down the shape of the result:
//! which dependencies each handler closes over, when the development
//! signer is installed, what the storage-schema override table holds, and
//! that the registered method names never collide.

pub mod dispatcher;
pub mod handles;
pub mod handlers;
pub mod methods;
pub mod rpc;

pub use handles::BackendHandle;
pub use handles::ClientHandle;
pub use handles::DenyUnsafe;
pub use handles::NetworkHandle;
pub use handles::PendingTransactionsHandle;
pub use handles::PoolHandle;
pub use handles::TransactionConverter;
pub use rpc::FullDeps;
pub use rpc::create_full;
