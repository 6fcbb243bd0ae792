//! A cache-then-fetch provider of blockchain data.
//!
//! Every query is answered from an in-memory store when the store holds it and
//! from a remote source otherwise. What the remote source brings is put on
//! record, so that the same query costs at most one remote round trip; what it
//! fails to bring is handed on as the failure it was and leaves no trace. The
//! store is written out only when the caller asks for it.
//!
//! The library never talks to the network or the disk itself. The fetch that a
//! miss calls for is handed in by the caller, `save` hands out what is to be
//! written, and `new` takes what was read.
//!
//! - [`query`]: the queries, as plain values.
//! - [`chain`], [`blob`]: the values that are fetched and kept.
//! - [`table`], [`store`]: the cache.
//! - [`policy`]: what a call does, as mathematics.
//! - [`provider`]: the provider, whose functions are held to the policy.
//! - [`laws`]: what follows from the policy.

pub mod blob;
pub mod chain;
pub mod laws;
pub mod policy;
pub mod provider;
pub mod query;
pub mod store;
pub mod table;

pub use blob::{GetBlobData, GetBlobsResponse};
pub use policy::TxStep;
pub use provider::CachedRpcProvider;
pub use query::{AccountQuery, BlockQuery, LogsQuery, ProofQuery, StorageQuery, TxQuery};
pub use store::CacheStore;
pub use table::Table;
