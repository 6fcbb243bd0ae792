//! The policy, as mathematics: what a call answers, what it leaves on record and
//! how often it has to ask the remote source, given what is on record before.
//!
//! Nothing here runs. The functions of the provider are held to these
//! definitions, and the module `laws` proves what follows from them.

use vstd::prelude::*;
use ethers_core::types::{Block, Transaction};
use crate::chain::{block_transactions, first_with_hash, Payload};
use crate::query::{BlockQuery, TxKey};
use crate::store::{CacheStore, CacheView};

verus! {

/// What a fetch brought, where it brought anything.
pub open spec fn fetched_content<V: Payload, E>(fetched: Result<V, E>) -> Option<V::Content> {
    match fetched {
        Ok(value) => Some(value.content()),
        Err(_) => None,
    }
}

/// The table after a fetch for `key` has come back: a success is on record, a
/// failure leaves no trace.
pub open spec fn recorded<K, C>(table: Map<K, C>, key: K, fetched: Option<C>) -> Map<K, C> {
    match fetched {
        Some(value) => table.insert(key, value),
        None => table,
    }
}

/// One call seen from outside: what it answered (nothing where the remote source
/// failed), the table it left, and how many times it asked the remote source.
#[verifier::reject_recursive_types(K)]
pub struct Served<K, C> {
    pub answer: Option<C>,
    pub table: Map<K, C>,
    pub fetches: nat,
}

/// The call for `key` against `table`, where `remote` is what the remote source
/// brings if it is asked: an entry on record is the answer and the remote source
/// is left alone; without one the remote source is asked once, and what it
/// brings is both recorded and answered.
pub open spec fn serve<K, C>(table: Map<K, C>, key: K, remote: Option<C>) -> Served<K, C> {
    match table.get(key) {
        Some(value) => Served { answer: Some(value), table, fetches: 0 },
        None => Served { answer: remote, table: recorded(table, key, remote), fetches: 1 },
    }
}

/// What to do next for a transaction query.
#[derive(Debug, PartialEq, Eq)]
pub enum TxStep {
    /// The transaction is at hand.
    Found(Transaction),
    /// The block that the query names is not on record: ask the remote source
    /// for it.
    FetchBlock(BlockQuery),
    /// Ask the remote source for the transaction itself.
    FetchTransaction,
}

/// The transaction with the query's hash in the block that the query names, as
/// far as that block is on record.
pub open spec fn in_recorded_block(
    blocks: Map<u64, Block<Transaction>>,
    query: TxKey,
) -> Option<Transaction> {
    match query.block_no {
        Some(block_no) => match blocks.get(block_no) {
            Some(block) => first_with_hash(block_transactions(block), query.tx_hash),
            None => None,
        },
        None => None,
    }
}

/// The first step for a transaction query: an entry under the query itself wins;
/// then the block that the query names is searched, or asked for where it is not
/// on record; a query that names no block, or whose block lacks the hash, goes
/// to the remote source.
pub open spec fn first_step(cache: CacheView, query: TxKey) -> TxStep {
    match cache.transactions.get(query) {
        Some(tx) => TxStep::Found(tx),
        None => match query.block_no {
            None => TxStep::FetchTransaction,
            Some(block_no) => if cache.full_blocks.contains_key(block_no) {
                match in_recorded_block(cache.full_blocks, query) {
                    Some(tx) => TxStep::Found(tx),
                    None => TxStep::FetchTransaction,
                }
            } else {
                TxStep::FetchBlock(BlockQuery { block_no })
            },
        },
    }
}

/// One transaction lookup seen from outside.
pub struct Resolved {
    pub answer: Option<Transaction>,
    pub cache: CacheView,
    pub block_fetches: nat,
    pub transaction_fetches: nat,
}

/// The lookup of `query` against `cache`, where `block` and `tx` are what the
/// remote source brings if it is asked for the block and for the transaction.
///
/// An entry under the query itself is the answer. Otherwise, where the query
/// names a block, that block is obtained as any full block is, which may ask the
/// remote source and records what it brings; a transaction with the query's
/// hash in it is the answer, and is not recorded under the query. In every
/// other case the remote source is asked for the transaction, and what it
/// brings is recorded under the query.
pub open spec fn resolve(
    cache: CacheView,
    query: TxKey,
    block: Option<Block<Transaction>>,
    tx: Option<Transaction>,
) -> Resolved {
    match cache.transactions.get(query) {
        Some(hit) => Resolved {
            answer: Some(hit),
            cache,
            block_fetches: 0,
            transaction_fetches: 0,
        },
        None => {
            let blocks = match query.block_no {
                Some(block_no) => serve(cache.full_blocks, block_no, block),
                None => Served { answer: None, table: cache.full_blocks, fetches: 0 },
            };
            let found = match blocks.answer {
                Some(obtained) => first_with_hash(block_transactions(obtained), query.tx_hash),
                None => None,
            };
            let searched = CacheView { full_blocks: blocks.table, ..cache };
            match found {
                Some(hit) => Resolved {
                    answer: Some(hit),
                    cache: searched,
                    block_fetches: blocks.fetches,
                    transaction_fetches: 0,
                },
                None => Resolved {
                    answer: tx,
                    cache: CacheView {
                        transactions: recorded(searched.transactions, query, tx),
                        ..searched
                    },
                    block_fetches: blocks.fetches,
                    transaction_fetches: 1,
                },
            }
        },
    }
}

/// [`resolve`], with the two fetches given as they came back.
pub open spec fn resolved<EB, E>(
    cache: CacheView,
    query: TxKey,
    block: Result<Block<Transaction>, EB>,
    tx: Result<Transaction, E>,
) -> Resolved {
    resolve(cache, query, fetched_content(block), fetched_content(tx))
}

/// The store that a provider starts with: what was read at `cache_path`, kept
/// there, or nothing where the reading failed.
pub open spec fn opened<L>(cache_path: Seq<char>, loaded: Result<CacheStore, L>) -> CacheView {
    match loaded {
        Ok(store) => CacheView { file_path: cache_path, ..store@ },
        Err(_) => CacheView::empty(cache_path),
    }
}

} // verus!
