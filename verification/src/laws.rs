//! What follows from the policy, proved once for every table and every store.

use vstd::prelude::*;
use ethers_core::types::{Block, Transaction};
use crate::chain::{block_transactions, first_with_hash};
use crate::policy::{first_step, opened, resolve, serve, TxStep};
use crate::query::TxKey;
use crate::store::{CacheStore, CacheView};

verus! {

/// A query that is not on record costs one fetch, and none ever after: the
/// first call asks the remote source once and answers with what it brought; the
/// second call answers the same from the record, leaves the record as it is and
/// does not ask, whatever the remote source would bring by then.
pub proof fn lemma_fetched_once<K, C>(table: Map<K, C>, key: K, value: C, later: Option<C>)
    requires
        !table.contains_key(key),
    ensures
        ({
            let first = serve(table, key, Some(value));
            let second = serve(first.table, key, later);
            &&& first.fetches == 1
            &&& first.answer == Some(value)
            &&& second.fetches == 0
            &&& second.answer == Some(value)
            &&& second.table == first.table
        }),
{
}

/// The same, from a store that holds nothing at all.
pub proof fn lemma_fetched_once_from_empty<K, C>(key: K, value: C, later: Option<C>)
    ensures
        ({
            let first = serve(Map::<K, C>::empty(), key, Some(value));
            let second = serve(first.table, key, later);
            &&& first.fetches == 1
            &&& first.answer == Some(value)
            &&& second.fetches == 0
            &&& second.answer == Some(value)
            &&& second.table == first.table
        }),
{
}

/// A failed fetch leaves no trace: the call answers with nothing of its own,
/// the record is what it was, and the next call for the same query asks the
/// remote source again.
pub proof fn lemma_failure_leaves_no_entry<K, C>(table: Map<K, C>, key: K, later: Option<C>)
    requires
        !table.contains_key(key),
    ensures
        ({
            let first = serve(table, key, None);
            let second = serve(first.table, key, later);
            &&& first.fetches == 1
            &&& first.answer is None
            &&& first.table == table
            &&& second.fetches == 1
            &&& second.answer == later
        }),
{
}

/// What is on record stays on record, unchanged, whatever is asked and whatever
/// the remote source brings.
pub proof fn lemma_entries_stay<K, C>(table: Map<K, C>, key: K, remote: Option<C>, other: K)
    requires
        table.contains_key(other),
    ensures
        serve(table, key, remote).table.contains_key(other),
        serve(table, key, remote).table[other] == table[other],
{
}

/// The first step says what the lookup as a whole does: a transaction at hand
/// is the answer and nothing is asked for; a block is asked for exactly where
/// the first step asks for it; and where the first step goes to the remote
/// source for the transaction, the lookup asks for it and for nothing else.
pub proof fn lemma_first_step_agrees(
    cache: CacheView,
    query: TxKey,
    block: Option<Block<Transaction>>,
    tx: Option<Transaction>,
)
    ensures
        ({
            let run = resolve(cache, query, block, tx);
            match first_step(cache, query) {
                TxStep::Found(found) => {
                    &&& run.answer == Some(found)
                    &&& run.block_fetches == 0
                    &&& run.transaction_fetches == 0
                    &&& run.cache == cache
                },
                TxStep::FetchBlock(asked) => {
                    &&& query.block_no == Some(asked.block_no)
                    &&& !cache.full_blocks.contains_key(asked.block_no)
                    &&& run.block_fetches == 1
                },
                TxStep::FetchTransaction => {
                    &&& run.answer == tx
                    &&& run.block_fetches == 0
                    &&& run.transaction_fetches == 1
                },
            }
        }),
{
}

/// A transaction query that names a block on record which holds the hash is
/// answered without asking the remote source for anything, and leaves the store
/// as it is. The answer is the entry under the query itself where there is one,
/// else the first transaction of that block with the query's hash.
pub proof fn lemma_found_in_recorded_block(
    cache: CacheView,
    query: TxKey,
    block_no: u64,
    held: Transaction,
    block: Option<Block<Transaction>>,
    tx: Option<Transaction>,
)
    requires
        query.block_no == Some(block_no),
        cache.full_blocks.contains_key(block_no),
        first_with_hash(block_transactions(cache.full_blocks[block_no]), query.tx_hash) == Some(
            held,
        ),
    ensures
        ({
            let run = resolve(cache, query, block, tx);
            &&& run.block_fetches == 0
            &&& run.transaction_fetches == 0
            &&& run.cache == cache
            &&& run.answer == match cache.transactions.get(query) {
                Some(direct) => Some(direct),
                None => Some(held),
            }
        }),
        first_step(cache, query) is Found,
{
}

/// A transaction query that has no entry of its own and names a block on record
/// which lacks the hash asks the remote source for the transaction, once, and
/// not for the block. What comes is the answer and is put on record under the
/// query, so that the next call answers the same and asks for nothing.
pub proof fn lemma_absent_from_recorded_block(
    cache: CacheView,
    query: TxKey,
    block_no: u64,
    brought: Transaction,
    block: Option<Block<Transaction>>,
    later_block: Option<Block<Transaction>>,
    later_tx: Option<Transaction>,
)
    requires
        !cache.transactions.contains_key(query),
        query.block_no == Some(block_no),
        cache.full_blocks.contains_key(block_no),
        first_with_hash(block_transactions(cache.full_blocks[block_no]), query.tx_hash) is None,
    ensures
        ({
            let first = resolve(cache, query, block, Some(brought));
            let second = resolve(first.cache, query, later_block, later_tx);
            &&& first.block_fetches == 0
            &&& first.transaction_fetches == 1
            &&& first.answer == Some(brought)
            &&& first.cache == (CacheView {
                transactions: cache.transactions.insert(query, brought),
                ..cache
            })
            &&& second.block_fetches == 0
            &&& second.transaction_fetches == 0
            &&& second.answer == Some(brought)
            &&& second.cache == first.cache
        }),
        first_step(cache, query) == TxStep::FetchTransaction,
{
}

/// A transaction query that names no block is served like every other query:
/// one fetch where it is not on record, and none ever after.
pub proof fn lemma_transaction_fetched_once(
    cache: CacheView,
    query: TxKey,
    brought: Transaction,
    block: Option<Block<Transaction>>,
    later_block: Option<Block<Transaction>>,
    later_tx: Option<Transaction>,
)
    requires
        !cache.transactions.contains_key(query),
        query.block_no is None,
    ensures
        ({
            let first = resolve(cache, query, block, Some(brought));
            let second = resolve(first.cache, query, later_block, later_tx);
            &&& first.block_fetches == 0
            &&& first.transaction_fetches == 1
            &&& first.answer == Some(brought)
            &&& second.block_fetches == 0
            &&& second.transaction_fetches == 0
            &&& second.answer == Some(brought)
            &&& second.cache == first.cache
        }),
{
}

/// A transaction fetch that fails leaves no entry under the query, and the next
/// call for the same query has to ask the remote source again: for the block
/// where the query names one that is still not on record, else for the
/// transaction.
pub proof fn lemma_transaction_failure_leaves_no_entry(
    cache: CacheView,
    query: TxKey,
    block: Option<Block<Transaction>>,
    later_block: Option<Block<Transaction>>,
    later_tx: Option<Transaction>,
)
    requires
        resolve(cache, query, block, None).transaction_fetches == 1,
    ensures
        ({
            let first = resolve(cache, query, block, None);
            let second = resolve(first.cache, query, later_block, later_tx);
            &&& first.answer is None
            &&& first.cache.transactions == cache.transactions
            &&& !first.cache.transactions.contains_key(query)
            &&& second.block_fetches + second.transaction_fetches >= 1
            &&& second.block_fetches == 0 ==> second.transaction_fetches == 1 && second.answer
                == later_tx
        }),
{
}

/// A transaction lookup asks for at most one block and at most one transaction,
/// and whatever was on record before it is on record after it, unchanged.
pub proof fn lemma_lookup_keeps_entries(
    cache: CacheView,
    query: TxKey,
    block: Option<Block<Transaction>>,
    tx: Option<Transaction>,
)
    ensures
        ({
            let run = resolve(cache, query, block, tx);
            &&& run.block_fetches <= 1
            &&& run.transaction_fetches <= 1
            &&& cache.full_blocks.submap_of(run.cache.full_blocks)
            &&& cache.transactions.submap_of(run.cache.transactions)
            &&& run.cache == (CacheView {
                full_blocks: run.cache.full_blocks,
                transactions: run.cache.transactions,
                ..cache
            })
        }),
{
}

/// Writing a store out and setting a provider up from what was written, at the
/// place the store names, gives a provider that holds what the first one held:
/// every query on record is answered as before, and without a fetch.
pub proof fn lemma_reopened_holds_the_same<L>(saved: CacheStore)
    ensures
        opened::<L>(saved@.file_path, Ok(saved)) == saved@,
{
}

} // verus!
