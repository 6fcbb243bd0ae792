//! The cached provider: a cache store, a remote source, and the rule that joins
//! them.
//!
//! For every kind of query the rule is the same. The store is asked first and
//! its answer is final. Only on a miss is the remote source asked, once; what it
//! brings is put on record and handed on, and a failure is handed on as it came
//! and leaves the store as it was. A transaction query has one more source
//! between the two: the block that the query names.
//!
//! Asking the remote source is not this library's business: a `get_*` function
//! takes the fetch to run against it, and the `*_fetched` functions settle a
//! fetch that the caller has run by its own means.
//!
//! The contracts of the `get_*` functions hold a call to the policy's `serve`
//! and `resolve`. These take what the remote source brings if it is asked, and
//! a contract hands them what the call handed out: where the remote source was
//! asked, that is what it brought, and where it was not, they do not look at it.

use vstd::prelude::*;
use alloy_rpc_types::EIP1186AccountProofResponse;
use ethers_core::types::{Block, Bytes, Log, Transaction, TransactionReceipt, H256, U256};
use crate::blob::GetBlobsResponse;
use crate::chain::{block_transactions, find_transaction, first_with_hash, Payload};
use crate::policy::{fetched_content, first_step, opened, recorded, resolved, serve, TxStep};
use crate::query::{AccountQuery, BlockQuery, Key, LogsQuery, ProofQuery, StorageQuery, TxQuery};
use crate::store::{CacheStore, CacheView};

verus! {

/// A cache store together with the remote source that fills it.
pub struct CachedRpcProvider<R> {
    cache: CacheStore,
    rpc: R,
}

impl<R> View for CachedRpcProvider<R> {
    type V = CacheView;

    closed spec fn view(&self) -> CacheView {
        self.cache@
    }
}

impl<R> CachedRpcProvider<R> {
    /// The remote source that the provider owns.
    pub closed spec fn remote(&self) -> R {
        self.rpc
    }

    /// Joins what was found at `cache_path` with the remote source.
    ///
    /// `loaded` is the outcome of reading the store kept at `cache_path`: where
    /// that failed, for whatever reason, the provider starts with an empty store
    /// to be kept there. `remote` is the outcome of setting up the remote
    /// source: its failure is the failure of the whole.
    pub fn new<L, E>(
        cache_path: String,
        loaded: Result<CacheStore, L>,
        remote: Result<R, E>,
    ) -> (out: Result<Self, E>)
        ensures
            match remote {
                Ok(rpc) => {
                    &&& out matches Ok(provider)
                    &&& provider.remote() == rpc
                    &&& provider@ == opened(cache_path@, loaded)
                },
                Err(error) => out matches Err(handed_on) && handed_on == error,
            },
    {
        let cache = match loaded {
            Ok(store) => store.kept_at(cache_path),
            Err(_) => CacheStore::empty(cache_path),
        };
        match remote {
            Ok(rpc) => Ok(CachedRpcProvider { cache, rpc }),
            Err(error) => Err(error),
        }
    }

    /// Hands out the whole store, as it is now, for the caller to write to the
    /// place that the store names. Nothing else ever asks for the store to be
    /// written.
    pub fn save(&self) -> (snapshot: &CacheStore)
        ensures
            snapshot@ == self@,
    {
        &self.cache
    }

    /// The store, for the caller to look an answer up without asking for a
    /// fetch.
    pub fn cache(&self) -> (cache: &CacheStore)
        ensures
            cache@ == self@,
    {
        &self.cache
    }

    /// The remote source, for the caller to run a fetch against.
    pub fn rpc(&self) -> (rpc: &R)
        ensures
            *rpc == self.remote(),
    {
        &self.rpc
    }

    /// The first step of a transaction lookup, taken against the store alone.
    pub fn transaction_step(&self, query: &TxQuery) -> (step: TxStep)
        ensures
            step == first_step(self@, query@),
    {
        match self.cache.get_transaction(query) {
            Some(tx) => TxStep::Found(tx),
            None => match query.block_no {
                None => TxStep::FetchTransaction,
                Some(block_no) => {
                    let block_query = BlockQuery { block_no };
                    match self.cache.full_blocks.get_ref(&block_query) {
                        Some(block) => match find_transaction(block, &query.tx_hash) {
                            Some(tx) => TxStep::Found(tx),
                            None => TxStep::FetchTransaction,
                        },
                        None => TxStep::FetchBlock(block_query),
                    }
                },
            },
        }
    }

    /// Settles the fetch of the block that a transaction query names: a block
    /// that came is put on record as any fetched block is, and searched for the
    /// query's hash. `None` says that the transaction itself has to be fetched.
    pub fn transaction_block_fetched<E>(
        &mut self,
        query: &TxQuery,
        fetched: Result<Block<Transaction>, E>,
    ) -> (found: Option<Transaction>)
        ensures
            final(self).remote() == old(self).remote(),
            match query.block_no {
                Some(block_no) => {
                    &&& final(self)@ == (CacheView {
                        full_blocks: recorded(
                            old(self)@.full_blocks,
                            block_no,
                            fetched_content(fetched),
                        ),
                        ..old(self)@
                    })
                    &&& found == match fetched {
                        Ok(block) => first_with_hash(block_transactions(block), query.tx_hash@),
                        Err(_) => None,
                    }
                },
                None => final(self)@ == old(self)@ && found is None,
            },
    {
        match query.block_no {
            Some(block_no) => {
                let block_query = BlockQuery { block_no };
                match self.full_block_fetched(&block_query, fetched) {
                    Ok(block) => find_transaction(&block, &query.tx_hash),
                    Err(_) => None,
                }
            },
            None => None,
        }
    }

    /// Looks a transaction up: under the query itself, then in the block that
    /// the query names, then at the remote source.
    ///
    /// `fetch_block` is run where that block is not on record, `fetch` where
    /// neither the store nor the block yields the transaction. A transaction
    /// found in the block is handed out and not recorded under the query.
    pub fn get_transaction<EB, E, FB, F>(
        &mut self,
        query: &TxQuery,
        fetch_block: FB,
        fetch: F,
    ) -> (out: Result<Transaction, E>) where
        FB: FnOnce(&R, &BlockQuery) -> Result<Block<Transaction>, EB>,
        F: FnOnce(&R, &TxQuery) -> Result<Transaction, E>,

        requires
            first_step(old(self)@, query@) matches TxStep::FetchBlock(block_query)
                ==> fetch_block.requires((&old(self).remote(), &block_query)),
            !(first_step(old(self)@, query@) is Found) ==> fetch.requires(
                (&old(self).remote(), query),
            ),
        ensures
            final(self).remote() == old(self).remote(),
            exists|block: Result<Block<Transaction>, EB>|
                #![trigger resolved(old(self)@, query@, block, out)]
                {
                    let run = resolved(old(self)@, query@, block, out);
                    &&& run.block_fetches == 1 ==> (first_step(old(self)@, query@)
                        matches TxStep::FetchBlock(block_query) && fetch_block.ensures(
                        (&old(self).remote(), &block_query),
                        block,
                    ))
                    &&& run.transaction_fetches == 1 ==> fetch.ensures(
                        (&old(self).remote(), query),
                        out,
                    )
                    &&& run.transaction_fetches == 0 ==> out is Ok
                    &&& fetched_content(out) == run.answer
                    &&& final(self)@ == run.cache
                },
    {
        match self.transaction_step(query) {
            TxStep::Found(tx) => {
                let out = Ok(tx);
                proof {
                    let unasked: Result<Block<Transaction>, EB> = arbitrary();
                    assert(resolved(old(self)@, query@, unasked, out).cache == self@);
                }
                out
            },
            TxStep::FetchTransaction => {
                let fetched = fetch(&self.rpc, query);
                let out = self.transaction_fetched(query, fetched);
                proof {
                    let unasked: Result<Block<Transaction>, EB> = arbitrary();
                    assert(resolved(old(self)@, query@, unasked, out).cache == self@);
                }
                out
            },
            TxStep::FetchBlock(block_query) => {
                let block = fetch_block(&self.rpc, &block_query);
                let ghost answered = block;
                match self.transaction_block_fetched(query, block) {
                    Some(tx) => {
                        let out = Ok(tx);
                        proof {
                            assert(resolved(old(self)@, query@, answered, out).cache == self@);
                        }
                        out
                    },
                    None => {
                        let fetched = fetch(&self.rpc, query);
                        let out = self.transaction_fetched(query, fetched);
                        proof {
                            assert(resolved(old(self)@, query@, answered, out).cache == self@);
                        }
                        out
                    },
                }
            },
        }
    }

    /// Settles a fetch that the caller has run for a full block: what
    /// came is put on record under the query and handed on, and a failure is
    /// handed on as it came.
    pub fn full_block_fetched<E>(
        &mut self,
        query: &BlockQuery,
        fetched: Result<Block<Transaction>, E>,
    ) -> (out: Result<Block<Transaction>, E>)
        ensures
            out == fetched,
            final(self).remote() == old(self).remote(),
            final(self)@ == (CacheView {
                full_blocks: recorded(
                    old(self)@.full_blocks,
                    query@,
                    fetched_content(fetched),
                ),
                ..old(self)@
            }),
    {
        match fetched {
            Ok(out) => {
                self.cache.insert_full_block(query.duplicate(), out.duplicate());
                Ok(out)
            },
            Err(error) => Err(error),
        }
    }

    /// Answers with a full block: from the store where it is on
    /// record, else by running `fetch` against the remote source, once.
    pub fn get_full_block<E, F>(
        &mut self,
        query: &BlockQuery,
        fetch: F,
    ) -> (out: Result<Block<Transaction>, E>) where
        F: FnOnce(&R, &BlockQuery) -> Result<Block<Transaction>, E>,

        requires
            !old(self)@.full_blocks.contains_key(query@) ==> fetch.requires(
                (&old(self).remote(), query),
            ),
        ensures
            final(self).remote() == old(self).remote(),
            ({
                let run = serve(old(self)@.full_blocks, query@, fetched_content(out));
                &&& run.fetches == 1 ==> fetch.ensures((&old(self).remote(), query), out)
                &&& run.fetches == 0 ==> out is Ok
                &&& fetched_content(out) == run.answer
                &&& final(self)@ == (CacheView { full_blocks: run.table, ..old(self)@ })
            }),
    {
        match self.cache.get_full_block(query) {
            Some(hit) => Ok(hit),
            None => {
                let fetched = fetch(&self.rpc, query);
                self.full_block_fetched(query, fetched)
            },
        }
    }

    /// Settles a fetch that the caller has run for a partial block: what
    /// came is put on record under the query and handed on, and a failure is
    /// handed on as it came.
    pub fn partial_block_fetched<E>(
        &mut self,
        query: &BlockQuery,
        fetched: Result<Block<H256>, E>,
    ) -> (out: Result<Block<H256>, E>)
        ensures
            out == fetched,
            final(self).remote() == old(self).remote(),
            final(self)@ == (CacheView {
                partial_blocks: recorded(
                    old(self)@.partial_blocks,
                    query@,
                    fetched_content(fetched),
                ),
                ..old(self)@
            }),
    {
        match fetched {
            Ok(out) => {
                self.cache.insert_partial_block(query.duplicate(), out.duplicate());
                Ok(out)
            },
            Err(error) => Err(error),
        }
    }

    /// Answers with a partial block: from the store where it is on
    /// record, else by running `fetch` against the remote source, once.
    pub fn get_partial_block<E, F>(
        &mut self,
        query: &BlockQuery,
        fetch: F,
    ) -> (out: Result<Block<H256>, E>) where
        F: FnOnce(&R, &BlockQuery) -> Result<Block<H256>, E>,

        requires
            !old(self)@.partial_blocks.contains_key(query@) ==> fetch.requires(
                (&old(self).remote(), query),
            ),
        ensures
            final(self).remote() == old(self).remote(),
            ({
                let run = serve(old(self)@.partial_blocks, query@, fetched_content(out));
                &&& run.fetches == 1 ==> fetch.ensures((&old(self).remote(), query), out)
                &&& run.fetches == 0 ==> out is Ok
                &&& fetched_content(out) == run.answer
                &&& final(self)@ == (CacheView { partial_blocks: run.table, ..old(self)@ })
            }),
    {
        match self.cache.get_partial_block(query) {
            Some(hit) => Ok(hit),
            None => {
                let fetched = fetch(&self.rpc, query);
                self.partial_block_fetched(query, fetched)
            },
        }
    }

    /// Settles a fetch that the caller has run for the receipts of a block: what
    /// came is put on record under the query and handed on, and a failure is
    /// handed on as it came.
    pub fn block_receipts_fetched<E>(
        &mut self,
        query: &BlockQuery,
        fetched: Result<Vec<TransactionReceipt>, E>,
    ) -> (out: Result<Vec<TransactionReceipt>, E>)
        ensures
            out == fetched,
            final(self).remote() == old(self).remote(),
            final(self)@ == (CacheView {
                block_receipts: recorded(
                    old(self)@.block_receipts,
                    query@,
                    fetched_content(fetched),
                ),
                ..old(self)@
            }),
    {
        match fetched {
            Ok(out) => {
                self.cache.insert_block_receipts(query.duplicate(), out.duplicate());
                Ok(out)
            },
            Err(error) => Err(error),
        }
    }

    /// Answers with the receipts of a block: from the store where they are on
    /// record, else by running `fetch` against the remote source, once.
    pub fn get_block_receipts<E, F>(
        &mut self,
        query: &BlockQuery,
        fetch: F,
    ) -> (out: Result<Vec<TransactionReceipt>, E>) where
        F: FnOnce(&R, &BlockQuery) -> Result<Vec<TransactionReceipt>, E>,

        requires
            !old(self)@.block_receipts.contains_key(query@) ==> fetch.requires(
                (&old(self).remote(), query),
            ),
        ensures
            final(self).remote() == old(self).remote(),
            ({
                let run = serve(old(self)@.block_receipts, query@, fetched_content(out));
                &&& run.fetches == 1 ==> fetch.ensures((&old(self).remote(), query), out)
                &&& run.fetches == 0 ==> out is Ok
                &&& fetched_content(out) == run.answer
                &&& final(self)@ == (CacheView { block_receipts: run.table, ..old(self)@ })
            }),
    {
        match self.cache.get_block_receipts(query) {
            Some(hit) => Ok(hit),
            None => {
                let fetched = fetch(&self.rpc, query);
                self.block_receipts_fetched(query, fetched)
            },
        }
    }

    /// Settles a fetch that the caller has run for a proof: what
    /// came is put on record under the query and handed on, and a failure is
    /// handed on as it came.
    pub fn proof_fetched<E>(
        &mut self,
        query: &ProofQuery,
        fetched: Result<EIP1186AccountProofResponse, E>,
    ) -> (out: Result<EIP1186AccountProofResponse, E>)
        ensures
            out == fetched,
            final(self).remote() == old(self).remote(),
            final(self)@ == (CacheView {
                proofs: recorded(
                    old(self)@.proofs,
                    query@,
                    fetched_content(fetched),
                ),
                ..old(self)@
            }),
    {
        match fetched {
            Ok(out) => {
                self.cache.insert_proof(query.duplicate(), out.duplicate());
                Ok(out)
            },
            Err(error) => Err(error),
        }
    }

    /// Answers with a proof: from the store where it is on
    /// record, else by running `fetch` against the remote source, once.
    pub fn get_proof<E, F>(
        &mut self,
        query: &ProofQuery,
        fetch: F,
    ) -> (out: Result<EIP1186AccountProofResponse, E>) where
        F: FnOnce(&R, &ProofQuery) -> Result<EIP1186AccountProofResponse, E>,

        requires
            !old(self)@.proofs.contains_key(query@) ==> fetch.requires(
                (&old(self).remote(), query),
            ),
        ensures
            final(self).remote() == old(self).remote(),
            ({
                let run = serve(old(self)@.proofs, query@, fetched_content(out));
                &&& run.fetches == 1 ==> fetch.ensures((&old(self).remote(), query), out)
                &&& run.fetches == 0 ==> out is Ok
                &&& fetched_content(out) == run.answer
                &&& final(self)@ == (CacheView { proofs: run.table, ..old(self)@ })
            }),
    {
        match self.cache.get_proof(query) {
            Some(hit) => Ok(hit),
            None => {
                let fetched = fetch(&self.rpc, query);
                self.proof_fetched(query, fetched)
            },
        }
    }

    /// Settles a fetch that the caller has run for a transaction count: what
    /// came is put on record under the query and handed on, and a failure is
    /// handed on as it came.
    pub fn transaction_count_fetched<E>(
        &mut self,
        query: &AccountQuery,
        fetched: Result<U256, E>,
    ) -> (out: Result<U256, E>)
        ensures
            out == fetched,
            final(self).remote() == old(self).remote(),
            final(self)@ == (CacheView {
                transaction_counts: recorded(
                    old(self)@.transaction_counts,
                    query@,
                    fetched_content(fetched),
                ),
                ..old(self)@
            }),
    {
        match fetched {
            Ok(out) => {
                self.cache.insert_transaction_count(query.duplicate(), out.duplicate());
                Ok(out)
            },
            Err(error) => Err(error),
        }
    }

    /// Answers with a transaction count: from the store where it is on
    /// record, else by running `fetch` against the remote source, once.
    pub fn get_transaction_count<E, F>(
        &mut self,
        query: &AccountQuery,
        fetch: F,
    ) -> (out: Result<U256, E>) where
        F: FnOnce(&R, &AccountQuery) -> Result<U256, E>,

        requires
            !old(self)@.transaction_counts.contains_key(query@) ==> fetch.requires(
                (&old(self).remote(), query),
            ),
        ensures
            final(self).remote() == old(self).remote(),
            ({
                let run = serve(old(self)@.transaction_counts, query@, fetched_content(out));
                &&& run.fetches == 1 ==> fetch.ensures((&old(self).remote(), query), out)
                &&& run.fetches == 0 ==> out is Ok
                &&& fetched_content(out) == run.answer
                &&& final(self)@ == (CacheView { transaction_counts: run.table, ..old(self)@ })
            }),
    {
        match self.cache.get_transaction_count(query) {
            Some(hit) => Ok(hit),
            None => {
                let fetched = fetch(&self.rpc, query);
                self.transaction_count_fetched(query, fetched)
            },
        }
    }

    /// Settles a fetch that the caller has run for a balance: what
    /// came is put on record under the query and handed on, and a failure is
    /// handed on as it came.
    pub fn balance_fetched<E>(
        &mut self,
        query: &AccountQuery,
        fetched: Result<U256, E>,
    ) -> (out: Result<U256, E>)
        ensures
            out == fetched,
            final(self).remote() == old(self).remote(),
            final(self)@ == (CacheView {
                balances: recorded(
                    old(self)@.balances,
                    query@,
                    fetched_content(fetched),
                ),
                ..old(self)@
            }),
    {
        match fetched {
            Ok(out) => {
                self.cache.insert_balance(query.duplicate(), out.duplicate());
                Ok(out)
            },
            Err(error) => Err(error),
        }
    }

    /// Answers with a balance: from the store where it is on
    /// record, else by running `fetch` against the remote source, once.
    pub fn get_balance<E, F>(
        &mut self,
        query: &AccountQuery,
        fetch: F,
    ) -> (out: Result<U256, E>) where
        F: FnOnce(&R, &AccountQuery) -> Result<U256, E>,

        requires
            !old(self)@.balances.contains_key(query@) ==> fetch.requires(
                (&old(self).remote(), query),
            ),
        ensures
            final(self).remote() == old(self).remote(),
            ({
                let run = serve(old(self)@.balances, query@, fetched_content(out));
                &&& run.fetches == 1 ==> fetch.ensures((&old(self).remote(), query), out)
                &&& run.fetches == 0 ==> out is Ok
                &&& fetched_content(out) == run.answer
                &&& final(self)@ == (CacheView { balances: run.table, ..old(self)@ })
            }),
    {
        match self.cache.get_balance(query) {
            Some(hit) => Ok(hit),
            None => {
                let fetched = fetch(&self.rpc, query);
                self.balance_fetched(query, fetched)
            },
        }
    }

    /// Settles a fetch that the caller has run for the code of an account: what
    /// came is put on record under the query and handed on, and a failure is
    /// handed on as it came.
    pub fn code_fetched<E>(
        &mut self,
        query: &AccountQuery,
        fetched: Result<Bytes, E>,
    ) -> (out: Result<Bytes, E>)
        ensures
            out == fetched,
            final(self).remote() == old(self).remote(),
            final(self)@ == (CacheView {
                codes: recorded(
                    old(self)@.codes,
                    query@,
                    fetched_content(fetched),
                ),
                ..old(self)@
            }),
    {
        match fetched {
            Ok(out) => {
                self.cache.insert_code(query.duplicate(), out.duplicate());
                Ok(out)
            },
            Err(error) => Err(error),
        }
    }

    /// Answers with the code of an account: from the store where it is on
    /// record, else by running `fetch` against the remote source, once.
    pub fn get_code<E, F>(
        &mut self,
        query: &AccountQuery,
        fetch: F,
    ) -> (out: Result<Bytes, E>) where
        F: FnOnce(&R, &AccountQuery) -> Result<Bytes, E>,

        requires
            !old(self)@.codes.contains_key(query@) ==> fetch.requires(
                (&old(self).remote(), query),
            ),
        ensures
            final(self).remote() == old(self).remote(),
            ({
                let run = serve(old(self)@.codes, query@, fetched_content(out));
                &&& run.fetches == 1 ==> fetch.ensures((&old(self).remote(), query), out)
                &&& run.fetches == 0 ==> out is Ok
                &&& fetched_content(out) == run.answer
                &&& final(self)@ == (CacheView { codes: run.table, ..old(self)@ })
            }),
    {
        match self.cache.get_code(query) {
            Some(hit) => Ok(hit),
            None => {
                let fetched = fetch(&self.rpc, query);
                self.code_fetched(query, fetched)
            },
        }
    }

    /// Settles a fetch that the caller has run for a storage value: what
    /// came is put on record under the query and handed on, and a failure is
    /// handed on as it came.
    pub fn storage_fetched<E>(
        &mut self,
        query: &StorageQuery,
        fetched: Result<H256, E>,
    ) -> (out: Result<H256, E>)
        ensures
            out == fetched,
            final(self).remote() == old(self).remote(),
            final(self)@ == (CacheView {
                storage: recorded(
                    old(self)@.storage,
                    query@,
                    fetched_content(fetched),
                ),
                ..old(self)@
            }),
    {
        match fetched {
            Ok(out) => {
                self.cache.insert_storage(query.duplicate(), out.duplicate());
                Ok(out)
            },
            Err(error) => Err(error),
        }
    }

    /// Answers with a storage value: from the store where it is on
    /// record, else by running `fetch` against the remote source, once.
    pub fn get_storage<E, F>(
        &mut self,
        query: &StorageQuery,
        fetch: F,
    ) -> (out: Result<H256, E>) where
        F: FnOnce(&R, &StorageQuery) -> Result<H256, E>,

        requires
            !old(self)@.storage.contains_key(query@) ==> fetch.requires(
                (&old(self).remote(), query),
            ),
        ensures
            final(self).remote() == old(self).remote(),
            ({
                let run = serve(old(self)@.storage, query@, fetched_content(out));
                &&& run.fetches == 1 ==> fetch.ensures((&old(self).remote(), query), out)
                &&& run.fetches == 0 ==> out is Ok
                &&& fetched_content(out) == run.answer
                &&& final(self)@ == (CacheView { storage: run.table, ..old(self)@ })
            }),
    {
        match self.cache.get_storage(query) {
            Some(hit) => Ok(hit),
            None => {
                let fetched = fetch(&self.rpc, query);
                self.storage_fetched(query, fetched)
            },
        }
    }

    /// Settles a fetch that the caller has run for logs: what
    /// came is put on record under the query and handed on, and a failure is
    /// handed on as it came.
    pub fn logs_fetched<E>(
        &mut self,
        query: &LogsQuery,
        fetched: Result<Vec<Log>, E>,
    ) -> (out: Result<Vec<Log>, E>)
        ensures
            out == fetched,
            final(self).remote() == old(self).remote(),
            final(self)@ == (CacheView {
                logs: recorded(
                    old(self)@.logs,
                    query@,
                    fetched_content(fetched),
                ),
                ..old(self)@
            }),
    {
        match fetched {
            Ok(out) => {
                self.cache.insert_logs(query.duplicate(), out.duplicate());
                Ok(out)
            },
            Err(error) => Err(error),
        }
    }

    /// Answers with logs: from the store where they are on
    /// record, else by running `fetch` against the remote source, once.
    pub fn get_logs<E, F>(
        &mut self,
        query: &LogsQuery,
        fetch: F,
    ) -> (out: Result<Vec<Log>, E>) where
        F: FnOnce(&R, &LogsQuery) -> Result<Vec<Log>, E>,

        requires
            !old(self)@.logs.contains_key(query@) ==> fetch.requires(
                (&old(self).remote(), query),
            ),
        ensures
            final(self).remote() == old(self).remote(),
            ({
                let run = serve(old(self)@.logs, query@, fetched_content(out));
                &&& run.fetches == 1 ==> fetch.ensures((&old(self).remote(), query), out)
                &&& run.fetches == 0 ==> out is Ok
                &&& fetched_content(out) == run.answer
                &&& final(self)@ == (CacheView { logs: run.table, ..old(self)@ })
            }),
    {
        match self.cache.get_logs(query) {
            Some(hit) => Ok(hit),
            None => {
                let fetched = fetch(&self.rpc, query);
                self.logs_fetched(query, fetched)
            },
        }
    }

    /// Settles a fetch that the caller has run for a transaction: what
    /// came is put on record under the query and handed on, and a failure is
    /// handed on as it came.
    pub fn transaction_fetched<E>(
        &mut self,
        query: &TxQuery,
        fetched: Result<Transaction, E>,
    ) -> (out: Result<Transaction, E>)
        ensures
            out == fetched,
            final(self).remote() == old(self).remote(),
            final(self)@ == (CacheView {
                transactions: recorded(
                    old(self)@.transactions,
                    query@,
                    fetched_content(fetched),
                ),
                ..old(self)@
            }),
    {
        match fetched {
            Ok(out) => {
                self.cache.insert_transaction(query.duplicate(), out.duplicate());
                Ok(out)
            },
            Err(error) => Err(error),
        }
    }

    /// Settles a fetch that the caller has run for blob data: what
    /// came is put on record under the block and handed on, and a failure is
    /// handed on as it came.
    pub fn blob_data_fetched<E>(
        &mut self,
        block_id: u64,
        fetched: Result<GetBlobsResponse, E>,
    ) -> (out: Result<GetBlobsResponse, E>)
        ensures
            out == fetched,
            final(self).remote() == old(self).remote(),
            final(self)@ == (CacheView {
                blobs: recorded(
                    old(self)@.blobs,
                    block_id,
                    fetched_content(fetched),
                ),
                ..old(self)@
            }),
    {
        match fetched {
            Ok(out) => {
                self.cache.insert_blob(block_id, out.duplicate());
                Ok(out)
            },
            Err(error) => Err(error),
        }
    }

    /// Answers with blob data: from the store where it is on
    /// record, else by running `fetch` against the remote source, once.
    pub fn get_blob_data<E, F>(
        &mut self,
        block_id: u64,
        fetch: F,
    ) -> (out: Result<GetBlobsResponse, E>) where
        F: FnOnce(&R, u64) -> Result<GetBlobsResponse, E>,

        requires
            !old(self)@.blobs.contains_key(block_id) ==> fetch.requires(
                (&old(self).remote(), block_id),
            ),
        ensures
            final(self).remote() == old(self).remote(),
            ({
                let run = serve(old(self)@.blobs, block_id, fetched_content(out));
                &&& run.fetches == 1 ==> fetch.ensures((&old(self).remote(), block_id), out)
                &&& run.fetches == 0 ==> out is Ok
                &&& fetched_content(out) == run.answer
                &&& final(self)@ == (CacheView { blobs: run.table, ..old(self)@ })
            }),
    {
        match self.cache.get_blob_data(block_id) {
            Some(hit) => Ok(hit),
            None => {
                let fetched = fetch(&self.rpc, block_id);
                self.blob_data_fetched(block_id, fetched)
            },
        }
    }
}

} // verus!
