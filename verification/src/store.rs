//! The cache store: one table for each kind of query, and the place where the
//! tables are kept between runs.
//!
//! The store lives in memory. It changes only when an entry is put in, it never
//! drops an entry, and reading or writing the place it names is left to the
//! caller.
//!
//! A lookup either finds an entry or finds none: the store does not tell a
//! query that was never answered from one whose entry was lost or could not be
//! read back, and whoever asks goes to the remote source in both cases.

use vstd::prelude::*;
use alloy_rpc_types::EIP1186AccountProofResponse;
use ethers_core::types::{Block, Bytes, Log, Transaction, TransactionReceipt, H256, U256};
use crate::blob::{BlobContent, GetBlobsResponse};
use crate::chain::Payload;
use crate::query::{
    AccountKey, AccountQuery, BlockQuery, LogsKey, LogsQuery, ProofKey, ProofQuery, StorageKey,
    StorageQuery, TxKey, TxQuery,
};
use crate::table::Table;

verus! {

/// What a store holds: for each kind of query, the answers on record.
pub struct CacheView {
    pub file_path: Seq<char>,
    pub full_blocks: Map<u64, Block<Transaction>>,
    pub partial_blocks: Map<u64, Block<H256>>,
    pub block_receipts: Map<u64, Seq<TransactionReceipt>>,
    pub proofs: Map<ProofKey, EIP1186AccountProofResponse>,
    pub transaction_counts: Map<AccountKey, U256>,
    pub balances: Map<AccountKey, U256>,
    pub codes: Map<AccountKey, Bytes>,
    pub storage: Map<StorageKey, H256>,
    pub logs: Map<LogsKey, Seq<Log>>,
    pub transactions: Map<TxKey, Transaction>,
    pub blobs: Map<u64, Seq<BlobContent>>,
}

impl CacheView {
    /// The store at `file_path` with nothing on record.
    pub open spec fn empty(file_path: Seq<char>) -> CacheView {
        CacheView {
            file_path,
            full_blocks: Map::empty(),
            partial_blocks: Map::empty(),
            block_receipts: Map::empty(),
            proofs: Map::empty(),
            transaction_counts: Map::empty(),
            balances: Map::empty(),
            codes: Map::empty(),
            storage: Map::empty(),
            logs: Map::empty(),
            transactions: Map::empty(),
            blobs: Map::empty(),
        }
    }
}

/// The cache store.
pub struct CacheStore {
    pub file_path: String,
    pub full_blocks: Table<BlockQuery, Block<Transaction>>,
    pub partial_blocks: Table<BlockQuery, Block<H256>>,
    pub block_receipts: Table<BlockQuery, Vec<TransactionReceipt>>,
    pub proofs: Table<ProofQuery, EIP1186AccountProofResponse>,
    pub transaction_counts: Table<AccountQuery, U256>,
    pub balances: Table<AccountQuery, U256>,
    pub codes: Table<AccountQuery, Bytes>,
    pub storage: Table<StorageQuery, H256>,
    pub logs: Table<LogsQuery, Vec<Log>>,
    pub transactions: Table<TxQuery, Transaction>,
    pub blobs: Table<u64, GetBlobsResponse>,
}

impl View for CacheStore {
    type V = CacheView;

    open spec fn view(&self) -> CacheView {
        CacheView {
            file_path: self.file_path@,
            full_blocks: self.full_blocks@,
            partial_blocks: self.partial_blocks@,
            block_receipts: self.block_receipts@,
            proofs: self.proofs@,
            transaction_counts: self.transaction_counts@,
            balances: self.balances@,
            codes: self.codes@,
            storage: self.storage@,
            logs: self.logs@,
            transactions: self.transactions@,
            blobs: self.blobs@,
        }
    }
}

impl CacheStore {
    /// A store that is to be kept at `file_path` and holds nothing yet.
    pub fn empty(file_path: String) -> (store: Self)
        ensures
            store@ == CacheView::empty(file_path@),
    {
        CacheStore {
            file_path,
            full_blocks: Table::new(),
            partial_blocks: Table::new(),
            block_receipts: Table::new(),
            proofs: Table::new(),
            transaction_counts: Table::new(),
            balances: Table::new(),
            codes: Table::new(),
            storage: Table::new(),
            logs: Table::new(),
            transactions: Table::new(),
            blobs: Table::new(),
        }
    }

    /// The same store, to be kept at `file_path` from now on.
    pub fn kept_at(self, file_path: String) -> (store: Self)
        ensures
            store@ == (CacheView { file_path: file_path@, ..self@ }),
    {
        let mut store = self;
        store.file_path = file_path;
        store
    }

    /// The full block on record for the query, copied.
    pub fn get_full_block(&self, query: &BlockQuery) -> (hit: Option<Block<Transaction>>)
        ensures
            hit == self@.full_blocks.get(query@),
    {
        self.full_blocks.get(query)
    }

    /// Puts a full block on record under the query, in memory only.
    pub fn insert_full_block(&mut self, query: BlockQuery, val: Block<Transaction>)
        ensures
            final(self)@ == (CacheView {
                full_blocks: old(self)@.full_blocks.insert(query@, val),
                ..old(self)@
            }),
    {
        self.full_blocks.insert(query, val);
    }

    /// The partial block on record for the query, copied.
    pub fn get_partial_block(&self, query: &BlockQuery) -> (hit: Option<Block<H256>>)
        ensures
            hit == self@.partial_blocks.get(query@),
    {
        self.partial_blocks.get(query)
    }

    /// Puts a partial block on record under the query, in memory only.
    pub fn insert_partial_block(&mut self, query: BlockQuery, val: Block<H256>)
        ensures
            final(self)@ == (CacheView {
                partial_blocks: old(self)@.partial_blocks.insert(query@, val),
                ..old(self)@
            }),
    {
        self.partial_blocks.insert(query, val);
    }

    /// The receipts of a block on record for the query, copied.
    pub fn get_block_receipts(&self, query: &BlockQuery) -> (hit: Option<Vec<TransactionReceipt>>)
        ensures
            match hit {
                Some(val) => self@.block_receipts.get(query@) == Some(val.content()),
                None => !self@.block_receipts.contains_key(query@),
            },
    {
        self.block_receipts.get(query)
    }

    /// Puts the receipts of a block on record under the query, in memory only.
    pub fn insert_block_receipts(&mut self, query: BlockQuery, val: Vec<TransactionReceipt>)
        ensures
            final(self)@ == (CacheView {
                block_receipts: old(self)@.block_receipts.insert(query@, val.content()),
                ..old(self)@
            }),
    {
        self.block_receipts.insert(query, val);
    }

    /// The proof on record for the query, copied.
    pub fn get_proof(&self, query: &ProofQuery) -> (hit: Option<EIP1186AccountProofResponse>)
        ensures
            hit == self@.proofs.get(query@),
    {
        self.proofs.get(query)
    }

    /// Puts a proof on record under the query, in memory only.
    pub fn insert_proof(&mut self, query: ProofQuery, val: EIP1186AccountProofResponse)
        ensures
            final(self)@ == (CacheView {
                proofs: old(self)@.proofs.insert(query@, val),
                ..old(self)@
            }),
    {
        self.proofs.insert(query, val);
    }

    /// The transaction count on record for the query, copied.
    pub fn get_transaction_count(&self, query: &AccountQuery) -> (hit: Option<U256>)
        ensures
            hit == self@.transaction_counts.get(query@),
    {
        self.transaction_counts.get(query)
    }

    /// Puts a transaction count on record under the query, in memory only.
    pub fn insert_transaction_count(&mut self, query: AccountQuery, val: U256)
        ensures
            final(self)@ == (CacheView {
                transaction_counts: old(self)@.transaction_counts.insert(query@, val),
                ..old(self)@
            }),
    {
        self.transaction_counts.insert(query, val);
    }

    /// The balance on record for the query, copied.
    pub fn get_balance(&self, query: &AccountQuery) -> (hit: Option<U256>)
        ensures
            hit == self@.balances.get(query@),
    {
        self.balances.get(query)
    }

    /// Puts a balance on record under the query, in memory only.
    pub fn insert_balance(&mut self, query: AccountQuery, val: U256)
        ensures
            final(self)@ == (CacheView {
                balances: old(self)@.balances.insert(query@, val),
                ..old(self)@
            }),
    {
        self.balances.insert(query, val);
    }

    /// The code of an account on record for the query, copied.
    pub fn get_code(&self, query: &AccountQuery) -> (hit: Option<Bytes>)
        ensures
            hit == self@.codes.get(query@),
    {
        self.codes.get(query)
    }

    /// Puts the code of an account on record under the query, in memory only.
    pub fn insert_code(&mut self, query: AccountQuery, val: Bytes)
        ensures
            final(self)@ == (CacheView {
                codes: old(self)@.codes.insert(query@, val),
                ..old(self)@
            }),
    {
        self.codes.insert(query, val);
    }

    /// The storage value on record for the query, copied.
    pub fn get_storage(&self, query: &StorageQuery) -> (hit: Option<H256>)
        ensures
            hit == self@.storage.get(query@),
    {
        self.storage.get(query)
    }

    /// Puts a storage value on record under the query, in memory only.
    pub fn insert_storage(&mut self, query: StorageQuery, val: H256)
        ensures
            final(self)@ == (CacheView {
                storage: old(self)@.storage.insert(query@, val),
                ..old(self)@
            }),
    {
        self.storage.insert(query, val);
    }

    /// The logs on record for the query, copied.
    pub fn get_logs(&self, query: &LogsQuery) -> (hit: Option<Vec<Log>>)
        ensures
            match hit {
                Some(val) => self@.logs.get(query@) == Some(val.content()),
                None => !self@.logs.contains_key(query@),
            },
    {
        self.logs.get(query)
    }

    /// Puts logs on record under the query, in memory only.
    pub fn insert_logs(&mut self, query: LogsQuery, val: Vec<Log>)
        ensures
            final(self)@ == (CacheView {
                logs: old(self)@.logs.insert(query@, val.content()),
                ..old(self)@
            }),
    {
        self.logs.insert(query, val);
    }

    /// The transaction on record for the query, copied.
    pub fn get_transaction(&self, query: &TxQuery) -> (hit: Option<Transaction>)
        ensures
            hit == self@.transactions.get(query@),
    {
        self.transactions.get(query)
    }

    /// Puts a transaction on record under the query, in memory only.
    pub fn insert_transaction(&mut self, query: TxQuery, val: Transaction)
        ensures
            final(self)@ == (CacheView {
                transactions: old(self)@.transactions.insert(query@, val),
                ..old(self)@
            }),
    {
        self.transactions.insert(query, val);
    }

    /// The blob data on record for the block, copied.
    pub fn get_blob_data(&self, block_id: u64) -> (hit: Option<GetBlobsResponse>)
        ensures
            match hit {
                Some(val) => self@.blobs.get(block_id) == Some(val.content()),
                None => !self@.blobs.contains_key(block_id),
            },
    {
        self.blobs.get(&block_id)
    }

    /// Puts blob data on record under the block, in memory only.
    pub fn insert_blob(&mut self, block_id: u64, val: GetBlobsResponse)
        ensures
            final(self)@ == (CacheView {
                blobs: old(self)@.blobs.insert(block_id, val.content()),
                ..old(self)@
            }),
    {
        self.blobs.insert(block_id, val);
    }
}

} // verus!
