use std::cell::Cell;

use cached_provider::chain::find_transaction;
use cached_provider::{BlockQuery, CacheStore, CachedRpcProvider, TxQuery, TxStep};
use ethers_core::types::{Block, Transaction, H256, U256, U64};

/// A remote source that counts the block fetches and the transaction fetches.
struct Remote {
    blocks: Cell<u32>,
    transactions: Cell<u32>,
}

impl Remote {
    fn block(&self, block: Block<Transaction>) -> Result<Block<Transaction>, String> {
        self.blocks.set(self.blocks.get() + 1);
        Ok(block)
    }

    fn no_block(&self) -> Result<Block<Transaction>, String> {
        self.blocks.set(self.blocks.get() + 1);
        Err("no such block".to_string())
    }

    fn transaction(&self, tx: Transaction) -> Result<Transaction, String> {
        self.transactions.set(self.transactions.get() + 1);
        Ok(tx)
    }

    fn no_transaction(&self) -> Result<Transaction, String> {
        self.transactions.set(self.transactions.get() + 1);
        Err("no such transaction".to_string())
    }
}

fn tx(hash_byte: u8, nonce: u64) -> Transaction {
    let mut tx = Transaction::default();
    tx.hash = H256::repeat_byte(hash_byte);
    tx.nonce = U256::from(nonce);
    tx
}

fn block(number: u64, transactions: Vec<Transaction>) -> Block<Transaction> {
    let mut block = Block::<Transaction>::default();
    block.number = Some(U64::from(number));
    block.transactions = transactions;
    block
}

fn provider_with(store: CacheStore) -> CachedRpcProvider<Remote> {
    let remote: Result<Remote, String> =
        Ok(Remote { blocks: Cell::new(0), transactions: Cell::new(0) });
    let loaded: Result<CacheStore, String> = Ok(store);
    CachedRpcProvider::new("cache.json".to_string(), loaded, remote).unwrap()
}

fn store_with_block_50() -> CacheStore {
    let mut store = CacheStore::empty("cache.json".to_string());
    store.insert_full_block(BlockQuery { block_no: 50 }, block(50, vec![tx(0xAA, 1)]));
    store
}

#[test]
fn transaction_in_a_recorded_block_needs_no_fetch() {
    let mut provider = provider_with(store_with_block_50());
    let query = TxQuery { tx_hash: [0xAA; 32], block_no: Some(50) };
    let out = provider.get_transaction(
        &query,
        |rpc: &Remote, _: &BlockQuery| rpc.no_block(),
        |rpc: &Remote, _: &TxQuery| rpc.no_transaction(),
    );
    assert_eq!(out, Ok(tx(0xAA, 1)));
    assert_eq!(provider.rpc().blocks.get(), 0);
    assert_eq!(provider.rpc().transactions.get(), 0);
    assert_eq!(provider.cache().get_transaction(&query), None);
}

#[test]
fn transaction_missing_from_a_recorded_block_is_fetched_once() {
    let mut provider = provider_with(store_with_block_50());
    let query = TxQuery { tx_hash: [0xBB; 32], block_no: Some(50) };
    let out = provider.get_transaction(
        &query,
        |rpc: &Remote, _: &BlockQuery| rpc.no_block(),
        |rpc: &Remote, _: &TxQuery| rpc.transaction(tx(0xBB, 2)),
    );
    assert_eq!(out, Ok(tx(0xBB, 2)));
    assert_eq!(provider.rpc().blocks.get(), 0);
    assert_eq!(provider.rpc().transactions.get(), 1);
    let again = provider.get_transaction(
        &query,
        |rpc: &Remote, _: &BlockQuery| rpc.no_block(),
        |rpc: &Remote, _: &TxQuery| rpc.no_transaction(),
    );
    assert_eq!(again, Ok(tx(0xBB, 2)));
    assert_eq!(provider.rpc().blocks.get(), 0);
    assert_eq!(provider.rpc().transactions.get(), 1);
    assert_eq!(provider.cache().get_transaction(&query), Some(tx(0xBB, 2)));
}

#[test]
fn transaction_without_a_block_number_is_fetched_once() {
    let mut provider = provider_with(store_with_block_50());
    let query = TxQuery { tx_hash: [0xAA; 32], block_no: None };
    let out = provider.get_transaction(
        &query,
        |rpc: &Remote, _: &BlockQuery| rpc.no_block(),
        |rpc: &Remote, _: &TxQuery| rpc.transaction(tx(0xAA, 9)),
    );
    assert_eq!(out, Ok(tx(0xAA, 9)));
    assert_eq!(provider.rpc().blocks.get(), 0);
    assert_eq!(provider.rpc().transactions.get(), 1);
    let again = provider.get_transaction(
        &query,
        |rpc: &Remote, _: &BlockQuery| rpc.no_block(),
        |rpc: &Remote, _: &TxQuery| rpc.no_transaction(),
    );
    assert_eq!(again, Ok(tx(0xAA, 9)));
    assert_eq!(provider.rpc().transactions.get(), 1);
}

#[test]
fn the_entry_under_the_query_wins_over_the_block() {
    let mut store = store_with_block_50();
    let query = TxQuery { tx_hash: [0xAA; 32], block_no: Some(50) };
    store.insert_transaction(query, tx(0xAA, 77));
    let mut provider = provider_with(store);
    let out = provider.get_transaction(
        &query,
        |rpc: &Remote, _: &BlockQuery| rpc.no_block(),
        |rpc: &Remote, _: &TxQuery| rpc.no_transaction(),
    );
    assert_eq!(out, Ok(tx(0xAA, 77)));
    assert_eq!(provider.rpc().blocks.get(), 0);
    assert_eq!(provider.rpc().transactions.get(), 0);
}

#[test]
fn a_block_not_on_record_is_fetched_and_recorded() {
    let mut provider = provider_with(CacheStore::empty("cache.json".to_string()));
    let query = TxQuery { tx_hash: [0xCC; 32], block_no: Some(60) };
    let asked_for = Cell::new(0u64);
    let out = provider.get_transaction(
        &query,
        |rpc: &Remote, wanted: &BlockQuery| {
            asked_for.set(wanted.block_no);
            rpc.block(block(60, vec![tx(0xAB, 1), tx(0xCC, 2)]))
        },
        |rpc: &Remote, _: &TxQuery| rpc.no_transaction(),
    );
    assert_eq!(out, Ok(tx(0xCC, 2)));
    assert_eq!(asked_for.get(), 60);
    assert_eq!(provider.rpc().blocks.get(), 1);
    assert_eq!(provider.rpc().transactions.get(), 0);
    assert_eq!(
        provider.cache().get_full_block(&BlockQuery { block_no: 60 }),
        Some(block(60, vec![tx(0xAB, 1), tx(0xCC, 2)]))
    );
    assert_eq!(provider.cache().get_transaction(&query), None);
    let again = provider.get_transaction(
        &query,
        |rpc: &Remote, _: &BlockQuery| rpc.no_block(),
        |rpc: &Remote, _: &TxQuery| rpc.no_transaction(),
    );
    assert_eq!(again, Ok(tx(0xCC, 2)));
    assert_eq!(provider.rpc().blocks.get(), 1);
    assert_eq!(provider.rpc().transactions.get(), 0);
}

#[test]
fn a_fetched_block_without_the_hash_leads_to_the_transaction_fetch() {
    let mut provider = provider_with(CacheStore::empty("cache.json".to_string()));
    let query = TxQuery { tx_hash: [0xDD; 32], block_no: Some(60) };
    let out = provider.get_transaction(
        &query,
        |rpc: &Remote, _: &BlockQuery| rpc.block(block(60, vec![tx(0xAB, 1)])),
        |rpc: &Remote, _: &TxQuery| rpc.transaction(tx(0xDD, 5)),
    );
    assert_eq!(out, Ok(tx(0xDD, 5)));
    assert_eq!(provider.rpc().blocks.get(), 1);
    assert_eq!(provider.rpc().transactions.get(), 1);
    assert_eq!(provider.cache().get_transaction(&query), Some(tx(0xDD, 5)));
    assert!(provider.cache().get_full_block(&BlockQuery { block_no: 60 }).is_some());
}

#[test]
fn a_failed_block_fetch_leads_to_the_transaction_fetch() {
    let mut provider = provider_with(CacheStore::empty("cache.json".to_string()));
    let query = TxQuery { tx_hash: [0xDD; 32], block_no: Some(60) };
    let out = provider.get_transaction(
        &query,
        |rpc: &Remote, _: &BlockQuery| rpc.no_block(),
        |rpc: &Remote, _: &TxQuery| rpc.transaction(tx(0xDD, 5)),
    );
    assert_eq!(out, Ok(tx(0xDD, 5)));
    assert_eq!(provider.rpc().blocks.get(), 1);
    assert_eq!(provider.rpc().transactions.get(), 1);
    assert_eq!(provider.cache().get_full_block(&BlockQuery { block_no: 60 }), None);
}

#[test]
fn a_failed_transaction_fetch_is_handed_on_and_not_recorded() {
    let mut provider = provider_with(store_with_block_50());
    let query = TxQuery { tx_hash: [0xBB; 32], block_no: Some(50) };
    let out = provider.get_transaction(
        &query,
        |rpc: &Remote, _: &BlockQuery| rpc.no_block(),
        |rpc: &Remote, _: &TxQuery| rpc.no_transaction(),
    );
    assert_eq!(out, Err("no such transaction".to_string()));
    assert_eq!(provider.cache().get_transaction(&query), None);
    let again = provider.get_transaction(
        &query,
        |rpc: &Remote, _: &BlockQuery| rpc.no_block(),
        |rpc: &Remote, _: &TxQuery| rpc.transaction(tx(0xBB, 3)),
    );
    assert_eq!(again, Ok(tx(0xBB, 3)));
    assert_eq!(provider.rpc().transactions.get(), 2);
}

#[test]
fn queries_with_and_without_block_number_are_different_queries() {
    let mut provider = provider_with(CacheStore::empty("cache.json".to_string()));
    let bare = TxQuery { tx_hash: [0xEE; 32], block_no: None };
    let scoped = TxQuery { tx_hash: [0xEE; 32], block_no: Some(50) };
    let fetched: Result<Transaction, String> = Ok(tx(0xEE, 1));
    assert_eq!(provider.transaction_fetched(&bare, fetched), Ok(tx(0xEE, 1)));
    assert_eq!(provider.transaction_step(&bare), TxStep::Found(tx(0xEE, 1)));
    assert_eq!(
        provider.transaction_step(&scoped),
        TxStep::FetchBlock(BlockQuery { block_no: 50 })
    );
}

#[test]
fn the_steps_of_a_lookup() {
    let mut provider = provider_with(store_with_block_50());
    let held = TxQuery { tx_hash: [0xAA; 32], block_no: Some(50) };
    let absent = TxQuery { tx_hash: [0xBB; 32], block_no: Some(50) };
    let elsewhere = TxQuery { tx_hash: [0xBB; 32], block_no: Some(51) };
    let bare = TxQuery { tx_hash: [0xBB; 32], block_no: None };
    assert_eq!(provider.transaction_step(&held), TxStep::Found(tx(0xAA, 1)));
    assert_eq!(provider.transaction_step(&absent), TxStep::FetchTransaction);
    assert_eq!(
        provider.transaction_step(&elsewhere),
        TxStep::FetchBlock(BlockQuery { block_no: 51 })
    );
    assert_eq!(provider.transaction_step(&bare), TxStep::FetchTransaction);

    let came: Result<Block<Transaction>, String> = Ok(block(51, vec![tx(0xBB, 4)]));
    assert_eq!(provider.transaction_block_fetched(&elsewhere, came), Some(tx(0xBB, 4)));
    assert_eq!(provider.transaction_step(&elsewhere), TxStep::Found(tx(0xBB, 4)));
    assert_eq!(provider.cache().get_transaction(&elsewhere), None);

    let failed: Result<Block<Transaction>, String> = Err("down".to_string());
    let further = TxQuery { tx_hash: [0xBB; 32], block_no: Some(52) };
    assert_eq!(provider.transaction_block_fetched(&further, failed), None);
    assert_eq!(provider.cache().get_full_block(&BlockQuery { block_no: 52 }), None);

    let ignored: Result<Block<Transaction>, String> = Ok(block(1, vec![tx(0xBB, 4)]));
    assert_eq!(provider.transaction_block_fetched(&bare, ignored), None);
    assert_eq!(provider.cache().get_full_block(&BlockQuery { block_no: 1 }), None);
}

#[test]
fn the_first_transaction_with_the_hash_is_found() {
    let listed = block(1, vec![tx(0x01, 1), tx(0x02, 2), tx(0x02, 3), tx(0x03, 4)]);
    assert_eq!(find_transaction(&listed, &[0x02; 32]), Some(tx(0x02, 2)));
    assert_eq!(find_transaction(&listed, &[0x03; 32]), Some(tx(0x03, 4)));
    assert_eq!(find_transaction(&listed, &[0x04; 32]), None);
    assert_eq!(find_transaction(&block(2, Vec::new()), &[0x01; 32]), None);
    let mut almost = [0x02; 32];
    almost[31] = 0x03;
    assert_eq!(find_transaction(&listed, &almost), None);
}
