use std::cell::Cell;

use alloy_rpc_types::EIP1186AccountProofResponse;
use cached_provider::{
    AccountQuery, BlockQuery, CacheStore, CachedRpcProvider, GetBlobData, GetBlobsResponse,
    LogsQuery, ProofQuery, StorageQuery,
};
use ethers_core::types::{Block, Bytes, Log, Transaction, TransactionReceipt, H256, U256, U64};

/// A remote source that counts how often it is asked.
struct Remote {
    calls: Cell<u32>,
}

impl Remote {
    fn asked(&self) -> u32 {
        self.calls.get()
    }

    fn answer<V>(&self, value: V) -> Result<V, String> {
        self.calls.set(self.calls.get() + 1);
        Ok(value)
    }

    fn fail<V>(&self, reason: &str) -> Result<V, String> {
        self.calls.set(self.calls.get() + 1);
        Err(reason.to_string())
    }
}

fn fresh() -> CachedRpcProvider<Remote> {
    let remote: Result<Remote, String> = Ok(Remote { calls: Cell::new(0) });
    let loaded: Result<CacheStore, String> = Err("no file".to_string());
    CachedRpcProvider::new("cache.json".to_string(), loaded, remote).unwrap()
}

fn block_100() -> Block<Transaction> {
    let mut tx = Transaction::default();
    tx.hash = H256::repeat_byte(0x11);
    let mut block = Block::<Transaction>::default();
    block.number = Some(U64::from(100));
    block.transactions = vec![tx];
    block
}

#[test]
fn full_block_is_fetched_once() {
    let mut provider = fresh();
    let query = BlockQuery { block_no: 100 };
    let first = provider.get_full_block(&query, |rpc, _| rpc.answer(block_100()));
    assert_eq!(first, Ok(block_100()));
    assert_eq!(provider.rpc().asked(), 1);
    let second = provider.get_full_block(&query, |rpc, _| rpc.answer(Block::default()));
    assert_eq!(second, Ok(block_100()));
    assert_eq!(provider.rpc().asked(), 1);
}

#[test]
fn full_blocks_are_kept_apart_by_number() {
    let mut provider = fresh();
    let mut other = Block::<Transaction>::default();
    other.number = Some(U64::from(101));
    let first = BlockQuery { block_no: 100 };
    let second = BlockQuery { block_no: 101 };
    let a = provider.get_full_block(&first, |rpc, _| rpc.answer(block_100()));
    let b = provider.get_full_block(&second, |rpc, _| rpc.answer(other.clone()));
    assert_eq!(a, Ok(block_100()));
    assert_eq!(b, Ok(other.clone()));
    assert_eq!(provider.rpc().asked(), 2);
    let again = provider.get_full_block(&second, |rpc, _| rpc.fail("down"));
    assert_eq!(again, Ok(other));
    assert_eq!(provider.rpc().asked(), 2);
}

#[test]
fn the_fetch_sees_the_query() {
    let mut provider = fresh();
    let seen = Cell::new(0u64);
    let out = provider.get_full_block(&BlockQuery { block_no: 77 }, |rpc, query| {
        seen.set(query.block_no);
        rpc.answer(block_100())
    });
    assert!(out.is_ok());
    assert_eq!(seen.get(), 77);
}

#[test]
fn partial_block_is_fetched_once() {
    let mut provider = fresh();
    let mut block = Block::<H256>::default();
    block.number = Some(U64::from(5));
    block.transactions = vec![H256::repeat_byte(1), H256::repeat_byte(2)];
    let query = BlockQuery { block_no: 5 };
    let first = provider.get_partial_block(&query, |rpc, _| rpc.answer(block.clone()));
    assert_eq!(first, Ok(block.clone()));
    let second = provider.get_partial_block(&query, |rpc, _| rpc.fail("down"));
    assert_eq!(second, Ok(block));
    assert_eq!(provider.rpc().asked(), 1);
}

#[test]
fn full_and_partial_blocks_do_not_share_a_table() {
    let mut provider = fresh();
    let query = BlockQuery { block_no: 100 };
    let full = provider.get_full_block(&query, |rpc, _| rpc.answer(block_100()));
    assert!(full.is_ok());
    let partial = provider.get_partial_block(&query, |rpc, _| rpc.fail("down"));
    assert_eq!(partial, Err("down".to_string()));
    assert_eq!(provider.rpc().asked(), 2);
}

#[test]
fn block_receipts_are_fetched_once() {
    let mut provider = fresh();
    let mut one = TransactionReceipt::default();
    one.transaction_hash = H256::repeat_byte(7);
    let mut two = TransactionReceipt::default();
    two.transaction_index = U64::from(1);
    let receipts = vec![one, two];
    let query = BlockQuery { block_no: 9 };
    let first = provider.get_block_receipts(&query, |rpc, _| rpc.answer(receipts.clone()));
    assert_eq!(first, Ok(receipts.clone()));
    let second = provider.get_block_receipts(&query, |rpc, _| rpc.answer(Vec::new()));
    assert_eq!(second, Ok(receipts));
    assert_eq!(provider.rpc().asked(), 1);
}

#[test]
fn proof_is_fetched_once() {
    let mut provider = fresh();
    let mut proof = EIP1186AccountProofResponse::default();
    proof.nonce = 42;
    let query = ProofQuery {
        block_no: 3,
        address: [9; 20],
        indices: vec![[1; 32], [2; 32]],
    };
    let first = provider.get_proof(&query, |rpc, _| rpc.answer(proof.clone()));
    assert_eq!(first, Ok(proof.clone()));
    let second = provider.get_proof(&query, |rpc, _| rpc.fail("down"));
    assert_eq!(second, Ok(proof));
    assert_eq!(provider.rpc().asked(), 1);
}

#[test]
fn proof_slots_are_a_set() {
    let mut provider = fresh();
    let mut proof = EIP1186AccountProofResponse::default();
    proof.nonce = 1;
    let asked = ProofQuery { block_no: 3, address: [9; 20], indices: vec![[1; 32], [2; 32]] };
    let reordered =
        ProofQuery { block_no: 3, address: [9; 20], indices: vec![[2; 32], [1; 32], [2; 32]] };
    let fewer = ProofQuery { block_no: 3, address: [9; 20], indices: vec![[1; 32]] };
    let first = provider.get_proof(&asked, |rpc, _| rpc.answer(proof.clone()));
    assert_eq!(first, Ok(proof.clone()));
    let same = provider.get_proof(&reordered, |rpc, _| rpc.fail("down"));
    assert_eq!(same, Ok(proof));
    assert_eq!(provider.rpc().asked(), 1);
    let other = provider.get_proof(&fewer, |rpc, _| rpc.fail("down"));
    assert_eq!(other, Err("down".to_string()));
    assert_eq!(provider.rpc().asked(), 2);
}

#[test]
fn transaction_count_is_fetched_once() {
    let mut provider = fresh();
    let query = AccountQuery { block_no: 1, address: [3; 20] };
    let first = provider.get_transaction_count(&query, |rpc, _| rpc.answer(U256::from(17)));
    assert_eq!(first, Ok(U256::from(17)));
    let second = provider.get_transaction_count(&query, |rpc, _| rpc.answer(U256::from(18)));
    assert_eq!(second, Ok(U256::from(17)));
    assert_eq!(provider.rpc().asked(), 1);
}

#[test]
fn balance_is_fetched_once() {
    let mut provider = fresh();
    let query = AccountQuery { block_no: 1, address: [3; 20] };
    let first = provider.get_balance(&query, |rpc, _| rpc.answer(U256::from(1_000_000)));
    assert_eq!(first, Ok(U256::from(1_000_000)));
    let second = provider.get_balance(&query, |rpc, _| rpc.fail("down"));
    assert_eq!(second, Ok(U256::from(1_000_000)));
    assert_eq!(provider.rpc().asked(), 1);
}

#[test]
fn code_is_fetched_once() {
    let mut provider = fresh();
    let query = AccountQuery { block_no: 1, address: [3; 20] };
    let code = Bytes::from(vec![0x60, 0x80, 0x60, 0x40]);
    let first = provider.get_code(&query, |rpc, _| rpc.answer(code.clone()));
    assert_eq!(first, Ok(code.clone()));
    let second = provider.get_code(&query, |rpc, _| rpc.fail("down"));
    assert_eq!(second, Ok(code));
    assert_eq!(provider.rpc().asked(), 1);
}

#[test]
fn account_kinds_do_not_share_a_table() {
    let mut provider = fresh();
    let query = AccountQuery { block_no: 1, address: [3; 20] };
    let count = provider.get_transaction_count(&query, |rpc, _| rpc.answer(U256::from(5)));
    let balance = provider.get_balance(&query, |rpc, _| rpc.answer(U256::from(6)));
    let code = provider.get_code(&query, |rpc, _| rpc.answer(Bytes::from(vec![7])));
    assert_eq!(count, Ok(U256::from(5)));
    assert_eq!(balance, Ok(U256::from(6)));
    assert_eq!(code, Ok(Bytes::from(vec![7])));
    assert_eq!(provider.rpc().asked(), 3);
}

#[test]
fn accounts_differ_by_address_and_by_block() {
    let mut provider = fresh();
    let here = AccountQuery { block_no: 1, address: [3; 20] };
    let mut other_address = [3; 20];
    other_address[19] = 4;
    let there = AccountQuery { block_no: 1, address: other_address };
    let later = AccountQuery { block_no: 2, address: [3; 20] };
    assert_eq!(provider.get_balance(&here, |rpc, _| rpc.answer(U256::from(1))), Ok(U256::from(1)));
    assert_eq!(provider.get_balance(&there, |rpc, _| rpc.answer(U256::from(2))), Ok(U256::from(2)));
    assert_eq!(provider.get_balance(&later, |rpc, _| rpc.answer(U256::from(3))), Ok(U256::from(3)));
    assert_eq!(provider.rpc().asked(), 3);
    assert_eq!(provider.get_balance(&here, |rpc, _| rpc.fail("down")), Ok(U256::from(1)));
    assert_eq!(provider.get_balance(&there, |rpc, _| rpc.fail("down")), Ok(U256::from(2)));
    assert_eq!(provider.get_balance(&later, |rpc, _| rpc.fail("down")), Ok(U256::from(3)));
    assert_eq!(provider.rpc().asked(), 3);
}

#[test]
fn storage_is_fetched_once() {
    let mut provider = fresh();
    let query = StorageQuery { block_no: 1, address: [3; 20], index: [8; 32] };
    let first = provider.get_storage(&query, |rpc, _| rpc.answer(H256::repeat_byte(0xEE)));
    assert_eq!(first, Ok(H256::repeat_byte(0xEE)));
    let second = provider.get_storage(&query, |rpc, _| rpc.answer(H256::zero()));
    assert_eq!(second, Ok(H256::repeat_byte(0xEE)));
    assert_eq!(provider.rpc().asked(), 1);
    let mut slot = [8; 32];
    slot[0] = 0;
    let next = StorageQuery { block_no: 1, address: [3; 20], index: slot };
    let third = provider.get_storage(&next, |rpc, _| rpc.answer(H256::zero()));
    assert_eq!(third, Ok(H256::zero()));
    assert_eq!(provider.rpc().asked(), 2);
}

#[test]
fn logs_are_fetched_once() {
    let mut provider = fresh();
    let mut log = Log::default();
    log.topics = vec![H256::repeat_byte(5)];
    let logs = vec![log, Log::default()];
    let query = LogsQuery { address: [1; 20], from_block: 10, to_block: 20 };
    let first = provider.get_logs(&query, |rpc, _| rpc.answer(logs.clone()));
    assert_eq!(first, Ok(logs.clone()));
    let second = provider.get_logs(&query, |rpc, _| rpc.fail("down"));
    assert_eq!(second, Ok(logs));
    assert_eq!(provider.rpc().asked(), 1);
    let wider = LogsQuery { address: [1; 20], from_block: 10, to_block: 21 };
    let third = provider.get_logs(&wider, |rpc, _| rpc.answer(Vec::new()));
    assert_eq!(third, Ok(Vec::new()));
    assert_eq!(provider.rpc().asked(), 2);
}

#[test]
fn blob_data_is_fetched_once() {
    let mut provider = fresh();
    let blobs = GetBlobsResponse {
        data: vec![GetBlobData {
            index: "0".to_string(),
            blob: "0xabcdef".to_string(),
            kzg_commitment: "0x01".to_string(),
            kzg_proof: "0x02".to_string(),
            kzg_commitment_inclusion_proof: vec!["0x03".to_string(), "0x04".to_string()],
        }],
    };
    let first = provider.get_blob_data(12, |rpc, _| rpc.answer(blobs.clone()));
    assert_eq!(first, Ok(blobs.clone()));
    let second = provider.get_blob_data(12, |rpc, _| rpc.answer(GetBlobsResponse::default()));
    assert_eq!(second, Ok(blobs));
    assert_eq!(provider.rpc().asked(), 1);
}

#[test]
fn a_failure_is_handed_on_and_not_recorded() {
    let mut provider = fresh();
    let query = BlockQuery { block_no: 100 };
    let first = provider.get_full_block(&query, |rpc, _| rpc.fail("connection refused"));
    assert_eq!(first, Err("connection refused".to_string()));
    assert_eq!(provider.rpc().asked(), 1);
    assert_eq!(provider.cache().get_full_block(&query), None);
    let second = provider.get_full_block(&query, |rpc, _| rpc.fail("timed out"));
    assert_eq!(second, Err("timed out".to_string()));
    assert_eq!(provider.rpc().asked(), 2);
    let third = provider.get_full_block(&query, |rpc, _| rpc.answer(block_100()));
    assert_eq!(third, Ok(block_100()));
    assert_eq!(provider.rpc().asked(), 3);
}

#[test]
fn a_settled_fetch_is_on_record() {
    let mut provider = fresh();
    let query = AccountQuery { block_no: 4, address: [0; 20] };
    let fetched: Result<U256, String> = Ok(U256::from(99));
    assert_eq!(provider.balance_fetched(&query, fetched), Ok(U256::from(99)));
    assert_eq!(provider.cache().get_balance(&query), Some(U256::from(99)));
    assert_eq!(provider.cache().get_transaction_count(&query), None);
    let failed: Result<U256, String> = Err("down".to_string());
    let other = AccountQuery { block_no: 5, address: [0; 20] };
    assert_eq!(provider.balance_fetched(&other, failed), Err("down".to_string()));
    assert_eq!(provider.cache().get_balance(&other), None);
}
