//! The chain objects that travel through the cache.
//!
//! They are the types of `ethers_core` and `alloy_rpc_types`. The verifier sees
//! none of their fields: a value is carried, copied and handed back, and the few
//! questions the library asks of one are answered by the functions below, whose
//! contracts are taken on trust.

use vstd::prelude::*;
use ethers_core::types::{Block, Bytes, Log, Transaction, TransactionReceipt, H256, U256};
use alloy_rpc_types::EIP1186AccountProofResponse;
use crate::query::same_bytes;

verus! {

/// `ethers_core::types::Block`, a block as a node reports it, with its
/// transactions in the form `TX`.
#[verifier::external_type_specification]
#[verifier::external_body]
#[verifier::reject_recursive_types(TX)]
pub struct ExBlock<TX>(ethers_core::types::Block<TX>);

/// `ethers_core::types::Transaction`, a signed transaction as a node reports it.
#[verifier::external_type_specification]
#[verifier::external_body]
pub struct ExTransaction(ethers_core::types::Transaction);

/// `ethers_core::types::TransactionReceipt`, the outcome of one transaction.
#[verifier::external_type_specification]
#[verifier::external_body]
pub struct ExTransactionReceipt(ethers_core::types::TransactionReceipt);

/// `ethers_core::types::Log`, one log entry.
#[verifier::external_type_specification]
#[verifier::external_body]
pub struct ExLog(ethers_core::types::Log);

/// `ethers_core::types::Bytes`, a byte string.
#[verifier::external_type_specification]
#[verifier::external_body]
pub struct ExBytes(ethers_core::types::Bytes);

/// `ethers_core::types::H256`, a word of 32 bytes.
#[verifier::external_type_specification]
#[verifier::external_body]
pub struct ExH256(ethers_core::types::H256);

/// `ethers_core::types::U256`, an unsigned number of 256 bits.
#[verifier::external_type_specification]
#[verifier::external_body]
pub struct ExU256(ethers_core::types::U256);

/// `alloy_rpc_types::EIP1186AccountProofResponse`, what a node answers to
/// `eth_getProof`.
#[verifier::external_type_specification]
#[verifier::external_body]
pub struct ExAccountProof(alloy_rpc_types::EIP1186AccountProofResponse);

/// The transactions that a full block lists, in the block's order.
pub uninterp spec fn block_transactions(block: Block<Transaction>) -> Seq<Transaction>;

/// The 32 bytes of a transaction's hash.
pub uninterp spec fn transaction_hash(tx: Transaction) -> Seq<u8>;

/// Borrows the public field `transactions` of `Block<Transaction>`; the contract
/// gives the field's contents their name and claims nothing else.
#[verifier::external_body]
pub(crate) fn transactions_of(block: &Block<Transaction>) -> (txs: &Vec<Transaction>)
    ensures
        txs@ == block_transactions(*block),
{
    &block.transactions
}

/// Copies the bytes out of the public field `hash` of `Transaction`, an `H256`,
/// which is a tuple struct around `[u8; 32]`.
#[verifier::external_body]
pub(crate) fn hash_of(tx: &Transaction) -> (hash: [u8; 32])
    ensures
        hash@ == transaction_hash(*tx),
{
    tx.hash.0
}

/// `Transaction::clone`, which `derive(Clone)` wrote: the copy equals the value
/// it was made from.
#[verifier::external_body]
pub(crate) fn clone_transaction(tx: &Transaction) -> (copy: Transaction)
    ensures
        copy == *tx,
{
    tx.clone()
}

/// `Block::<Transaction>::clone`, which `derive(Clone)` wrote: the copy equals the
/// value it was made from.
#[verifier::external_body]
pub(crate) fn clone_full_block(block: &Block<Transaction>) -> (copy: Block<Transaction>)
    ensures
        copy == *block,
{
    block.clone()
}

/// `Block::<H256>::clone`, which `derive(Clone)` wrote: the copy equals the
/// value it was made from.
#[verifier::external_body]
pub(crate) fn clone_partial_block(block: &Block<H256>) -> (copy: Block<H256>)
    ensures
        copy == *block,
{
    block.clone()
}

/// `TransactionReceipt::clone`, which `derive(Clone)` wrote: the copy equals the
/// value it was made from.
#[verifier::external_body]
pub(crate) fn clone_receipt(receipt: &TransactionReceipt) -> (copy: TransactionReceipt)
    ensures
        copy == *receipt,
{
    receipt.clone()
}

/// `Log::clone`, which `derive(Clone)` wrote: the copy equals the value it was
/// made from.
#[verifier::external_body]
pub(crate) fn clone_log(log: &Log) -> (copy: Log)
    ensures
        copy == *log,
{
    log.clone()
}

/// `Bytes::clone`, which `derive(Clone)` wrote: the copy holds the same bytes.
#[verifier::external_body]
pub(crate) fn clone_bytes(bytes: &Bytes) -> (copy: Bytes)
    ensures
        copy == *bytes,
{
    bytes.clone()
}

/// `EIP1186AccountProofResponse::clone`, which `derive(Clone)` wrote: the copy
/// equals the value it was made from.
#[verifier::external_body]
pub(crate) fn clone_proof(
    proof: &EIP1186AccountProofResponse,
) -> (copy: EIP1186AccountProofResponse)
    ensures
        copy == *proof,
{
    proof.clone()
}

/// The first transaction among `txs` whose hash is `hash`, if there is one.
pub open spec fn first_with_hash(txs: Seq<Transaction>, hash: Seq<u8>) -> Option<Transaction>
    decreases txs.len(),
{
    if txs.len() == 0 {
        None
    } else if transaction_hash(txs[0]) == hash {
        Some(txs[0])
    } else {
        first_with_hash(txs.drop_first(), hash)
    }
}

/// Walks the block's transaction list from the front and hands out a copy of the
/// first transaction whose hash is `hash`.
pub fn find_transaction(block: &Block<Transaction>, hash: &[u8; 32]) -> (found: Option<Transaction>)
    ensures
        found == first_with_hash(block_transactions(*block), hash@),
{
    let txs = transactions_of(block);
    let mut i: usize = 0;
    assert(txs@.skip(0) =~= txs@);
    while i < txs.len()
        invariant
            i <= txs@.len(),
            txs@ == block_transactions(*block),
            first_with_hash(txs@, hash@) == first_with_hash(txs@.skip(i as int), hash@),
        decreases txs@.len() - i,
    {
        let h = hash_of(&txs[i]);
        proof {
            let rest = txs@.skip(i as int);
            assert(rest.len() > 0);
            assert(rest[0] == txs@[i as int]);
            assert(rest.drop_first() =~= txs@.skip(i + 1));
        }
        if same_bytes(&h, hash) {
            return Some(clone_transaction(&txs[i]));
        }
        i += 1;
    }
    assert(txs@.skip(i as int).len() == 0);
    None
}

/// A value that a table of the cache can hold.
///
/// The cache keeps one copy and hands out others, so a value has to say what a
/// copy preserves: its contents.
pub trait Payload: Sized {
    /// What the value says, as far as contracts speak of it.
    type Content;

    spec fn content(&self) -> Self::Content;

    /// A second value with the same contents.
    fn duplicate(&self) -> (copy: Self)
        ensures
            copy.content() == self.content(),
    ;
}

impl Payload for Block<Transaction> {
    type Content = Block<Transaction>;

    open spec fn content(&self) -> Block<Transaction> {
        *self
    }

    fn duplicate(&self) -> (copy: Self) {
        clone_full_block(self)
    }
}

impl Payload for Block<H256> {
    type Content = Block<H256>;

    open spec fn content(&self) -> Block<H256> {
        *self
    }

    fn duplicate(&self) -> (copy: Self) {
        clone_partial_block(self)
    }
}

impl Payload for Transaction {
    type Content = Transaction;

    open spec fn content(&self) -> Transaction {
        *self
    }

    fn duplicate(&self) -> (copy: Self) {
        clone_transaction(self)
    }
}

impl Payload for EIP1186AccountProofResponse {
    type Content = EIP1186AccountProofResponse;

    open spec fn content(&self) -> EIP1186AccountProofResponse {
        *self
    }

    fn duplicate(&self) -> (copy: Self) {
        clone_proof(self)
    }
}

impl Payload for Bytes {
    type Content = Bytes;

    open spec fn content(&self) -> Bytes {
        *self
    }

    fn duplicate(&self) -> (copy: Self) {
        clone_bytes(self)
    }
}

impl Payload for U256 {
    type Content = U256;

    open spec fn content(&self) -> U256 {
        *self
    }

    fn duplicate(&self) -> (copy: Self) {
        *self
    }
}

impl Payload for H256 {
    type Content = H256;

    open spec fn content(&self) -> H256 {
        *self
    }

    fn duplicate(&self) -> (copy: Self) {
        *self
    }
}

impl Payload for Vec<TransactionReceipt> {
    type Content = Seq<TransactionReceipt>;

    open spec fn content(&self) -> Seq<TransactionReceipt> {
        self@
    }

    fn duplicate(&self) -> (copy: Self) {
        let mut copy: Vec<TransactionReceipt> = Vec::new();
        let mut i: usize = 0;
        while i < self.len()
            invariant
                i <= self@.len(),
                copy@ == self@.take(i as int),
            decreases self@.len() - i,
        {
            copy.push(clone_receipt(&self[i]));
            assert(copy@ =~= self@.take(i + 1));
            i += 1;
        }
        assert(copy@ =~= self@);
        copy
    }
}

impl Payload for Vec<Log> {
    type Content = Seq<Log>;

    open spec fn content(&self) -> Seq<Log> {
        self@
    }

    fn duplicate(&self) -> (copy: Self) {
        let mut copy: Vec<Log> = Vec::new();
        let mut i: usize = 0;
        while i < self.len()
            invariant
                i <= self@.len(),
                copy@ == self@.take(i as int),
            decreases self@.len() - i,
        {
            copy.push(clone_log(&self[i]));
            assert(copy@ =~= self@.take(i + 1));
            i += 1;
        }
        assert(copy@ =~= self@);
        copy
    }
}

} // verus!
