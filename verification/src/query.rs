//! The queries that the cache is keyed by.
//!
//! A query is a plain value. Two queries ask for the same thing exactly when
//! their views are equal, and that is the only identity the cache knows.

use vstd::prelude::*;

verus! {

/// A value that can key a table of the cache.
pub trait Key: View + Sized {
    /// Whether `self` and `other` ask for the same thing.
    fn same(&self, other: &Self) -> (same: bool)
        ensures
            same == (self@ == other@),
    ;

    /// A second key that asks for what `self` asks for.
    fn duplicate(&self) -> (copy: Self)
        ensures
            copy@ == self@,
    ;
}

/// Whether two byte arrays of one length hold the same bytes.
pub fn same_bytes<const N: usize>(a: &[u8; N], b: &[u8; N]) -> (same: bool)
    ensures
        same == (a@ == b@),
{
    let mut i: usize = 0;
    while i < N
        invariant
            i <= N,
            forall|j: int| 0 <= j < i ==> a@[j] == b@[j],
        decreases N - i,
    {
        if a[i] != b[i] {
            assert(a@[i as int] != b@[i as int]);
            return false;
        }
        i += 1;
    }
    assert(a@ =~= b@);
    true
}

/// A block, by its number.
#[derive(Clone, Copy, Debug, PartialEq, Eq, Hash)]
pub struct BlockQuery {
    pub block_no: u64,
}

impl View for BlockQuery {
    type V = u64;

    open spec fn view(&self) -> u64 {
        self.block_no
    }
}

impl Key for BlockQuery {
    fn same(&self, other: &Self) -> (same: bool) {
        self.block_no == other.block_no
    }

    fn duplicate(&self) -> (copy: Self) {
        BlockQuery { block_no: self.block_no }
    }
}

impl Key for u64 {
    fn same(&self, other: &Self) -> (same: bool) {
        *self == *other
    }

    fn duplicate(&self) -> (copy: Self) {
        *self
    }
}

/// What an [`AccountQuery`] asks for.
pub struct AccountKey {
    pub block_no: u64,
    pub address: Seq<u8>,
}

/// An account at a block: its transaction count, its balance or its code.
#[derive(Clone, Copy, Debug, PartialEq, Eq, Hash)]
pub struct AccountQuery {
    pub block_no: u64,
    pub address: [u8; 20],
}

impl View for AccountQuery {
    type V = AccountKey;

    open spec fn view(&self) -> AccountKey {
        AccountKey { block_no: self.block_no, address: self.address@ }
    }
}

impl Key for AccountQuery {
    fn same(&self, other: &Self) -> (same: bool) {
        self.block_no == other.block_no && same_bytes(&self.address, &other.address)
    }

    fn duplicate(&self) -> (copy: Self) {
        AccountQuery { block_no: self.block_no, address: self.address }
    }
}

/// What a [`StorageQuery`] asks for.
pub struct StorageKey {
    pub block_no: u64,
    pub address: Seq<u8>,
    pub index: Seq<u8>,
}

/// One storage slot of an account at a block.
#[derive(Clone, Copy, Debug, PartialEq, Eq, Hash)]
pub struct StorageQuery {
    pub block_no: u64,
    pub address: [u8; 20],
    pub index: [u8; 32],
}

impl View for StorageQuery {
    type V = StorageKey;

    open spec fn view(&self) -> StorageKey {
        StorageKey { block_no: self.block_no, address: self.address@, index: self.index@ }
    }
}

impl Key for StorageQuery {
    fn same(&self, other: &Self) -> (same: bool) {
        self.block_no == other.block_no && same_bytes(&self.address, &other.address) && same_bytes(
            &self.index,
            &other.index,
        )
    }

    fn duplicate(&self) -> (copy: Self) {
        StorageQuery { block_no: self.block_no, address: self.address, index: self.index }
    }
}

/// What a [`LogsQuery`] asks for.
pub struct LogsKey {
    pub address: Seq<u8>,
    pub from_block: u64,
    pub to_block: u64,
}

/// The logs that one contract emitted over a range of blocks.
#[derive(Clone, Copy, Debug, PartialEq, Eq, Hash)]
pub struct LogsQuery {
    pub address: [u8; 20],
    pub from_block: u64,
    pub to_block: u64,
}

impl View for LogsQuery {
    type V = LogsKey;

    open spec fn view(&self) -> LogsKey {
        LogsKey { address: self.address@, from_block: self.from_block, to_block: self.to_block }
    }
}

impl Key for LogsQuery {
    fn same(&self, other: &Self) -> (same: bool) {
        same_bytes(&self.address, &other.address) && self.from_block == other.from_block
            && self.to_block == other.to_block
    }

    fn duplicate(&self) -> (copy: Self) {
        LogsQuery { address: self.address, from_block: self.from_block, to_block: self.to_block }
    }
}

/// What a [`TxQuery`] asks for.
pub struct TxKey {
    pub tx_hash: Seq<u8>,
    pub block_no: Option<u64>,
}

/// A transaction by its hash, with the number of the block that holds it where
/// the caller knows it.
#[derive(Clone, Copy, Debug, PartialEq, Eq, Hash)]
pub struct TxQuery {
    pub tx_hash: [u8; 32],
    pub block_no: Option<u64>,
}

impl View for TxQuery {
    type V = TxKey;

    open spec fn view(&self) -> TxKey {
        TxKey { tx_hash: self.tx_hash@, block_no: self.block_no }
    }
}

impl Key for TxQuery {
    fn same(&self, other: &Self) -> (same: bool) {
        let same_block = match (self.block_no, other.block_no) {
            (Some(a), Some(b)) => a == b,
            (None, None) => true,
            _ => false,
        };
        same_block && same_bytes(&self.tx_hash, &other.tx_hash)
    }

    fn duplicate(&self) -> (copy: Self) {
        TxQuery { tx_hash: self.tx_hash, block_no: self.block_no }
    }
}

/// The set of the words that a list holds.
pub open spec fn word_set(words: Seq<[u8; 32]>) -> Set<Seq<u8>> {
    Set::new(|w: Seq<u8>| exists|i: int| 0 <= i < words.len() && #[trigger] words[i]@ == w)
}

/// Whether `word` occurs in `words`.
pub fn holds_word(words: &Vec<[u8; 32]>, word: &[u8; 32]) -> (found: bool)
    ensures
        found == word_set(words@).contains(word@),
{
    let mut i: usize = 0;
    while i < words.len()
        invariant
            i <= words@.len(),
            forall|j: int| 0 <= j < i ==> #[trigger] words@[j]@ != word@,
        decreases words@.len() - i,
    {
        if same_bytes(&words[i], word) {
            assert(words@[i as int]@ == word@);
            return true;
        }
        i += 1;
    }
    false
}

/// Whether every word of `part` occurs in `whole`.
pub fn covers(whole: &Vec<[u8; 32]>, part: &Vec<[u8; 32]>) -> (all: bool)
    ensures
        all == word_set(part@).subset_of(word_set(whole@)),
{
    let mut i: usize = 0;
    while i < part.len()
        invariant
            i <= part@.len(),
            forall|j: int| 0 <= j < i ==> word_set(whole@).contains(#[trigger] part@[j]@),
        decreases part@.len() - i,
    {
        if !holds_word(whole, &part[i]) {
            assert(word_set(part@).contains(part@[i as int]@));
            return false;
        }
        i += 1;
    }
    true
}

/// What a [`ProofQuery`] asks for: the storage slots form a set, so neither their
/// order nor a repetition tells two queries apart.
pub struct ProofKey {
    pub block_no: u64,
    pub address: Seq<u8>,
    pub indices: Set<Seq<u8>>,
}

/// A Merkle proof of an account and of some of its storage slots at a block.
#[derive(Clone, Debug)]
pub struct ProofQuery {
    pub block_no: u64,
    pub address: [u8; 20],
    pub indices: Vec<[u8; 32]>,
}

impl View for ProofQuery {
    type V = ProofKey;

    open spec fn view(&self) -> ProofKey {
        ProofKey {
            block_no: self.block_no,
            address: self.address@,
            indices: word_set(self.indices@),
        }
    }
}

impl Key for ProofQuery {
    fn same(&self, other: &Self) -> (same: bool) {
        let same_slots = covers(&self.indices, &other.indices) && covers(
            &other.indices,
            &self.indices,
        );
        proof {
            if same_slots {
                assert(word_set(self.indices@) =~= word_set(other.indices@));
            }
        }
        self.block_no == other.block_no && same_bytes(&self.address, &other.address) && same_slots
    }

    fn duplicate(&self) -> (copy: Self) {
        let mut indices: Vec<[u8; 32]> = Vec::new();
        let mut i: usize = 0;
        while i < self.indices.len()
            invariant
                i <= self.indices@.len(),
                indices@ == self.indices@.take(i as int),
            decreases self.indices@.len() - i,
        {
            indices.push(self.indices[i]);
            assert(indices@ =~= self.indices@.take(i + 1));
            i += 1;
        }
        assert(indices@ =~= self.indices@);
        ProofQuery { block_no: self.block_no, address: self.address, indices }
    }
}

/// Two proof queries are equal when they ask for the same thing.
impl PartialEq for ProofQuery {
    fn eq(&self, other: &Self) -> (same: bool) {
        self.same(other)
    }
}

impl vstd::std_specs::cmp::PartialEqSpecImpl for ProofQuery {
    open spec fn obeys_eq_spec() -> bool {
        true
    }

    open spec fn eq_spec(&self, other: &Self) -> bool {
        self@ == other@
    }
}

impl Eq for ProofQuery {

}

} // verus!
