//! Blob data: the sidecars that a beacon node lists for a block.

use vstd::prelude::*;
use crate::chain::Payload;

verus! {

/// One blob sidecar, every field as the beacon node spells it.
#[derive(Clone, Debug, Default, PartialEq, Eq)]
pub struct GetBlobData {
    pub index: String,
    pub blob: String,
    pub kzg_commitment: String,
    pub kzg_proof: String,
    pub kzg_commitment_inclusion_proof: Vec<String>,
}

/// The sidecars of one block.
#[derive(Clone, Debug, Default, PartialEq, Eq)]
pub struct GetBlobsResponse {
    pub data: Vec<GetBlobData>,
}

/// What a [`GetBlobData`] says.
pub struct BlobContent {
    pub index: Seq<char>,
    pub blob: Seq<char>,
    pub kzg_commitment: Seq<char>,
    pub kzg_proof: Seq<char>,
    pub kzg_commitment_inclusion_proof: Seq<Seq<char>>,
}

/// The texts of a list of strings.
pub open spec fn texts(strings: Seq<String>) -> Seq<Seq<char>> {
    Seq::new(strings.len(), |i: int| strings[i]@)
}

/// What each sidecar of a list says.
pub open spec fn blob_contents(blobs: Seq<GetBlobData>) -> Seq<BlobContent> {
    Seq::new(blobs.len(), |i: int| blobs[i].content())
}

/// Copies a list of strings.
fn duplicate_strings(strings: &Vec<String>) -> (copy: Vec<String>)
    ensures
        texts(copy@) == texts(strings@),
{
    let mut copy: Vec<String> = Vec::new();
    let mut i: usize = 0;
    while i < strings.len()
        invariant
            i <= strings@.len(),
            copy@.len() == i,
            forall|j: int| 0 <= j < i ==> copy@[j]@ == strings@[j]@,
        decreases strings@.len() - i,
    {
        copy.push(strings[i].clone());
        i += 1;
    }
    assert(texts(copy@) =~= texts(strings@));
    copy
}

impl Payload for GetBlobData {
    type Content = BlobContent;

    open spec fn content(&self) -> BlobContent {
        BlobContent {
            index: self.index@,
            blob: self.blob@,
            kzg_commitment: self.kzg_commitment@,
            kzg_proof: self.kzg_proof@,
            kzg_commitment_inclusion_proof: texts(self.kzg_commitment_inclusion_proof@),
        }
    }

    fn duplicate(&self) -> (copy: Self) {
        GetBlobData {
            index: self.index.clone(),
            blob: self.blob.clone(),
            kzg_commitment: self.kzg_commitment.clone(),
            kzg_proof: self.kzg_proof.clone(),
            kzg_commitment_inclusion_proof: duplicate_strings(
                &self.kzg_commitment_inclusion_proof,
            ),
        }
    }
}

impl Payload for GetBlobsResponse {
    type Content = Seq<BlobContent>;

    open spec fn content(&self) -> Seq<BlobContent> {
        blob_contents(self.data@)
    }

    fn duplicate(&self) -> (copy: Self) {
        let mut data: Vec<GetBlobData> = Vec::new();
        let mut i: usize = 0;
        while i < self.data.len()
            invariant
                i <= self.data@.len(),
                data@.len() == i,
                forall|j: int| 0 <= j < i ==> data@[j].content() == self.data@[j].content(),
            decreases self.data@.len() - i,
        {
            data.push(self.data[i].duplicate());
            i += 1;
        }
        assert(blob_contents(data@) =~= blob_contents(self.data@));
        GetBlobsResponse { data }
    }
}

} // verus!
