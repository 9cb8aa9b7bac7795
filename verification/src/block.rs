//! The block data model: header, production digest, transactions and the
//! block itself. A block is immutable once constructed; its identity is the
//! content hash of its header and body.

use crate::hashing::{fold_words, mix, spec_fold_words, spec_mix};
use vstd::prelude::*;

verus! {

/// A pending transaction, identified by its hash and carrying the priority
/// the pool assigned to it.
#[derive(Clone, Copy, Debug, PartialEq, Eq, Structural)]
pub struct Transaction {
    pub hash: u64,
    pub priority: u64,
}

/// The slot-production digest a block carries: the slot it claims and the
/// identity of the claimed author. The cryptographic proof behind the claim
/// is checked by an external oracle and is out of scope here.
#[derive(Clone, Copy, Debug, PartialEq, Eq, Structural)]
pub struct ProductionDigest {
    pub slot: u64,
    pub author: u64,
}

/// A block header: parent link, height, state commitment and the production
/// digest.
#[derive(Clone, Copy, Debug, PartialEq, Eq, Structural)]
pub struct Header {
    pub parent_hash: u64,
    pub number: u64,
    pub state_root: u64,
    pub digest: ProductionDigest,
}

/// A block: a header and an ordered body of transactions.
#[derive(Debug, PartialEq, Eq)]
pub struct Block {
    pub header: Header,
    pub body: Vec<Transaction>,
}

/// The mathematical content of a block: its header and the sequence of its
/// transactions. Two blocks with the same view are the same block.
pub ghost struct BlockView {
    pub header: Header,
    pub body: Seq<Transaction>,
}

impl View for Block {
    type V = BlockView;

    open spec fn view(&self) -> BlockView {
        BlockView { header: self.header, body: self.body@ }
    }
}

impl Clone for Block {
    /// Cloning a block keeps its content exactly: identity is content, so a
    /// clone is the same block.
    fn clone(&self) -> (r: Self)
        ensures
            r@ == self@,
    {
        let mut body: Vec<Transaction> = Vec::new();
        let mut i: usize = 0;
        while i < self.body.len()
            invariant
                i <= self.body.len(),
                body@ =~= self.body@.subrange(0, i as int),
            decreases self.body.len() - i,
        {
            body.push(self.body[i]);
            i = i + 1;
        }
        proof {
            assert(body@ =~= self.body@);
        }
        Block { header: self.header, body }
    }
}

/// The hashes of a transaction sequence, in body order.
pub open spec fn spec_tx_hashes(body: Seq<Transaction>) -> Seq<u64> {
    body.map_values(|t: Transaction| t.hash)
}

/// The content hash of a header. Opaque: hashes are only ever compared.
#[verifier::opaque]
pub open spec fn spec_header_hash(h: Header) -> u64 {
    spec_mix(
        spec_mix(h.parent_hash, h.number),
        spec_mix(h.state_root, spec_mix(h.digest.slot, h.digest.author)),
    )
}

/// The content hash of a block: header hash mixed with the fold of the body
/// transaction hashes. Opaque: hashes are only ever compared.
#[verifier::opaque]
pub open spec fn spec_block_hash(b: BlockView) -> u64 {
    spec_mix(spec_header_hash(b.header), spec_fold_words(spec_tx_hashes(b.body)))
}

impl Block {
    /// Computes the block's content hash.
    pub fn content_hash(&self) -> (r: u64)
        ensures
            r == spec_block_hash(self@),
    {
        proof {
            reveal(spec_block_hash);
            reveal(spec_header_hash);
        }
        let h = &self.header;
        let header_hash = mix(
            mix(h.parent_hash, h.number),
            mix(h.state_root, mix(h.digest.slot, h.digest.author)),
        );
        let mut tx_hashes: Vec<u64> = Vec::new();
        let mut i: usize = 0;
        while i < self.body.len()
            invariant
                i <= self.body.len(),
                tx_hashes@ =~= spec_tx_hashes(self.body@.subrange(0, i as int)),
            decreases self.body.len() - i,
        {
            tx_hashes.push(self.body[i].hash);
            proof {
                assert(self.body@.subrange(0, i + 1).drop_last() =~= self.body@.subrange(
                    0,
                    i as int,
                ));
                assert(tx_hashes@ =~= spec_tx_hashes(self.body@.subrange(0, i + 1)));
            }
            i = i + 1;
        }
        proof {
            assert(self.body@.subrange(0, self.body@.len() as int) =~= self.body@);
        }
        let body_hash = fold_words(&tx_hashes);
        mix(header_hash, body_hash)
    }
}

} // verus!
