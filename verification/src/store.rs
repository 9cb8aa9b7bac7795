//! The chain store: the durable set of blocks in commit order, the best and
//! finalized head pointers, and the log of import notifications in the exact
//! order commits succeeded. Head pointers are advanced only by the pipeline's
//! store-commit stage and by finalization.

use crate::block::{spec_block_hash, Block, BlockView, Header};
use crate::outcome::{ImportNotification, ImportOutcome, NotificationView};
use vstd::prelude::*;

verus! {

/// A committed block together with its content hash.
#[derive(Debug)]
pub struct StoredBlock {
    pub hash: u64,
    pub block: Block,
}

/// The mathematical content of a stored block.
pub ghost struct StoredView {
    pub hash: u64,
    pub block: BlockView,
}

impl View for StoredBlock {
    type V = StoredView;

    open spec fn view(&self) -> StoredView {
        StoredView { hash: self.hash, block: self.block@ }
    }
}

/// The chain store.
#[derive(Debug)]
pub struct ChainStore {
    pub blocks: Vec<StoredBlock>,
    pub best: u64,
    pub finalized: u64,
    pub notifications: Vec<ImportNotification>,
}

impl ChainStore {
    /// The committed blocks, in commit order.
    pub open spec fn entries(self) -> Seq<StoredView> {
        self.blocks@.map_values(|sb: StoredBlock| sb@)
    }

    /// The notification log, in commit order.
    pub open spec fn notes(self) -> Seq<NotificationView> {
        self.notifications@.map_values(|n: ImportNotification| n@)
    }

    /// Whether a block with the given hash has been committed.
    pub open spec fn contains_hash(self, h: u64) -> bool {
        exists|i: int| 0 <= i < self.entries().len() && self.entries()[i].hash == h
    }

    /// The commit index of the block with the given hash.
    pub open spec fn spec_index_of(self, h: u64) -> int {
        choose|i: int| 0 <= i < self.entries().len() && self.entries()[i].hash == h
    }

    /// The content of the block with the given hash.
    pub open spec fn spec_block_of(self, h: u64) -> BlockView {
        self.entries()[self.spec_index_of(h)].block
    }

    /// The height of the block with the given hash.
    pub open spec fn spec_number_of(self, h: u64) -> u64 {
        self.spec_block_of(h).header.number
    }

    /// The parent hash of the block with the given hash.
    pub open spec fn spec_parent_of(self, h: u64) -> u64 {
        self.spec_block_of(h).header.parent_hash
    }

    /// Every non-genesis block's parent was committed before it, one level
    /// down. Opaque: ancestry is reasoned about through the lemmas below,
    /// not by unfolding this quantifier.
    #[verifier::opaque]
    pub open spec fn parents_linked(self) -> bool {
        forall|i: int|
            1 <= i < self.entries().len() ==> exists|j: int|
                0 <= j < i && (#[trigger] self.entries()[i]).block.header.parent_hash == (
                #[trigger] self.entries()[j]).hash && self.entries()[j].block.header.number + 1
                    == self.entries()[i].block.header.number
    }

    /// Well-formedness: at least the genesis block is present; hashes are
    /// distinct and are the content hashes of their blocks; the first block
    /// is at height zero; every later block's parent was committed before it,
    /// one level down; the head pointers name committed blocks; and the
    /// notification log lists exactly the non-genesis blocks, in commit
    /// order.
    pub open spec fn wf(self) -> bool {
        &&& self.entries().len() >= 1
        &&& forall|i: int, j: int|
            0 <= i < j < self.entries().len() ==> self.entries()[i].hash != self.entries()[j].hash
        &&& forall|i: int|
            0 <= i < self.entries().len() ==> (#[trigger] self.entries()[i]).hash
                == spec_block_hash(self.entries()[i].block)
        &&& self.entries()[0].block.header.number == 0
        &&& self.parents_linked()
        &&& self.contains_hash(self.best)
        &&& self.contains_hash(self.finalized)
        &&& self.notes().len() + 1 == self.entries().len()
        &&& forall|i: int|
            0 <= i < self.notes().len() ==> {
                &&& (#[trigger] self.notes()[i]).hash == self.entries()[i + 1].hash
                &&& self.notes()[i].block == self.entries()[i + 1].block
                &&& self.notes()[i].outcome == (ImportOutcome::Imported {
                    is_new_best: self.notes()[i].is_new_best,
                })
            }
    }

    /// Opens a store holding only the genesis block, which is both best and
    /// finalized head.
    pub fn open(genesis: Block) -> (r: ChainStore)
        requires
            genesis@.header.number == 0,
        ensures
            r.wf(),
            r.entries().len() == 1,
            r.entries()[0].block == genesis@,
            r.best == spec_block_hash(genesis@),
            r.finalized == spec_block_hash(genesis@),
            r.notes().len() == 0,
    {
        let h = genesis.content_hash();
        let mut blocks: Vec<StoredBlock> = Vec::new();
        blocks.push(StoredBlock { hash: h, block: genesis });
        let r = ChainStore { blocks, best: h, finalized: h, notifications: Vec::new() };
        proof {
            reveal(ChainStore::parents_linked);
            assert(r.entries()[0].hash == h);
            assert(r.contains_hash(h));
        }
        r
    }

    /// Looks a hash up in the store; returns its commit index if present.
    pub fn find(&self, h: u64) -> (r: Option<usize>)
        ensures
            match r {
                Some(i) => 0 <= i < self.entries().len() && self.entries()[i as int].hash == h,
                None => !self.contains_hash(h),
            },
    {
        let mut i: usize = 0;
        while i < self.blocks.len()
            invariant
                i <= self.blocks.len(),
                forall|j: int| 0 <= j < i ==> self.entries()[j].hash != h,
            decreases self.blocks.len() - i,
        {
            if self.blocks[i].hash == h {
                return Some(i);
            }
            i = i + 1;
        }
        None
    }

    /// The unique commit index of a committed hash.
    pub proof fn lemma_index_unique(self, h: u64, i: int)
        requires
            self.wf(),
            0 <= i < self.entries().len(),
            self.entries()[i].hash == h,
        ensures
            self.contains_hash(h),
            self.spec_index_of(h) == i,
    {
        assert(self.contains_hash(h));
        let k = self.spec_index_of(h);
        if k != i {
            if k < i {
                assert(self.entries()[k].hash != self.entries()[i].hash);
            } else {
                assert(self.entries()[i].hash != self.entries()[k].hash);
            }
        }
    }

    /// Returns the committed block with the given hash.
    pub fn get_block(&self, h: u64) -> (r: &Block)
        requires
            self.wf(),
            self.contains_hash(h),
        ensures
            r@ == self.spec_block_of(h),
    {
        let found = self.find(h);
        match found {
            Some(i) => {
                proof {
                    self.lemma_index_unique(h, i as int);
                }
                &self.blocks[i].block
            },
            None => {
                proof {
                    assert(false);
                }
                &self.blocks[0].block
            },
        }
    }

    /// The header of the current best head.
    pub fn best_header(&self) -> (r: Header)
        requires
            self.wf(),
        ensures
            r == self.spec_block_of(self.best).header,
    {
        self.get_block(self.best).header
    }

    /// The header of the current finalized head.
    pub fn finalized_header(&self) -> (r: Header)
        requires
            self.wf(),
        ensures
            r == self.spec_block_of(self.finalized).header,
    {
        self.get_block(self.finalized).header
    }

    /// The hash reached from `h` by walking the given number of parent
    /// links.
    pub open spec fn spec_walk(self, h: u64, steps: nat) -> u64
        decreases steps,
    {
        if steps == 0 {
            h
        } else {
            self.spec_walk(self.spec_parent_of(h), (steps - 1) as nat)
        }
    }

    /// In a well-formed store, every committed block above height zero has a
    /// committed parent one level down.
    pub proof fn lemma_parent_step(self, h: u64)
        requires
            self.wf(),
            self.contains_hash(h),
            self.spec_number_of(h) > 0,
        ensures
            self.contains_hash(self.spec_parent_of(h)),
            self.spec_number_of(self.spec_parent_of(h)) + 1 == self.spec_number_of(h),
    {
        reveal(ChainStore::parents_linked);
        let i = self.spec_index_of(h);
        assert(0 <= i < self.entries().len() && self.entries()[i].hash == h);
        assert(i != 0);
        let j = choose|j: int|
            0 <= j < i && self.entries()[i].block.header.parent_hash == self.entries()[j].hash
                && self.entries()[j].block.header.number + 1 == self.entries()[i].block.header.number;
        self.lemma_index_unique(self.entries()[j].hash, j);
    }

    /// Walking within a committed chain stays committed and lowers the
    /// height by exactly the number of steps.
    pub proof fn lemma_walk_props(self, h: u64, steps: nat)
        requires
            self.wf(),
            self.contains_hash(h),
            steps <= self.spec_number_of(h),
        ensures
            self.contains_hash(self.spec_walk(h, steps)),
            self.spec_number_of(self.spec_walk(h, steps)) == self.spec_number_of(h) - steps,
        decreases steps,
    {
        if steps > 0 {
            self.lemma_parent_step(h);
            self.lemma_walk_props(self.spec_parent_of(h), (steps - 1) as nat);
        }
    }

    /// The ancestor of `h` at the given height, found by walking parent
    /// links.
    pub fn ancestor_at(&self, h: u64, target: u64) -> (r: u64)
        requires
            self.wf(),
            self.contains_hash(h),
            target <= self.spec_number_of(h),
        ensures
            r == self.spec_walk(h, (self.spec_number_of(h) - target) as nat),
            self.contains_hash(r),
            self.spec_number_of(r) == target,
    {
        let mut cur: u64 = h;
        let mut n: u64 = self.get_block(h).header.number;
        while n > target
            invariant
                self.wf(),
                self.contains_hash(cur),
                n == self.spec_number_of(cur),
                target <= n,
                self.spec_walk(cur, (n - target) as nat) == self.spec_walk(
                    h,
                    (self.spec_number_of(h) - target) as nat,
                ),
            decreases n - target,
        {
            proof {
                self.lemma_parent_step(cur);
            }
            let b = self.get_block(cur);
            cur = b.header.parent_hash;
            n = n - 1;
        }
        proof {
            self.lemma_walk_props(h, (self.spec_number_of(h) - target) as nat);
        }
        cur
    }

    /// Atomically inserts a new block, decides whether it becomes the new
    /// best head by total-order comparison (longest chain, ties broken by
    /// first-seen), and appends the import notification. This is the only
    /// operation that advances the best-head pointer.
    pub fn commit(&mut self, block: Block) -> (is_new_best: bool)
        requires
            old(self).wf(),
            !old(self).contains_hash(spec_block_hash(block@)),
            old(self).contains_hash(block@.header.parent_hash),
            old(self).spec_number_of(block@.header.parent_hash) + 1 == block@.header.number,
        ensures
            final(self).wf(),
            is_new_best == (block@.header.number > old(self).spec_number_of(old(self).best)),
            final(self).entries() == old(self).entries().push(
                StoredView { hash: spec_block_hash(block@), block: block@ },
            ),
            final(self).notes() == old(self).notes().push(
                NotificationView {
                    block: block@,
                    hash: spec_block_hash(block@),
                    outcome: ImportOutcome::Imported { is_new_best },
                    is_new_best,
                },
            ),
            final(self).best == if is_new_best {
                spec_block_hash(block@)
            } else {
                old(self).best
            },
            final(self).finalized == old(self).finalized,
    {
        let ghost bv = block@;
        let ghost prev = *self;
        let h = block.content_hash();
        let best_number = self.best_header().number;
        let is_new_best = block.header.number > best_number;
        let note_block = block.clone();
        self.blocks.push(StoredBlock { hash: h, block });
        self.notifications.push(
            ImportNotification {
                block: note_block,
                hash: h,
                outcome: ImportOutcome::Imported { is_new_best },
                is_new_best,
            },
        );
        if is_new_best {
            self.best = h;
        }
        proof {
            let entry = StoredView { hash: spec_block_hash(bv), block: bv };
            let note = NotificationView {
                block: bv,
                hash: spec_block_hash(bv),
                outcome: ImportOutcome::Imported { is_new_best },
                is_new_best,
            };
            assert(self.entries() =~= prev.entries().push(entry));
            assert(self.notes() =~= prev.notes().push(note));
            self.lemma_commit_wf(prev, entry, note, is_new_best);
        }
        is_new_best
    }

    /// Well-formedness is preserved by a commit.
    proof fn lemma_commit_wf(
        self,
        prev: ChainStore,
        entry: StoredView,
        note: NotificationView,
        is_new_best: bool,
    )
        requires
            prev.wf(),
            !prev.contains_hash(entry.hash),
            entry.hash == spec_block_hash(entry.block),
            prev.contains_hash(entry.block.header.parent_hash),
            prev.spec_number_of(entry.block.header.parent_hash) + 1 == entry.block.header.number,
            self.entries() == prev.entries().push(entry),
            self.notes() == prev.notes().push(note),
            note.hash == entry.hash,
            note.block == entry.block,
            note.outcome == (ImportOutcome::Imported { is_new_best: note.is_new_best }),
            self.best == if is_new_best {
                entry.hash
            } else {
                prev.best
            },
            self.finalized == prev.finalized,
        ensures
            self.wf(),
    {
        reveal(ChainStore::parents_linked);
        let n = self.entries().len() as int;
        assert forall|i: int, j: int|
            0 <= i < j < n implies self.entries()[i].hash != self.entries()[j].hash by {
            if j == n - 1 {
                assert(self.entries()[i] == prev.entries()[i]);
                assert(prev.contains_hash(prev.entries()[i].hash));
            }
        }
        assert forall|i: int|
            0 <= i < n implies (#[trigger] self.entries()[i]).hash == spec_block_hash(
            self.entries()[i].block,
        ) by {
            if i < n - 1 {
                assert(self.entries()[i] == prev.entries()[i]);
            }
        }
        assert forall|i: int| 1 <= i < n implies exists|j: int|
            0 <= j < i && (#[trigger] self.entries()[i]).block.header.parent_hash == (
            #[trigger] self.entries()[j]).hash && self.entries()[j].block.header.number + 1
                == self.entries()[i].block.header.number by {
            if i == n - 1 {
                let p = entry.block.header.parent_hash;
                let j = prev.spec_index_of(p);
                assert(0 <= j < i && self.entries()[j].hash == p);
                assert(self.entries()[j].block.header.number + 1
                    == self.entries()[i].block.header.number);
            } else {
                let j = choose|j: int|
                    0 <= j < i && (#[trigger] prev.entries()[i]).block.header.parent_hash == (
                    #[trigger] prev.entries()[j]).hash && prev.entries()[j].block.header.number + 1
                        == prev.entries()[i].block.header.number;
                assert(self.entries()[j] == prev.entries()[j]);
                assert(self.entries()[i] == prev.entries()[i]);
            }
        }
        if is_new_best {
            assert(self.entries()[n - 1].hash == self.best);
            assert(self.contains_hash(self.best));
        } else {
            let k = prev.spec_index_of(prev.best);
            assert(self.entries()[k] == prev.entries()[k]);
            assert(self.contains_hash(self.best));
        }
        let kf = prev.spec_index_of(prev.finalized);
        assert(self.entries()[kf] == prev.entries()[kf]);
        assert(self.contains_hash(self.finalized));
        assert forall|i: int|
            0 <= i < self.notes().len() implies {
            &&& (#[trigger] self.notes()[i]).hash == self.entries()[i + 1].hash
            &&& self.notes()[i].block == self.entries()[i + 1].block
            &&& self.notes()[i].outcome == (ImportOutcome::Imported {
                is_new_best: self.notes()[i].is_new_best,
            })
        } by {
            if i < self.notes().len() - 1 {
                assert(self.notes()[i] == prev.notes()[i]);
                assert(self.entries()[i + 1] == prev.entries()[i + 1]);
            } else {
                assert(self.notes()[i] == note);
                assert(self.entries()[i + 1] == entry);
            }
        }
    }

    /// Moves the finalized-head pointer to a committed descendant of the
    /// current finalized head. Nothing else changes.
    #[verifier::rlimit(60)]
    pub fn finalize(&mut self, h: u64)
        requires
            old(self).wf(),
            old(self).contains_hash(h),
            old(self).spec_number_of(h) >= old(self).spec_number_of(old(self).finalized),
            old(self).spec_walk(
                h,
                (old(self).spec_number_of(h) - old(self).spec_number_of(old(self).finalized)) as nat,
            ) == old(self).finalized,
        ensures
            final(self).wf(),
            final(self).finalized == h,
            final(self).entries() == old(self).entries(),
            final(self).notes() == old(self).notes(),
            final(self).best == old(self).best,
    {
        self.finalized = h;
        proof {
            reveal(ChainStore::parents_linked);
            assert(self.entries() =~= old(self).entries());
            assert(self.notes() =~= old(self).notes());
            assert(self.contains_hash(h));
        }
    }
}

} // verus!
