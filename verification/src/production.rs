//! The slot-based block-production worker. Once per slot tick it decides
//! whether this node may author, builds a candidate block from the pool
//! snapshot, and hands it to the import pipeline as a locally-produced
//! block. The equivocation guard tracks the last slot authored for and never
//! authors twice for the same (or an earlier) slot, however often a timer
//! tick is repeated.

use crate::block::{Block, BlockView, Header, ProductionDigest, Transaction};
use crate::hashing::spec_mix;
use crate::outcome::ImportOutcome;
use vstd::prelude::*;

verus! {

/// The phases of the production worker's cycle.
#[derive(Clone, Copy, Debug, PartialEq, Eq, Structural)]
pub enum ProductionPhase {
    Idle,
    AwaitingSlot,
    Authoring,
    Submitting,
}

/// The production worker's state: its phase, the identity it authors under,
/// and the last slot it authored for.
#[derive(Clone, Copy, Debug, PartialEq, Eq, Structural)]
pub struct ProductionWorker {
    pub phase: ProductionPhase,
    pub author: u64,
    pub last_authored: Option<u64>,
}

/// Whether the worker authors on a tick: only when the authorization oracle
/// allowed it, and only for a slot strictly later than any slot already
/// authored for.
pub open spec fn spec_should_author(w: ProductionWorker, slot: u64, can_author: bool) -> bool {
    &&& can_author
    &&& match w.last_authored {
        Some(s) => slot > s,
        None => true,
    }
}

/// The block the worker builds: it extends the given parent, carries the
/// pool snapshot as its body in pool order, commits to a state root derived
/// from the parent's, and claims the slot under the worker's identity.
pub open spec fn spec_built_block(
    parent_hash: u64,
    parent: Header,
    slot: u64,
    author: u64,
    pool: Seq<Transaction>,
) -> BlockView {
    BlockView {
        header: Header {
            parent_hash,
            number: (parent.number + 1) as u64,
            state_root: spec_mix(parent.state_root, slot),
            digest: ProductionDigest { slot, author },
        },
        body: pool,
    }
}

/// The worker state after a tick: authoring records the slot and moves to
/// the submitting phase; a skipped tick goes back to awaiting the next slot.
pub open spec fn spec_after_tick(
    w: ProductionWorker,
    slot: u64,
    can_author: bool,
) -> ProductionWorker {
    if spec_should_author(w, slot, can_author) {
        ProductionWorker {
            phase: ProductionPhase::Submitting,
            author: w.author,
            last_authored: Some(slot),
        }
    } else {
        ProductionWorker {
            phase: ProductionPhase::AwaitingSlot,
            author: w.author,
            last_authored: w.last_authored,
        }
    }
}

impl ProductionWorker {
    /// A fresh worker for the given identity, not yet started.
    pub fn new(author: u64) -> (r: ProductionWorker)
        ensures
            r.phase is Idle,
            r.author == author,
            r.last_authored is None,
    {
        ProductionWorker { phase: ProductionPhase::Idle, author, last_authored: None }
    }

    /// Starts the worker's cycle: it now awaits the next slot tick.
    pub fn start(&mut self)
        ensures
            final(self).phase is AwaitingSlot,
            final(self).author == old(self).author,
            final(self).last_authored == old(self).last_authored,
    {
        self.phase = ProductionPhase::AwaitingSlot;
    }

    /// One slot tick. `can_author` is the authorization oracle's answer for
    /// this slot; `parent` is the best head to extend; `pool` is the pending
    /// transaction snapshot, already in pool-priority order. Returns the
    /// authored block, or nothing when the tick is skipped.
    pub fn on_slot_tick(
        &mut self,
        slot: u64,
        can_author: bool,
        parent_hash: u64,
        parent: Header,
        pool: &Vec<Transaction>,
    ) -> (r: Option<Block>)
        requires
            parent.number < u64::MAX,
        ensures
            *final(self) == spec_after_tick(*old(self), slot, can_author),
            r is Some <==> spec_should_author(*old(self), slot, can_author),
            r matches Some(b) ==> b@ == spec_built_block(
                parent_hash,
                parent,
                slot,
                old(self).author,
                pool@,
            ),
    {
        let authorized = match self.last_authored {
            Some(s) => can_author && slot > s,
            None => can_author,
        };
        if !authorized {
            self.phase = ProductionPhase::AwaitingSlot;
            return None;
        }
        self.phase = ProductionPhase::Authoring;
        let mut body: Vec<Transaction> = Vec::new();
        let mut i: usize = 0;
        while i < pool.len()
            invariant
                i <= pool.len(),
                body@ =~= pool@.subrange(0, i as int),
            decreases pool.len() - i,
        {
            body.push(pool[i]);
            i = i + 1;
        }
        proof {
            assert(body@ =~= pool@);
        }
        let state_root = crate::hashing::mix(parent.state_root, slot);
        let block = Block {
            header: Header {
                parent_hash,
                number: parent.number + 1,
                state_root,
                digest: ProductionDigest { slot, author: self.author },
            },
            body,
        };
        self.last_authored = Some(slot);
        self.phase = ProductionPhase::Submitting;
        Some(block)
    }

    /// The worker's reaction to the pipeline's outcome for its submitted
    /// block: broadcast exactly when the block was imported as the new best
    /// head, then await the next slot.
    pub fn on_import_result(&mut self, outcome: ImportOutcome) -> (broadcast: bool)
        ensures
            broadcast == (outcome == (ImportOutcome::Imported { is_new_best: true })),
            final(self).phase is AwaitingSlot,
            final(self).author == old(self).author,
            final(self).last_authored == old(self).last_authored,
    {
        self.phase = ProductionPhase::AwaitingSlot;
        match outcome {
            ImportOutcome::Imported { is_new_best } => is_new_best,
            _ => false,
        }
    }
}

/// The equivocation guard: once a worker has authored for a slot, no later
/// tick for the same slot (or an earlier one) authors again, whatever the
/// oracle answers and however often the tick is repeated.
pub proof fn lemma_author_at_most_once_per_slot(
    w: ProductionWorker,
    slot: u64,
    later_slot: u64,
    can_author: bool,
    can_author_again: bool,
)
    requires
        later_slot <= slot,
    ensures
        spec_should_author(w, slot, can_author) ==> !spec_should_author(
            spec_after_tick(w, slot, can_author),
            later_slot,
            can_author_again,
        ),
{
}

} // verus!
