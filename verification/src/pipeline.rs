//! The block-import pipeline: an explicit ordered list of stages, iterated
//! in order by a driver. Each stage either forwards the candidate to the
//! next stage, rejects it with an outcome, or commits it. Stage order is
//! data, not type structure. Side effects of earlier stages are not rolled
//! back when a later stage rejects; this matches the documented behaviour of
//! the composed system.

use crate::block::{spec_block_hash, Block, BlockView};
use crate::finality::AuthoritySet;
use crate::outcome::{BlockOrigin, ImportOutcome, NotificationView, VerificationFault};
use crate::store::{ChainStore, StoredView};
use vstd::prelude::*;

verus! {

/// The stages of the import pipeline, in their canonical order.
#[derive(Clone, Copy, Debug, PartialEq, Eq, Structural)]
pub enum Stage {
    /// Records the auxiliary compatibility-index hint for the candidate
    /// before any ordering decision; never affects acceptance.
    CompatibilityIndex,
    /// Rejects candidates already known, conflicting with a finalized
    /// ancestor, or lacking their parent.
    FinalityAware,
    /// Verifies the slot-production digest and, for network blocks, the
    /// author's authorization.
    SlotAuthoring,
    /// Atomically inserts the block into the chain store, decides the new
    /// best head and emits the import notification.
    StoreCommit,
}

/// What one stage decided about the candidate.
#[derive(Clone, Copy, Debug, PartialEq, Eq, Structural)]
pub enum StageVerdict {
    /// The candidate proceeds to the next stage.
    Forwarded,
    /// The candidate is refused with the given outcome; later stages do not
    /// run.
    Rejected { outcome: ImportOutcome },
    /// The candidate entered the store with the given outcome.
    Committed { outcome: ImportOutcome },
}

/// The decision of the finality-aware stage, if it decides: known blocks are
/// reported idempotently; a block whose parent is unknown must wait — the
/// parent lookup comes before any finality comparison, so an orphan is the
/// transient `MissingParent`, never `KnownBad`; a block with a committed
/// parent conflicts when it sits at or below the finalized height or when
/// its ancestry misses the finalized head.
pub open spec fn spec_finality_check(s: ChainStore, b: BlockView) -> Option<ImportOutcome> {
    let fin_number = s.spec_number_of(s.finalized);
    let p = b.header.parent_hash;
    if s.contains_hash(spec_block_hash(b)) {
        Some(ImportOutcome::AlreadyInChain)
    } else if !s.contains_hash(p) {
        Some(ImportOutcome::MissingParent)
    } else if b.header.number <= fin_number {
        Some(ImportOutcome::KnownBad)
    } else if s.spec_number_of(p) < fin_number {
        Some(ImportOutcome::KnownBad)
    } else if s.spec_walk(p, (s.spec_number_of(p) - fin_number) as nat) != s.finalized {
        Some(ImportOutcome::KnownBad)
    } else {
        None
    }
}

/// The fault the slot-authoring stage finds, if any: the height must be the
/// parent's plus one, the claimed slot must strictly increase over the
/// parent's, and a network-sourced author must be in the authority set.
pub open spec fn spec_authoring_check(
    s: ChainStore,
    authorities: Seq<u64>,
    b: BlockView,
    origin: BlockOrigin,
) -> Option<VerificationFault> {
    let p = b.header.parent_hash;
    if s.spec_number_of(p) + 1 != b.header.number {
        Some(VerificationFault::NumberMismatch)
    } else if b.header.digest.slot <= s.spec_block_of(p).header.digest.slot {
        Some(VerificationFault::SlotNotIncreasing)
    } else if origin is Network && !authorities.contains(b.header.digest.author) {
        Some(VerificationFault::AuthorNotAuthorized)
    } else {
        None
    }
}

/// Whether a committed candidate becomes the new best head: longest chain
/// wins, ties are kept by the first-seen head.
pub open spec fn spec_new_best(s: ChainStore, b: BlockView) -> bool {
    b.header.number > s.spec_number_of(s.best)
}

/// The store entry a commit appends.
pub open spec fn spec_committed_entry(b: BlockView) -> StoredView {
    StoredView { hash: spec_block_hash(b), block: b }
}

/// The notification a commit appends.
pub open spec fn spec_committed_note(s: ChainStore, b: BlockView) -> NotificationView {
    NotificationView {
        block: b,
        hash: spec_block_hash(b),
        outcome: ImportOutcome::Imported { is_new_best: spec_new_best(s, b) },
        is_new_best: spec_new_best(s, b),
    }
}

/// What the whole pipeline decides for a candidate against a given store,
/// authority snapshot and origin.
pub open spec fn spec_import_outcome(
    s: ChainStore,
    authorities: Seq<u64>,
    b: BlockView,
    origin: BlockOrigin,
) -> ImportOutcome {
    match spec_finality_check(s, b) {
        Some(o) => o,
        None => match spec_authoring_check(s, authorities, b, origin) {
            Some(f) => ImportOutcome::VerificationFailed { fault: f },
            None => ImportOutcome::Imported { is_new_best: spec_new_best(s, b) },
        },
    }
}

/// The canonical stage order.
pub open spec fn spec_stage_order() -> Seq<Stage> {
    seq![Stage::CompatibilityIndex, Stage::FinalityAware, Stage::SlotAuthoring, Stage::StoreCommit]
}

/// The import pipeline: the ordered stage list and the compatibility-index
/// hints the first stage records.
#[derive(Debug)]
pub struct ImportPipeline {
    pub stages: Vec<Stage>,
    pub hints: Vec<u64>,
}

impl ImportPipeline {
    /// The stage list is the canonical order.
    pub open spec fn wf(self) -> bool {
        self.stages@ == spec_stage_order()
    }

    /// The hint log after recording a candidate hash: recording is
    /// idempotent.
    pub open spec fn spec_hints_after(hints: Seq<u64>, h: u64) -> Seq<u64> {
        if hints.contains(h) {
            hints
        } else {
            hints.push(h)
        }
    }

    /// Builds the pipeline with the canonical stage order and no hints.
    pub fn new() -> (r: ImportPipeline)
        ensures
            r.wf(),
            r.hints@ == Seq::<u64>::empty(),
    {
        let mut stages: Vec<Stage> = Vec::new();
        stages.push(Stage::CompatibilityIndex);
        stages.push(Stage::FinalityAware);
        stages.push(Stage::SlotAuthoring);
        stages.push(Stage::StoreCommit);
        let r = ImportPipeline { stages, hints: Vec::new() };
        proof {
            assert(r.stages@ =~= spec_stage_order());
        }
        r
    }

    /// Runs one stage on the candidate. The verdict and the effect depend
    /// only on which stage runs; the driver composes them in stage order.
    #[verifier::rlimit(100)]
    fn run_stage(
        &mut self,
        stage: Stage,
        store: &mut ChainStore,
        auth: &AuthoritySet,
        candidate: &Block,
        h: u64,
        origin: BlockOrigin,
    ) -> (v: StageVerdict)
        requires
            old(store).wf(),
            h == spec_block_hash(candidate@),
            stage is SlotAuthoring ==> old(store).contains_hash(candidate@.header.parent_hash),
            stage is StoreCommit ==> {
                &&& !old(store).contains_hash(h)
                &&& old(store).contains_hash(candidate@.header.parent_hash)
                &&& old(store).spec_number_of(candidate@.header.parent_hash) + 1
                    == candidate@.header.number
            },
        ensures
            final(store).wf(),
            final(self).stages@ == old(self).stages@,
            match stage {
                Stage::CompatibilityIndex => {
                    &&& v is Forwarded
                    &&& *final(store) == *old(store)
                    &&& final(self).hints@ == Self::spec_hints_after(old(self).hints@, h)
                },
                Stage::FinalityAware => {
                    &&& *final(store) == *old(store)
                    &&& final(self).hints@ == old(self).hints@
                    &&& match spec_finality_check(*old(store), candidate@) {
                        Some(o) => v == (StageVerdict::Rejected { outcome: o }),
                        None => v is Forwarded,
                    }
                },
                Stage::SlotAuthoring => {
                    &&& *final(store) == *old(store)
                    &&& final(self).hints@ == old(self).hints@
                    &&& match spec_authoring_check(*old(store), auth.authorities@, candidate@, origin) {
                        Some(f) => v == (StageVerdict::Rejected {
                            outcome: ImportOutcome::VerificationFailed { fault: f },
                        }),
                        None => v is Forwarded,
                    }
                },
                Stage::StoreCommit => {
                    &&& final(self).hints@ == old(self).hints@
                    &&& v == (StageVerdict::Committed {
                        outcome: ImportOutcome::Imported {
                            is_new_best: spec_new_best(*old(store), candidate@),
                        },
                    })
                    &&& final(store).entries() == old(store).entries().push(
                        spec_committed_entry(candidate@),
                    )
                    &&& final(store).notes() == old(store).notes().push(
                        spec_committed_note(*old(store), candidate@),
                    )
                    &&& final(store).best == if spec_new_best(*old(store), candidate@) {
                        h
                    } else {
                        old(store).best
                    }
                    &&& final(store).finalized == old(store).finalized
                },
            },
    {
        match stage {
            Stage::CompatibilityIndex => self.stage_compatibility_index(h),
            Stage::FinalityAware => Self::stage_finality_aware(store, candidate, h),
            Stage::SlotAuthoring => Self::stage_slot_authoring(store, auth, candidate, origin),
            Stage::StoreCommit => Self::stage_store_commit(store, candidate, h),
        }
    }

    /// Records the compatibility-index hint for the candidate, once.
    fn stage_compatibility_index(&mut self, h: u64) -> (v: StageVerdict)
        ensures
            v is Forwarded,
            final(self).stages@ == old(self).stages@,
            final(self).hints@ == Self::spec_hints_after(old(self).hints@, h),
    {
        let mut i: usize = 0;
        let mut present = false;
        while i < self.hints.len()
            invariant
                i <= self.hints.len(),
                present ==> self.hints@.contains(h),
                !present ==> forall|j: int| 0 <= j < i ==> self.hints@[j] != h,
            decreases self.hints.len() - i,
        {
            if self.hints[i] == h {
                present = true;
            }
            i = i + 1;
        }
        if !present {
            proof {
                assert(!self.hints@.contains(h));
            }
            self.hints.push(h);
        }
        StageVerdict::Forwarded
    }

    /// Rejects known candidates idempotently, waits for a missing parent —
    /// the parent lookup comes before any finality comparison — and rejects
    /// candidates conflicting with an already-finalized ancestor.
    fn stage_finality_aware(store: &ChainStore, candidate: &Block, h: u64) -> (v: StageVerdict)
        requires
            store.wf(),
            h == spec_block_hash(candidate@),
        ensures
            match spec_finality_check(*store, candidate@) {
                Some(o) => v == (StageVerdict::Rejected { outcome: o }),
                None => v is Forwarded,
            },
    {
        if let Some(_known) = store.find(h) {
            proof {
                assert(store.contains_hash(h));
            }
            return StageVerdict::Rejected { outcome: ImportOutcome::AlreadyInChain };
        }
        let p = candidate.header.parent_hash;
        match store.find(p) {
            None => StageVerdict::Rejected { outcome: ImportOutcome::MissingParent },
            Some(pi) => {
                proof {
                    store.lemma_index_unique(p, pi as int);
                }
                let fin_number = store.finalized_header().number;
                if candidate.header.number <= fin_number {
                    return StageVerdict::Rejected { outcome: ImportOutcome::KnownBad };
                }
                let parent_number = store.get_block(p).header.number;
                if parent_number < fin_number {
                    proof {
                        assert(store.spec_walk(p, 0nat) == p);
                    }
                    StageVerdict::Rejected { outcome: ImportOutcome::KnownBad }
                } else {
                    let anc = store.ancestor_at(p, fin_number);
                    if anc != store.finalized {
                        StageVerdict::Rejected { outcome: ImportOutcome::KnownBad }
                    } else {
                        StageVerdict::Forwarded
                    }
                }
            },
        }
    }

    /// Verifies the slot-production digest against the parent and, for
    /// network blocks, the claimed author's authorization.
    fn stage_slot_authoring(
        store: &ChainStore,
        auth: &AuthoritySet,
        candidate: &Block,
        origin: BlockOrigin,
    ) -> (v: StageVerdict)
        requires
            store.wf(),
            store.contains_hash(candidate@.header.parent_hash),
        ensures
            match spec_authoring_check(*store, auth.authorities@, candidate@, origin) {
                Some(f) => v == (StageVerdict::Rejected {
                    outcome: ImportOutcome::VerificationFailed { fault: f },
                }),
                None => v is Forwarded,
            },
    {
        let p = candidate.header.parent_hash;
        let parent_header = store.get_block(p).header;
        if parent_header.number == u64::MAX || parent_header.number + 1 != candidate.header.number {
            return StageVerdict::Rejected {
                outcome: ImportOutcome::VerificationFailed {
                    fault: VerificationFault::NumberMismatch,
                },
            };
        }
        if candidate.header.digest.slot <= parent_header.digest.slot {
            return StageVerdict::Rejected {
                outcome: ImportOutcome::VerificationFailed {
                    fault: VerificationFault::SlotNotIncreasing,
                },
            };
        }
        let foreign = match origin {
            BlockOrigin::Network => true,
            BlockOrigin::Local => false,
        };
        if foreign && !auth.is_authority(candidate.header.digest.author) {
            return StageVerdict::Rejected {
                outcome: ImportOutcome::VerificationFailed {
                    fault: VerificationFault::AuthorNotAuthorized,
                },
            };
        }
        StageVerdict::Forwarded
    }

    /// Commits the candidate to the store; the store decides the new best
    /// head and emits the notification.
    fn stage_store_commit(store: &mut ChainStore, candidate: &Block, h: u64) -> (v: StageVerdict)
        requires
            old(store).wf(),
            h == spec_block_hash(candidate@),
            !old(store).contains_hash(h),
            old(store).contains_hash(candidate@.header.parent_hash),
            old(store).spec_number_of(candidate@.header.parent_hash) + 1
                == candidate@.header.number,
        ensures
            final(store).wf(),
            v == (StageVerdict::Committed {
                outcome: ImportOutcome::Imported {
                    is_new_best: spec_new_best(*old(store), candidate@),
                },
            }),
            final(store).entries() == old(store).entries().push(spec_committed_entry(candidate@)),
            final(store).notes() == old(store).notes().push(
                spec_committed_note(*old(store), candidate@),
            ),
            final(store).best == if spec_new_best(*old(store), candidate@) {
                h
            } else {
                old(store).best
            },
            final(store).finalized == old(store).finalized,
    {
        let is_new_best = store.commit(candidate.clone());
        StageVerdict::Committed { outcome: ImportOutcome::Imported { is_new_best } }
    }

    /// Imports a candidate block: runs the stages in their listed order,
    /// stopping at the first verdict. The returned outcome is the single
    /// source of truth for whether the candidate changed canonical state;
    /// nothing in the store changes unless the outcome is `Imported`, and a
    /// successful commit appends exactly one notification.
    #[verifier::rlimit(100)]
    pub fn import(
        &mut self,
        store: &mut ChainStore,
        auth: &AuthoritySet,
        candidate: &Block,
        origin: BlockOrigin,
    ) -> (r: ImportOutcome)
        requires
            old(self).wf(),
            old(store).wf(),
        ensures
            final(self).wf(),
            final(store).wf(),
            r == spec_import_outcome(*old(store), auth.authorities@, candidate@, origin),
            final(self).hints@ == Self::spec_hints_after(
                old(self).hints@,
                spec_block_hash(candidate@),
            ),
            r is Imported ==> {
                &&& final(store).entries() == old(store).entries().push(
                    spec_committed_entry(candidate@),
                )
                &&& final(store).notes() == old(store).notes().push(
                    spec_committed_note(*old(store), candidate@),
                )
                &&& final(store).best == if spec_new_best(*old(store), candidate@) {
                    spec_block_hash(candidate@)
                } else {
                    old(store).best
                }
                &&& final(store).finalized == old(store).finalized
            },
            !(r is Imported) ==> *final(store) == *old(store),
    {
        let h = candidate.content_hash();
        let stage0 = self.stages[0];
        let v0 = self.run_stage(stage0, store, auth, candidate, h, origin);
        if let StageVerdict::Rejected { outcome } = v0 {
            return outcome;
        }
        let stage1 = self.stages[1];
        let v1 = self.run_stage(stage1, store, auth, candidate, h, origin);
        if let StageVerdict::Rejected { outcome } = v1 {
            return outcome;
        }
        let stage2 = self.stages[2];
        let v2 = self.run_stage(stage2, store, auth, candidate, h, origin);
        if let StageVerdict::Rejected { outcome } = v2 {
            return outcome;
        }
        let stage3 = self.stages[3];
        let v3 = self.run_stage(stage3, store, auth, candidate, h, origin);
        match v3 {
            StageVerdict::Committed { outcome } => outcome,
            _ => {
                proof {
                    assert(false);
                }
                ImportOutcome::KnownBad
            },
        }
    }
}

/// Whether a candidate conflicts with an already-finalized ancestor: it is
/// not itself committed, its parent is — an orphan's ancestry is unknown, so
/// an orphan is transient, not conflicting — and it either sits at or below
/// the finalized height or its committed ancestry misses the finalized head.
pub open spec fn spec_conflicts_with_finalized(s: ChainStore, b: BlockView) -> bool {
    &&& !s.contains_hash(spec_block_hash(b))
    &&& s.contains_hash(b.header.parent_hash)
    &&& {
        ||| b.header.number <= s.spec_number_of(s.finalized)
        ||| s.spec_number_of(b.header.parent_hash) < s.spec_number_of(s.finalized)
        ||| s.spec_walk(
            b.header.parent_hash,
            (s.spec_number_of(b.header.parent_hash) - s.spec_number_of(s.finalized)) as nat,
        ) != s.finalized
    }
}

/// Every candidate that conflicts with an already-finalized ancestor is
/// rejected as known-bad — and, by `import`'s contract, a rejection leaves
/// the store, its best head included, unchanged.
pub proof fn lemma_finalized_conflict_rejected(
    s: ChainStore,
    authorities: Seq<u64>,
    b: BlockView,
    origin: BlockOrigin,
)
    requires
        spec_conflicts_with_finalized(s, b),
    ensures
        spec_import_outcome(s, authorities, b, origin) == ImportOutcome::KnownBad,
{
}

/// Replay is idempotent: a block already in the chain store is answered
/// `AlreadyInChain`, whatever its origin — and, by `import`'s contract, the
/// notification log is unchanged, so no duplicate notification is emitted.
pub proof fn lemma_replay_idempotent(
    s: ChainStore,
    authorities: Seq<u64>,
    b: BlockView,
    origin: BlockOrigin,
)
    requires
        s.contains_hash(spec_block_hash(b)),
    ensures
        spec_import_outcome(s, authorities, b, origin) == ImportOutcome::AlreadyInChain,
{
}

/// Round trip: a block the pipeline committed is retrievable from the store
/// by its content hash, with header and body identical to what was fed in.
pub proof fn lemma_round_trip(s0: ChainStore, s1: ChainStore, b: BlockView)
    requires
        s1.wf(),
        s1.entries() == s0.entries().push(spec_committed_entry(b)),
    ensures
        s1.contains_hash(spec_block_hash(b)),
        s1.spec_block_of(spec_block_hash(b)) == b,
{
    s1.lemma_index_unique(spec_block_hash(b), s1.entries().len() - 1);
}

} // verus!
