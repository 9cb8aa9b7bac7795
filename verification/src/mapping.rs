//! The mapping sync worker: consumes the import-notification stream
//! asynchronously and maintains the derived auxiliary index over imported
//! blocks. It processes a bounded batch per run, so a slow consumer only
//! delays itself, never the pipeline; a transient failure is skipped and
//! caught up later, unless the strict strategy escalates it.

use crate::block::Transaction;
use crate::hashing::spec_mix;
use crate::outcome::{ImportNotification, NotificationView};
use crate::store::ChainStore;
use crate::subscription::NotificationSubscriber;
use vstd::prelude::*;

verus! {

/// One entry of the auxiliary index: a key derived from the block and one of
/// its transactions, and the hash of the block it belongs to.
#[derive(Clone, Copy, Debug, PartialEq, Eq, Structural)]
pub struct IndexEntry {
    pub key: u64,
    pub block_hash: u64,
}

/// How the worker treats a failure: catch up later, or escalate.
#[derive(Clone, Copy, Debug, PartialEq, Eq, Structural)]
pub enum SyncStrategy {
    /// Skip on transient failure; the next run catches up.
    BestEffort,
    /// A failure is fatal to the whole service.
    Strict,
}

/// The error a strict worker escalates.
#[derive(Clone, Copy, Debug, PartialEq, Eq, Structural)]
pub enum MappingError {
    /// A transient failure under the strict strategy; the lifecycle manager
    /// treats it as fatal.
    StrictFailure,
}

/// The index entries one notification contributes, in body order.
pub open spec fn spec_derived_entries(n: NotificationView) -> Seq<IndexEntry> {
    n.block.body.map_values(
        |t: Transaction| IndexEntry { key: spec_mix(n.hash, t.hash), block_hash: n.hash },
    )
}

/// The index a notification log denotes: the derived entries of every
/// notification, concatenated in commit order.
pub open spec fn spec_index_of_log(notes: Seq<NotificationView>) -> Seq<IndexEntry>
    decreases notes.len(),
{
    if notes.len() == 0 {
        Seq::empty()
    } else {
        spec_index_of_log(notes.drop_last()) + spec_derived_entries(notes.last())
    }
}

/// The mapping sync worker: its subscription (from the start of the log),
/// the index built so far, its failure strategy, and the bounded number of
/// notifications it processes per run.
pub struct MappingSyncWorker {
    pub sub: NotificationSubscriber,
    pub index: Vec<IndexEntry>,
    pub strategy: SyncStrategy,
    pub batch: usize,
}

impl MappingSyncWorker {
    /// The worker is consistent with a store: it subscribed at the start of
    /// the log, and its index is exactly the index denoted by the prefix of
    /// the log it has consumed.
    pub open spec fn wf(self, s: ChainStore) -> bool {
        &&& self.sub.wf(s)
        &&& self.sub.start == 0
        &&& self.index@ == spec_index_of_log(s.notes().subrange(0, self.sub.cursor as int))
    }

    /// Starts a worker against a freshly opened store, before any import.
    /// The batch bound must allow progress: with a bound of zero a run could
    /// never consume anything and the worker could never catch up.
    pub fn new(store: &ChainStore, strategy: SyncStrategy, batch: usize) -> (r: MappingSyncWorker)
        requires
            store.notes().len() == 0,
            batch >= 1,
        ensures
            r.wf(*store),
            r.strategy == strategy,
            r.batch == batch,
    {
        let sub = NotificationSubscriber::subscribe(store);
        let r = MappingSyncWorker { sub, index: Vec::new(), strategy, batch };
        proof {
            assert(store.notes().subrange(0, 0) =~= Seq::<NotificationView>::empty());
            reveal_with_fuel(spec_index_of_log, 1);
        }
        r
    }

    /// Appends the derived entries of one notification to the index.
    fn apply_notification(&mut self, n: &ImportNotification)
        ensures
            final(self).index@ == old(self).index@ + spec_derived_entries(n@),
            final(self).sub == old(self).sub,
            final(self).strategy == old(self).strategy,
            final(self).batch == old(self).batch,
    {
        let mut i: usize = 0;
        while i < n.block.body.len()
            invariant
                i <= n.block.body.len(),
                self.index@ =~= old(self).index@ + spec_derived_entries(n@).subrange(0, i as int),
                self.sub == old(self).sub,
                self.strategy == old(self).strategy,
                self.batch == old(self).batch,
            decreases n.block.body.len() - i,
        {
            let key = crate::hashing::mix(n.hash, n.block.body[i].hash);
            self.index.push(IndexEntry { key, block_hash: n.hash });
            proof {
                assert(spec_derived_entries(n@).subrange(0, i + 1) =~= spec_derived_entries(
                    n@,
                ).subrange(0, i as int).push(spec_derived_entries(n@)[i as int]));
            }
            i = i + 1;
        }
        proof {
            assert(spec_derived_entries(n@).subrange(0, n@.block.body.len() as int)
                =~= spec_derived_entries(n@));
        }
    }

    /// One run of the worker. `transient_failure` reports whether this run's
    /// persistence attempt failed. A best-effort worker skips a failed run
    /// and catches up later; a strict worker escalates it. Otherwise it
    /// processes at most its batch of pending notifications and returns how
    /// many it consumed.
    pub fn run(&mut self, store: &ChainStore, transient_failure: bool) -> (r: Result<
        usize,
        MappingError,
    >)
        requires
            old(self).wf(*store),
        ensures
            final(self).wf(*store),
            final(self).strategy == old(self).strategy,
            final(self).batch == old(self).batch,
            r is Err <==> (transient_failure && old(self).strategy is Strict),
            r is Err ==> *final(self) == *old(self),
            transient_failure && old(self).strategy is BestEffort ==> *final(self) == *old(self),
            r matches Ok(k) ==> final(self).sub.cursor == old(self).sub.cursor + k,
            r matches Ok(k) ==> (transient_failure || k == old(self).batch
                || final(self).sub.cursor == store.notes().len()),
    {
        if transient_failure {
            return match self.strategy {
                SyncStrategy::Strict => Err(MappingError::StrictFailure),
                SyncStrategy::BestEffort => Ok(0),
            };
        }
        let mut consumed: usize = 0;
        while consumed < self.batch
            invariant
                !transient_failure,
                self.wf(*store),
                consumed <= self.batch,
                self.sub.cursor == old(self).sub.cursor + consumed,
                self.strategy == old(self).strategy,
                self.batch == old(self).batch,
            decreases self.batch - consumed,
        {
            let polled = self.sub.poll(store);
            match polled {
                Some(n) => {
                    proof {
                        assert(store.notes().subrange(0, self.sub.cursor as int)
                            =~= store.notes().subrange(
                            0,
                            self.sub.cursor - 1,
                        ).push(store.notes()[self.sub.cursor - 1]));
                        assert(store.notes().subrange(0, self.sub.cursor as int).drop_last()
                            =~= store.notes().subrange(0, self.sub.cursor - 1));
                    }
                    self.apply_notification(&n);
                    consumed = consumed + 1;
                },
                None => {
                    return Ok(consumed);
                },
            }
        }
        Ok(consumed)
    }

    /// Rebuilds the whole index from scratch by replaying the notification
    /// log in commit order.
    pub fn rebuild_index(store: &ChainStore) -> (r: Vec<IndexEntry>)
        ensures
            r@ == spec_index_of_log(store.notes()),
    {
        let mut w = MappingSyncWorker {
            sub: NotificationSubscriber {
                start: 0,
                cursor: 0,
                delivered: Ghost(Seq::empty()),
            },
            index: Vec::new(),
            strategy: SyncStrategy::BestEffort,
            batch: 0,
        };
        proof {
            assert(store.notes().subrange(0, 0) =~= Seq::<NotificationView>::empty());
            reveal_with_fuel(spec_index_of_log, 1);
        }
        let mut i: usize = 0;
        while i < store.notifications.len()
            invariant
                i <= store.notifications.len(),
                w.sub.cursor == i,
                w.sub.start == 0,
                w.sub.wf(*store),
                w.index@ == spec_index_of_log(store.notes().subrange(0, i as int)),
            decreases store.notifications.len() - i,
        {
            let polled = w.sub.poll(store);
            match polled {
                Some(n) => {
                    proof {
                        assert(store.notes().subrange(0, i + 1) =~= store.notes().subrange(
                            0,
                            i as int,
                        ).push(store.notes()[i as int]));
                        assert(store.notes().subrange(0, i + 1).drop_last()
                            =~= store.notes().subrange(0, i as int));
                    }
                    w.apply_notification(&n);
                },
                None => {
                    proof {
                        assert(false);
                    }
                },
            }
            i = i + 1;
        }
        proof {
            assert(store.notes().subrange(0, store.notes().len() as int) =~= store.notes());
        }
        w.index
    }
}

/// A worker stays consistent while the notification log only grows: commits
/// append, so the prefix it has already indexed never changes.
pub proof fn lemma_worker_wf_preserved_by_append(
    w: MappingSyncWorker,
    s0: ChainStore,
    s1: ChainStore,
)
    requires
        w.wf(s0),
        s0.notes().len() <= s1.notes().len(),
        s1.notes().subrange(0, s0.notes().len() as int) == s0.notes(),
    ensures
        w.wf(s1),
{
    w.sub.lemma_wf_preserved_by_append(s0, s1);
    assert(s1.notes().subrange(0, w.sub.cursor as int) =~= s0.notes().subrange(
        0,
        w.sub.cursor as int,
    )) by {
        assert forall|k: int| 0 <= k < w.sub.cursor implies s1.notes()[k] == s0.notes()[k] by {
            assert(s1.notes().subrange(0, s0.notes().len() as int)[k] == s1.notes()[k]);
        }
    }
}

/// Idempotent rebuild: a worker that has drained the notification log holds
/// exactly the index a from-scratch replay of the same log builds, however
/// far behind it ever fell.
pub proof fn lemma_caught_up_matches_rebuild(w: MappingSyncWorker, s: ChainStore)
    requires
        w.wf(s),
        w.sub.cursor == s.notes().len(),
    ensures
        w.index@ == spec_index_of_log(s.notes()),
{
    assert(s.notes().subrange(0, s.notes().len() as int) =~= s.notes());
}

} // verus!
