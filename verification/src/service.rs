//! The node service: wires the chain store, the import pipeline, the
//! production worker, the mapping sync worker, the finality gadget and the
//! task lifecycle manager into one service with coordinated startup and
//! shutdown. A full service may author and vote; a light service only
//! follows the chain.

use crate::block::{Block, Header, Transaction};
use crate::finality::{AuthoritySet, FinalityGadget, Justification, Vote};
use crate::lifecycle::{LifecycleManager, ShutdownReason, TaskClass, TaskRecord, TaskStatus};
use crate::mapping::{lemma_worker_wf_preserved_by_append, MappingError, MappingSyncWorker, SyncStrategy};
use crate::outcome::{BlockOrigin, ImportError, ImportOutcome};
use crate::pipeline::{
    spec_committed_entry, spec_committed_note, spec_import_outcome, spec_new_best, ImportPipeline,
};
use crate::block::spec_block_hash;
use crate::production::{
    spec_after_tick, spec_built_block, spec_should_author, ProductionPhase, ProductionWorker,
};
use crate::rpc::{default_max_past_logs, RpcDeps};
use crate::store::ChainStore;
use crate::subscription::NotificationSubscriber;
use vstd::prelude::*;
use vstd::string::{StrSliceExecFns, StringExecFns};

verus! {

/// Whether one character sequence begins with another.
pub open spec fn spec_starts_with(s: Seq<char>, prefix: Seq<char>) -> bool {
    prefix.len() <= s.len() && s.subrange(0, prefix.len() as int) == prefix
}

/// Whether `s` begins with `prefix`.
pub fn str_has_prefix(s: &str, prefix: &str) -> (r: bool)
    ensures
        r == spec_starts_with(s@, prefix@),
{
    let n = prefix.unicode_len();
    let m = s.unicode_len();
    if n > m {
        return false;
    }
    let mut i: usize = 0;
    while i < n
        invariant
            i <= n,
            n <= m,
            n == prefix@.len(),
            m == s@.len(),
            forall|j: int| 0 <= j < i ==> s@[j] == prefix@[j],
        decreases n - i,
    {
        if s.get_char(i) != prefix.get_char(i) {
            proof {
                assert(s@.subrange(0, n as int)[i as int] == s@[i as int]);
            }
            return false;
        }
        i = i + 1;
    }
    proof {
        assert(s@.subrange(0, n as int) =~= prefix@);
    }
    true
}

/// A chain configuration, identified by its id string.
#[derive(Debug)]
pub struct ChainSpec {
    pub id: String,
}

/// Which network variant a chain configuration belongs to.
pub trait IdentifyVariant {
    /// The identifier of the configuration.
    spec fn spec_id(&self) -> Seq<char>;

    /// Whether this is a configuration for the `Automata` network.
    fn is_automata(&self) -> (r: bool)
        ensures
            r == spec_starts_with(self.spec_id(), "automata"@),
    ;

    /// Whether this is a configuration for the `ContextFree` network.
    fn is_contextfree(&self) -> (r: bool)
        ensures
            r == spec_starts_with(self.spec_id(), "contextfree"@),
    ;
}

impl IdentifyVariant for ChainSpec {
    open spec fn spec_id(&self) -> Seq<char> {
        self.id@
    }

    fn is_automata(&self) -> (r: bool) {
        str_has_prefix(self.id.as_str(), "automata")
    }

    fn is_contextfree(&self) -> (r: bool) {
        str_has_prefix(self.id.as_str(), "contextfree")
    }
}

/// A failure of service construction.
#[derive(Clone, Copy, Debug, PartialEq, Eq, Structural)]
pub enum ServiceError {
    /// Remote keystores are not supported.
    RemoteKeystoreUnsupported,
}

/// A local signing keystore. The only kind this service can hold.
#[derive(Debug)]
pub struct LocalKeystore {
    pub keys: Vec<u64>,
}

/// Hooking up a remote keystore always fails: only local keystores exist.
pub fn remote_keystore(url: &String) -> (r: Result<LocalKeystore, ServiceError>)
    ensures
        r is Err,
{
    let _ = url;
    Err(ServiceError::RemoteKeystoreUnsupported)
}

/// The directory of the auxiliary compatibility-layer database, under the
/// node's configuration directory.
pub fn frontier_database_path(config_dir: &str) -> (r: String)
    ensures
        r@ == config_dir@ + "/frontier/db"@,
{
    let base = config_dir.to_owned();
    base.concat("/frontier/db")
}

/// Everything a service is built from.
#[derive(Debug)]
pub struct NodeConfig {
    pub chain_spec: ChainSpec,
    pub keystore_remote: Option<String>,
    pub genesis: Block,
    pub authorities: Vec<u64>,
    pub local_identity: Option<u64>,
    pub strict_mapping: bool,
    pub mapping_batch: usize,
    pub enable_finality: bool,
    pub telemetry: bool,
}

/// What one slot tick did.
#[derive(Clone, Copy, Debug, PartialEq, Eq, Structural)]
pub enum SlotAction {
    /// No block was produced for this slot.
    Skipped,
    /// A block was produced and submitted; `broadcast` says whether it
    /// became the new best head and goes out to the peers.
    Produced { outcome: ImportOutcome, broadcast: bool },
}

/// The tasks a full service registers, in spawn order: the mapping sync
/// worker (essential, always), the production worker (essential, authorities
/// only), the finality voter (essential, when finality is enabled),
/// telemetry (best-effort, when configured), and authority discovery
/// (best-effort, authorities only). All start running.
pub open spec fn spec_full_task_list(authority: bool, finality: bool, telemetry: bool) -> Seq<
    TaskRecord,
> {
    let essential = TaskRecord { class: TaskClass::Essential, status: TaskStatus::Running };
    let best_effort = TaskRecord { class: TaskClass::BestEffort, status: TaskStatus::Running };
    let tasks = seq![essential];
    let tasks = if authority {
        tasks.push(essential)
    } else {
        tasks
    };
    let tasks = if finality {
        tasks.push(essential)
    } else {
        tasks
    };
    let tasks = if telemetry {
        tasks.push(best_effort)
    } else {
        tasks
    };
    if authority {
        tasks.push(best_effort)
    } else {
        tasks
    }
}

/// The components every kind of service shares, built once and consumed by
/// the service constructors.
pub struct PartialComponents {
    pub chain_spec: ChainSpec,
    pub store: ChainStore,
    pub pipeline: ImportPipeline,
    pub gadget: FinalityGadget,
    pub finality_sub: NotificationSubscriber,
    pub mapping: MappingSyncWorker,
    pub local_identity: Option<u64>,
    pub enable_finality: bool,
    pub telemetry: bool,
}

/// The running node service.
pub struct NodeService {
    pub chain_spec: ChainSpec,
    pub store: ChainStore,
    pub pipeline: ImportPipeline,
    pub production: Option<ProductionWorker>,
    pub mapping: Option<MappingSyncWorker>,
    pub gadget: FinalityGadget,
    pub finality_sub: NotificationSubscriber,
    pub lifecycle: LifecycleManager,
    pub production_task: Option<usize>,
    pub mapping_task: Option<usize>,
    pub finality_task: Option<usize>,
}

impl NodeService {
    /// The header of the current best head.
    pub open spec fn spec_best_header(self) -> Header {
        self.store.spec_block_of(self.store.best).header
    }

    /// Consistency of the whole service: the store, the pipeline and every
    /// attached consumer agree, and every task handle is valid.
    pub open spec fn wf(self) -> bool {
        &&& self.store.wf()
        &&& self.pipeline.wf()
        &&& (self.mapping matches Some(w) ==> w.wf(self.store))
        &&& (self.mapping is Some ==> self.mapping_task is Some)
        &&& (self.production is Some ==> self.production_task is Some)
        &&& self.finality_sub.wf(self.store)
        &&& self.lifecycle.wf()
        &&& (self.production_task matches Some(t) ==> t < self.lifecycle.tasks@.len()
            && self.lifecycle.tasks@[t as int].class is Essential)
        &&& (self.mapping_task matches Some(t) ==> t < self.lifecycle.tasks@.len()
            && self.lifecycle.tasks@[t as int].class is Essential)
        &&& (self.finality_task matches Some(t) ==> t < self.lifecycle.tasks@.len()
            && self.lifecycle.tasks@[t as int].class is Essential)
    }

    /// Builds the components every kind of service shares: the store opened
    /// at genesis, the staged pipeline, the finality gadget with its
    /// subscription, and the mapping sync worker. Fails when a remote
    /// keystore is asked for, which is not supported.
    pub fn new_partial(config: NodeConfig) -> (r: Result<PartialComponents, ServiceError>)
        requires
            config.genesis@.header.number == 0,
            config.mapping_batch >= 1,
        ensures
            r is Ok <==> config.keystore_remote is None,
            r matches Err(e) ==> e == ServiceError::RemoteKeystoreUnsupported,
            r matches Ok(p) ==> {
                &&& p.store.wf()
                &&& p.pipeline.wf()
                &&& p.pipeline.hints@ == Seq::<u64>::empty()
                &&& p.mapping.wf(p.store)
                &&& p.finality_sub.wf(p.store)
                &&& p.store.entries().len() == 1
                &&& p.store.entries()[0].block == config.genesis@
                &&& p.store.notes().len() == 0
                &&& p.gadget.authority_set.version == 0
                &&& p.gadget.authority_set.authorities@ == config.authorities@
                &&& p.gadget.local_identity == config.local_identity
                &&& p.mapping.strategy == (if config.strict_mapping {
                    SyncStrategy::Strict
                } else {
                    SyncStrategy::BestEffort
                })
                &&& p.mapping.batch == config.mapping_batch
                &&& p.local_identity == config.local_identity
                &&& p.enable_finality == config.enable_finality
                &&& p.telemetry == config.telemetry
            },
    {
        if config.keystore_remote.is_some() {
            return Err(ServiceError::RemoteKeystoreUnsupported);
        }
        let store = ChainStore::open(config.genesis);
        let pipeline = ImportPipeline::new();
        let auth = AuthoritySet::genesis(config.authorities);
        let gadget = FinalityGadget::new(auth, config.local_identity);
        let finality_sub = NotificationSubscriber::subscribe(&store);
        let strategy = if config.strict_mapping {
            SyncStrategy::Strict
        } else {
            SyncStrategy::BestEffort
        };
        let mapping = MappingSyncWorker::new(&store, strategy, config.mapping_batch);
        Ok(
            PartialComponents {
                chain_spec: config.chain_spec,
                store,
                pipeline,
                gadget,
                finality_sub,
                mapping,
                local_identity: config.local_identity,
                enable_finality: config.enable_finality,
                telemetry: config.telemetry,
            },
        )
    }

    /// Builds a full service on the shared components: it imports, indexes,
    /// may author when it has a local identity, and may vote. Fails when a
    /// remote keystore is asked for, which is not supported.
    pub fn new_full(config: NodeConfig) -> (r: Result<NodeService, ServiceError>)
        requires
            config.genesis@.header.number == 0,
            config.mapping_batch >= 1,
        ensures
            r is Ok <==> config.keystore_remote is None,
            r matches Err(e) ==> e == ServiceError::RemoteKeystoreUnsupported,
            r matches Ok(n) ==> {
                &&& n.wf()
                &&& !n.lifecycle.shutdown
                &&& n.store.entries().len() == 1
                &&& n.store.entries()[0].block == config.genesis@
                &&& n.store.notes().len() == 0
                &&& n.pipeline.hints@ == Seq::<u64>::empty()
                &&& n.gadget.authority_set.version == 0
                &&& n.gadget.authority_set.authorities@ == config.authorities@
                &&& n.gadget.local_identity == config.local_identity
                &&& (n.production is Some <==> config.local_identity is Some)
                &&& (config.local_identity matches Some(a) ==> n.production == Some(
                    (ProductionWorker {
                        phase: ProductionPhase::AwaitingSlot,
                        author: a,
                        last_authored: None,
                    }),
                ))
                &&& n.mapping matches Some(w) && w.strategy == (if config.strict_mapping {
                    SyncStrategy::Strict
                } else {
                    SyncStrategy::BestEffort
                }) && w.batch == config.mapping_batch
                &&& n.lifecycle.tasks@ == spec_full_task_list(
                    config.local_identity is Some,
                    config.enable_finality,
                    config.telemetry,
                )
                &&& n.mapping_task == Some(0usize)
                &&& n.production_task == (if config.local_identity is Some {
                    Some(1usize)
                } else {
                    None
                })
                &&& (n.production_task is Some <==> config.local_identity is Some)
                &&& n.finality_task == (if config.enable_finality {
                    Some(
                        (if config.local_identity is Some {
                            2usize
                        } else {
                            1usize
                        }),
                    )
                } else {
                    None
                })
                &&& (n.finality_task is Some <==> config.enable_finality)
            },
    {
        let parts = match Self::new_partial(config) {
            Ok(p) => p,
            Err(e) => {
                return Err(e);
            },
        };
        let mut lifecycle = LifecycleManager::new();
        let mapping_task = lifecycle.spawn(TaskClass::Essential);
        let (production, production_task) = match parts.local_identity {
            Some(author) => {
                let mut w = ProductionWorker::new(author);
                w.start();
                let t = lifecycle.spawn(TaskClass::Essential);
                (Some(w), Some(t))
            },
            None => (None, None),
        };
        let finality_task = if parts.enable_finality {
            Some(lifecycle.spawn(TaskClass::Essential))
        } else {
            None
        };
        if parts.telemetry {
            let _ = lifecycle.spawn(TaskClass::BestEffort);
        }
        if production.is_some() {
            let _ = lifecycle.spawn(TaskClass::BestEffort);
        }
        proof {
            assert(lifecycle.tasks@ =~= spec_full_task_list(
                parts.local_identity is Some,
                parts.enable_finality,
                parts.telemetry,
            ));
        }
        Ok(
            NodeService {
                chain_spec: parts.chain_spec,
                store: parts.store,
                pipeline: parts.pipeline,
                production,
                mapping: Some(parts.mapping),
                gadget: parts.gadget,
                finality_sub: parts.finality_sub,
                lifecycle,
                production_task,
                mapping_task: Some(mapping_task),
                finality_task,
            },
        )
    }

    /// Builds a light service: it follows the chain and verifies imports but
    /// never authors, never votes and keeps no auxiliary index. It registers
    /// no essential task — at most best-effort telemetry — and its voter log
    /// starts empty and, as an observer, stays so.
    pub fn new_light(config: NodeConfig) -> (r: Result<NodeService, ServiceError>)
        requires
            config.genesis@.header.number == 0,
        ensures
            r is Ok,
            r matches Ok(n) ==> {
                &&& n.wf()
                &&& !n.lifecycle.shutdown
                &&& n.store.entries().len() == 1
                &&& n.store.entries()[0].block == config.genesis@
                &&& n.store.notes().len() == 0
                &&& n.pipeline.hints@ == Seq::<u64>::empty()
                &&& n.production is None
                &&& n.mapping is None
                &&& n.gadget.local_identity is None
                &&& !n.gadget.spec_is_participant()
                &&& n.gadget.voter_log@ == Seq::<Vote>::empty()
                &&& n.production_task is None
                &&& n.mapping_task is None
                &&& n.finality_task is None
                &&& forall|i: int|
                    0 <= i < n.lifecycle.tasks@.len() ==> (#[trigger] n.lifecycle.tasks@[i]).class
                        is BestEffort
            },
    {
        let store = ChainStore::open(config.genesis);
        let pipeline = ImportPipeline::new();
        let auth = AuthoritySet::genesis(config.authorities);
        let gadget = FinalityGadget::new(auth, None);
        let finality_sub = NotificationSubscriber::subscribe(&store);
        let mut lifecycle = LifecycleManager::new();
        if config.telemetry {
            let _ = lifecycle.spawn(TaskClass::BestEffort);
        }
        Ok(
            NodeService {
                chain_spec: config.chain_spec,
                store,
                pipeline,
                production: None,
                mapping: None,
                gadget,
                finality_sub,
                lifecycle,
                production_task: None,
                mapping_task: None,
                finality_task: None,
            },
        )
    }

    /// Runs the pipeline on a candidate and keeps every attached consumer
    /// consistent with the grown store.
    fn import_inner(&mut self, candidate: &Block, origin: BlockOrigin) -> (r: ImportOutcome)
        requires
            old(self).wf(),
        ensures
            final(self).wf(),
            r == spec_import_outcome(
                old(self).store,
                old(self).gadget.authority_set.authorities@,
                candidate@,
                origin,
            ),
            r is Imported ==> {
                &&& final(self).store.entries() == old(self).store.entries().push(
                    spec_committed_entry(candidate@),
                )
                &&& final(self).store.notes() == old(self).store.notes().push(
                    spec_committed_note(old(self).store, candidate@),
                )
                &&& final(self).store.best == if spec_new_best(old(self).store, candidate@) {
                    spec_block_hash(candidate@)
                } else {
                    old(self).store.best
                }
                &&& final(self).store.finalized == old(self).store.finalized
            },
            !(r is Imported) ==> final(self).store == old(self).store,
            final(self).production == old(self).production,
            final(self).mapping == old(self).mapping,
            final(self).gadget == old(self).gadget,
            final(self).lifecycle == old(self).lifecycle,
            final(self).finality_sub == old(self).finality_sub,
            final(self).production_task == old(self).production_task,
            final(self).mapping_task == old(self).mapping_task,
            final(self).finality_task == old(self).finality_task,
    {
        let outcome = self.pipeline.import(
            &mut self.store,
            &self.gadget.authority_set,
            candidate,
            origin,
        );
        proof {
            assert(self.store.notes().subrange(0, old(self).store.notes().len() as int)
                =~= old(self).store.notes());
            match &self.mapping {
                Some(w) => lemma_worker_wf_preserved_by_append(*w, old(self).store, self.store),
                None => {},
            }
            self.finality_sub.lemma_wf_preserved_by_append(old(self).store, self.store);
        }
        outcome
    }

    /// Imports a candidate block. Once the lifecycle manager has shut the
    /// service down, no further imports are accepted.
    pub fn import(&mut self, candidate: &Block, origin: BlockOrigin) -> (r: Result<
        ImportOutcome,
        ImportError,
    >)
        requires
            old(self).wf(),
        ensures
            final(self).wf(),
            r is Err <==> old(self).lifecycle.shutdown,
            r is Err ==> *final(self) == *old(self) && r == Err::<ImportOutcome, ImportError>(
                ImportError::ServiceStopped,
            ),
            r matches Ok(o) ==> {
                &&& o == spec_import_outcome(
                    old(self).store,
                    old(self).gadget.authority_set.authorities@,
                    candidate@,
                    origin,
                )
                &&& (o is Imported ==> final(self).store.entries() == old(self).store.entries().push(spec_committed_entry(candidate@)) && final(self).store.notes() == old(self).store.notes().push(
                    spec_committed_note(old(self).store, candidate@),
                ) && final(self).store.best == (if spec_new_best(old(self).store, candidate@) {
                    spec_block_hash(candidate@)
                } else {
                    old(self).store.best
                }) && final(self).store.finalized == old(self).store.finalized)
                &&& (!(o is Imported) ==> final(self).store == old(self).store)
            },
            final(self).production == old(self).production,
            final(self).mapping == old(self).mapping,
            final(self).gadget == old(self).gadget,
            final(self).lifecycle == old(self).lifecycle,
    {
        if self.lifecycle.is_shutdown() {
            return Err(ImportError::ServiceStopped);
        }
        Ok(self.import_inner(candidate, origin))
    }

    /// Whether a tick for this slot produces a block: the service runs, a
    /// worker exists and may author this slot, and the chain can grow.
    pub open spec fn spec_tick_produces(self, slot: u64, can_author: bool) -> bool {
        &&& !self.lifecycle.shutdown
        &&& match self.production {
            Some(w) => spec_should_author(w, slot, can_author),
            None => false,
        }
        &&& self.spec_best_header().number < u64::MAX
    }

    /// The block a tick builds: it extends the best head under the worker's
    /// identity, with the pool snapshot as body.
    pub open spec fn spec_built(self, slot: u64, pool: Seq<Transaction>) -> crate::block::BlockView {
        spec_built_block(
            self.store.best,
            self.spec_best_header(),
            slot,
            match self.production {
                Some(w) => w.author,
                None => 0,
            },
            pool,
        )
    }

    /// One slot tick of the production worker: decide authorization, build
    /// the candidate, feed it to the pipeline as a local block, and
    /// broadcast it when it became the new best head. A slot that cannot be
    /// authored is skipped, never escalated.
    pub fn on_slot_tick(&mut self, slot: u64, can_author: bool, pool: &Vec<Transaction>) -> (r:
        SlotAction)
        requires
            old(self).wf(),
        ensures
            final(self).wf(),
            r is Produced <==> old(self).spec_tick_produces(slot, can_author),
            r matches SlotAction::Produced { outcome, broadcast } ==> {
                &&& outcome == spec_import_outcome(
                    old(self).store,
                    old(self).gadget.authority_set.authorities@,
                    old(self).spec_built(slot, pool@),
                    BlockOrigin::Local,
                )
                &&& broadcast == (outcome == (ImportOutcome::Imported { is_new_best: true }))
                &&& (outcome is Imported ==> final(self).store.entries() == old(self).store.entries().push(spec_committed_entry(old(self).spec_built(slot, pool@))) && final(self).store.notes() == old(self).store.notes().push(
                    spec_committed_note(old(self).store, old(self).spec_built(slot, pool@)),
                ) && final(self).store.best == (if spec_new_best(
                    old(self).store,
                    old(self).spec_built(slot, pool@),
                ) {
                    spec_block_hash(old(self).spec_built(slot, pool@))
                } else {
                    old(self).store.best
                }) && final(self).store.finalized == old(self).store.finalized)
                &&& (!(outcome is Imported) ==> final(self).store == old(self).store)
            },
            r is Skipped ==> final(self).store == old(self).store,
            (!old(self).lifecycle.shutdown && old(self).production is Some && old(self).spec_best_header().number < u64::MAX) ==> final(self).production == (match old(self).production {
                Some(w) => Some(
                    (ProductionWorker {
                        phase: ProductionPhase::AwaitingSlot,
                        author: w.author,
                        last_authored: spec_after_tick(w, slot, can_author).last_authored,
                    }),
                ),
                None => None,
            }),
            (old(self).lifecycle.shutdown || old(self).production is None || old(self).spec_best_header().number == u64::MAX) ==> final(self).production == old(self).production,
            final(self).lifecycle == old(self).lifecycle,
            final(self).gadget == old(self).gadget,
    {
        if self.lifecycle.is_shutdown() {
            return SlotAction::Skipped;
        }
        let mut w = match self.production {
            Some(w) => w,
            None => {
                return SlotAction::Skipped;
            },
        };
        let parent_hash = self.store.best;
        let parent = self.store.best_header();
        if parent.number == u64::MAX {
            return SlotAction::Skipped;
        }
        let maybe_block = w.on_slot_tick(slot, can_author, parent_hash, parent, pool);
        match maybe_block {
            None => {
                self.production = Some(w);
                SlotAction::Skipped
            },
            Some(block) => {
                let outcome = self.import_inner(&block, BlockOrigin::Local);
                let broadcast = w.on_import_result(outcome);
                self.production = Some(w);
                SlotAction::Produced { outcome, broadcast }
            },
        }
    }

    /// One run of the mapping sync worker against the current store. A
    /// strict worker's failure is escalated as a fatal task failure, which
    /// shuts the whole service down.
    pub fn sync_mapping(&mut self, transient_failure: bool) -> (r: Result<usize, MappingError>)
        requires
            old(self).wf(),
        ensures
            final(self).wf(),
            final(self).store == old(self).store,
            old(self).mapping is None ==> r == Ok::<usize, MappingError>(0) && *final(self)
                == *old(self),
            r is Err <==> (old(self).mapping matches Some(w) && transient_failure
                && w.strategy is Strict),
            r is Err ==> final(self).lifecycle.shutdown,
            r matches Ok(k) ==> (old(self).mapping matches Some(w0) ==> final(self).mapping matches Some(w1) && w1.sub.cursor == w0.sub.cursor + k),
            r matches Ok(k) ==> (old(self).mapping matches Some(w0) ==> (transient_failure || k
                == w0.batch || (final(self).mapping matches Some(w1) && w1.sub.cursor
                == old(self).store.notes().len()))),
            final(self).production == old(self).production,
            final(self).gadget == old(self).gadget,
            final(self).finality_sub == old(self).finality_sub,
            final(self).pipeline == old(self).pipeline,
            !(r is Err) ==> final(self).lifecycle == old(self).lifecycle,
    {
        let taken = self.mapping.take();
        match taken {
            None => {
                self.mapping = None;
                Ok(0)
            },
            Some(mut w) => {
                let res = w.run(&self.store, transient_failure);
                self.mapping = Some(w);
                match res {
                    Ok(k) => Ok(k),
                    Err(e) => {
                        let tid = match self.mapping_task {
                            Some(t) => t,
                            None => {
                                proof {
                                    assert(false);
                                }
                                0
                            },
                        };
                        self.lifecycle.on_task_terminated(tid, true);
                        Err(e)
                    },
                }
            },
        }
    }

    /// Feeds the finality gadget the next import notification, if one is
    /// pending: the gadget only ever sees blocks the pipeline admitted.
    pub fn poll_finality(&mut self) -> (r: bool)
        requires
            old(self).wf(),
            old(self).gadget.round < u64::MAX,
        ensures
            final(self).wf(),
            final(self).store == old(self).store,
            r == (old(self).finality_sub.cursor < old(self).store.notes().len()),
            r ==> {
                &&& final(self).finality_sub.cursor == old(self).finality_sub.cursor + 1
                &&& (old(self).gadget.spec_is_participant() ==> final(self).gadget.voter_log@
                    == old(self).gadget.voter_log@.push(
                    (Vote {
                        round: old(self).gadget.round,
                        target: old(self).store.notes()[old(self).finality_sub.cursor as int].hash,
                    }),
                ) && final(self).gadget.round == old(self).gadget.round + 1)
            },
            !old(self).gadget.spec_is_participant() ==> final(self).gadget.voter_log@ == old(self).gadget.voter_log@ && final(self).gadget.round == old(self).gadget.round,
            final(self).gadget.justifications@ == old(self).gadget.justifications@,
            final(self).gadget.authority_set == old(self).gadget.authority_set,
            final(self).gadget.local_identity == old(self).gadget.local_identity,
            final(self).production == old(self).production,
            final(self).mapping == old(self).mapping,
            final(self).lifecycle == old(self).lifecycle,
            final(self).pipeline == old(self).pipeline,
            !r ==> *final(self) == *old(self),
    {
        let polled = self.finality_sub.poll(&self.store);
        match polled {
            Some(n) => {
                self.gadget.on_notification(&n);
                true
            },
            None => false,
        }
    }

    /// Finalizes a committed descendant of the current finalized head, if
    /// the given hash is one; reports whether it was.
    pub fn try_finalize(&mut self, target: u64) -> (r: bool)
        requires
            old(self).wf(),
            old(self).gadget.round < u64::MAX,
        ensures
            final(self).wf(),
            r <==> (old(self).store.contains_hash(target) && old(self).store.spec_number_of(target)
                >= old(self).store.spec_number_of(old(self).store.finalized) && old(self).store.spec_walk(
                target,
                (old(self).store.spec_number_of(target) - old(self).store.spec_number_of(
                    old(self).store.finalized,
                )) as nat,
            ) == old(self).store.finalized),
            r ==> {
                &&& final(self).store.finalized == target
                &&& final(self).store.entries() == old(self).store.entries()
                &&& final(self).store.notes() == old(self).store.notes()
                &&& final(self).store.best == old(self).store.best
                &&& final(self).gadget.justifications@ == old(self).gadget.justifications@.push(
                    (Justification { round: old(self).gadget.round, target }),
                )
            },
            final(self).gadget.voter_log@ == old(self).gadget.voter_log@,
            final(self).gadget.round == old(self).gadget.round,
            final(self).gadget.authority_set == old(self).gadget.authority_set,
            final(self).gadget.local_identity == old(self).gadget.local_identity,
            final(self).production == old(self).production,
            final(self).mapping == old(self).mapping,
            final(self).lifecycle == old(self).lifecycle,
            final(self).finality_sub == old(self).finality_sub,
            final(self).pipeline == old(self).pipeline,
            !r ==> *final(self) == *old(self),
    {
        let found = self.store.find(target);
        match found {
            None => false,
            Some(i) => {
                proof {
                    self.store.lemma_index_unique(target, i as int);
                }
                let target_number = self.store.get_block(target).header.number;
                let fin_number = self.store.finalized_header().number;
                if target_number < fin_number {
                    return false;
                }
                let anc = self.store.ancestor_at(target, fin_number);
                if anc != self.store.finalized {
                    return false;
                }
                self.gadget.apply_justification(&mut self.store, target);
                proof {
                    assert(self.store.notes().subrange(0, old(self).store.notes().len() as int)
                        =~= old(self).store.notes());
                    match &self.mapping {
                        Some(w) => lemma_worker_wf_preserved_by_append(
                            *w,
                            old(self).store,
                            self.store,
                        ),
                        None => {},
                    }
                    self.finality_sub.lemma_wf_preserved_by_append(old(self).store, self.store);
                }
                true
            },
        }
    }

    /// Records that a background task terminated, with the status it ended
    /// in. An essential task's termination — success or failure alike —
    /// shuts the whole service down, records the reason and cancels every
    /// other task still running; afterwards `import` accepts nothing. A
    /// best-effort task's termination only updates its record.
    pub fn on_task_terminated(&mut self, id: usize, failed: bool)
        requires
            old(self).wf(),
            id < old(self).lifecycle.tasks@.len(),
        ensures
            final(self).wf(),
            final(self).store == old(self).store,
            final(self).production == old(self).production,
            final(self).mapping == old(self).mapping,
            final(self).gadget == old(self).gadget,
            final(self).pipeline == old(self).pipeline,
            final(self).finality_sub == old(self).finality_sub,
            final(self).production_task == old(self).production_task,
            final(self).mapping_task == old(self).mapping_task,
            final(self).finality_task == old(self).finality_task,
            final(self).lifecycle.tasks@.len() == old(self).lifecycle.tasks@.len(),
            final(self).lifecycle.tasks@[id as int].status == (if failed {
                TaskStatus::Failed
            } else {
                TaskStatus::Finished
            }),
            final(self).lifecycle.tasks@[id as int].class == old(self).lifecycle.tasks@[id as int].class,
            old(self).lifecycle.tasks@[id as int].class is Essential ==> {
                &&& final(self).lifecycle.shutdown
                &&& final(self).lifecycle.reason == Some(
                    (if failed {
                        ShutdownReason::EssentialTaskFailed { task: id }
                    } else {
                        ShutdownReason::EssentialTaskFinished { task: id }
                    }),
                )
                &&& forall|i: int|
                    0 <= i < final(self).lifecycle.tasks@.len() && i != id ==> (#[trigger] final(self).lifecycle.tasks@[i]).status
                        == (if old(self).lifecycle.tasks@[i].status is Running {
                        TaskStatus::Cancelled
                    } else {
                        old(self).lifecycle.tasks@[i].status
                    }) && final(self).lifecycle.tasks@[i].class == old(self).lifecycle.tasks@[i].class
            },
            old(self).lifecycle.tasks@[id as int].class is BestEffort ==> {
                &&& final(self).lifecycle.shutdown == old(self).lifecycle.shutdown
                &&& final(self).lifecycle.reason == old(self).lifecycle.reason
                &&& forall|i: int|
                    0 <= i < final(self).lifecycle.tasks@.len() && i != id ==> final(self).lifecycle.tasks@[i]
                        == old(self).lifecycle.tasks@[i]
            },
    {
        self.lifecycle.on_task_terminated(id, failed);
    }

    /// Assembles the dependency set for one RPC connection: a consistent
    /// read-only view, captured without re-initializing anything.
    pub fn build_rpc(&self, deny_unsafe: bool) -> (r: RpcDeps)
        requires
            self.wf(),
        ensures
            r.best_hash == self.store.best,
            r.best_number == self.spec_best_header().number,
            r.finalized_hash == self.store.finalized,
            r.is_authority == (self.production is Some),
            r.deny_unsafe == deny_unsafe,
            !r.enable_dev_signer,
            r.pending_index_len == (match &self.mapping {
                Some(w) => w.index@.len(),
                None => 0,
            }),
            r.voter_state@ == self.gadget.voter_log@,
            r.authority_set.version == self.gadget.authority_set.version,
            r.authority_set.authorities@ == self.gadget.authority_set.authorities@,
            r.justification_count == self.gadget.justifications@.len(),
            r.max_past_logs == 10000u32,
    {
        let pending_index_len = match &self.mapping {
            Some(w) => w.index.len(),
            None => 0,
        };
        RpcDeps {
            best_hash: self.store.best,
            best_number: self.store.best_header().number,
            finalized_hash: self.store.finalized,
            is_authority: self.production.is_some(),
            deny_unsafe,
            enable_dev_signer: false,
            pending_index_len,
            voter_state: self.gadget.voter_state_snapshot(),
            authority_set: self.gadget.authority_set.snapshot(),
            justification_count: self.gadget.justifications.len(),
            max_past_logs: default_max_past_logs(),
        }
    }
}

} // verus!
