use node_service::block::{Block, Header, ProductionDigest, Transaction};
use node_service::finality::{AuthoritySet, FinalityGadget};
use node_service::lifecycle::{LifecycleManager, ShutdownReason, TaskClass, TaskStatus};
use node_service::mapping::{MappingError, MappingSyncWorker, SyncStrategy};
use node_service::outcome::{BlockOrigin, ImportOutcome};
use node_service::pipeline::ImportPipeline;
use node_service::production::{ProductionPhase, ProductionWorker};
use node_service::store::ChainStore;
use node_service::subscription::NotificationSubscriber;

fn tx(hash: u64, priority: u64) -> Transaction {
    Transaction { hash, priority }
}

fn block(parent_hash: u64, number: u64, slot: u64, author: u64, body: Vec<Transaction>) -> Block {
    Block {
        header: Header {
            parent_hash,
            number,
            state_root: 0,
            digest: ProductionDigest { slot, author },
        },
        body,
    }
}

fn genesis() -> Block {
    block(0, 0, 0, 0, vec![])
}

#[test]
fn worker_authors_at_most_once_per_slot() {
    let mut w = ProductionWorker::new(10);
    w.start();
    let parent = genesis().header;
    let parent_hash = genesis().content_hash();
    let pool = vec![tx(1, 1)];
    let first = w.on_slot_tick(7, true, parent_hash, parent, &pool);
    assert!(first.is_some());
    // Duplicate timer ticks for the same slot never author again.
    for _ in 0..3 {
        assert!(w.on_slot_tick(7, true, parent_hash, parent, &pool).is_none());
    }
    // Nor does an earlier slot.
    assert!(w.on_slot_tick(6, true, parent_hash, parent, &pool).is_none());
    // A strictly later slot may.
    assert!(w.on_slot_tick(8, true, parent_hash, parent, &pool).is_some());
}

#[test]
fn worker_skips_without_authorization() {
    let mut w = ProductionWorker::new(10);
    w.start();
    let parent = genesis().header;
    let parent_hash = genesis().content_hash();
    assert!(w.on_slot_tick(1, false, parent_hash, parent, &vec![]).is_none());
    assert_eq!(w.last_authored, None);
}

#[test]
fn authored_block_extends_parent_and_keeps_pool_order() {
    let mut w = ProductionWorker::new(10);
    w.start();
    let parent = genesis().header;
    let parent_hash = genesis().content_hash();
    let pool = vec![tx(3, 9), tx(1, 5), tx(2, 2)];
    let b = w.on_slot_tick(4, true, parent_hash, parent, &pool).unwrap();
    assert_eq!(b.header.parent_hash, parent_hash);
    assert_eq!(b.header.number, 1);
    assert_eq!(b.header.digest.slot, 4);
    assert_eq!(b.header.digest.author, 10);
    assert_eq!(b.body, pool);
}

#[test]
fn broadcast_only_on_new_best() {
    let mut w = ProductionWorker::new(10);
    assert!(w.on_import_result(ImportOutcome::Imported { is_new_best: true }));
    assert!(!w.on_import_result(ImportOutcome::Imported { is_new_best: false }));
    assert!(!w.on_import_result(ImportOutcome::AlreadyInChain));
    assert!(matches!(w.phase, ProductionPhase::AwaitingSlot));
}

#[test]
fn subscriber_sees_commits_in_order() {
    let mut store = ChainStore::open(genesis());
    let mut pipeline = ImportPipeline::new();
    let auth = AuthoritySet::genesis(vec![10]);
    let mut sub = NotificationSubscriber::subscribe(&store);
    let g = store.best;
    let a = block(g, 1, 1, 10, vec![]);
    let b = block(a.content_hash(), 2, 2, 10, vec![]);
    let c = block(b.content_hash(), 3, 3, 10, vec![tx(5, 1)]);
    pipeline.import(&mut store, &auth, &a, BlockOrigin::Local);
    pipeline.import(&mut store, &auth, &b, BlockOrigin::Network);
    pipeline.import(&mut store, &auth, &c, BlockOrigin::Network);
    let n1 = sub.poll(&store).unwrap();
    let n2 = sub.poll(&store).unwrap();
    let n3 = sub.poll(&store).unwrap();
    assert!(sub.poll(&store).is_none());
    assert_eq!(n1.hash, a.content_hash());
    assert_eq!(n2.hash, b.content_hash());
    assert_eq!(n3.hash, c.content_hash());
}

#[test]
fn lagging_mapping_worker_catches_up_to_rebuilt_index() {
    let mut store = ChainStore::open(genesis());
    let mut pipeline = ImportPipeline::new();
    let auth = AuthoritySet::genesis(vec![10]);
    // A worker that consumes at most two notifications per run.
    let mut worker = MappingSyncWorker::new(&store, SyncStrategy::BestEffort, 2);
    // It falls behind by five buffered notifications.
    let mut parent = store.best;
    let mut number = 1;
    while number <= 5 {
        let b = block(parent, number, number, 10, vec![tx(number, 1), tx(number + 100, 1)]);
        parent = b.content_hash();
        assert!(matches!(
            pipeline.import(&mut store, &auth, &b, BlockOrigin::Network),
            ImportOutcome::Imported { .. }
        ));
        number += 1;
    }
    // It eventually drains the backlog, two per run, one run failing
    // transiently in between.
    assert_eq!(worker.run(&store, false), Ok(2));
    assert_eq!(worker.run(&store, true), Ok(0));
    assert_eq!(worker.run(&store, false), Ok(2));
    assert_eq!(worker.run(&store, false), Ok(1));
    assert_eq!(worker.run(&store, false), Ok(0));
    // Its index now equals a from-scratch replay of the same notifications.
    let rebuilt = MappingSyncWorker::rebuild_index(&store);
    assert_eq!(worker.index, rebuilt);
    assert_eq!(worker.index.len(), 10);
}

#[test]
fn strict_mapping_worker_escalates_failures() {
    let store = ChainStore::open(genesis());
    let mut worker = MappingSyncWorker::new(&store, SyncStrategy::Strict, 4);
    assert_eq!(worker.run(&store, true), Err(MappingError::StrictFailure));
}

#[test]
fn essential_task_termination_shuts_everything_down() {
    let mut lm = LifecycleManager::new();
    let telemetry = lm.spawn(TaskClass::BestEffort);
    let voter = lm.spawn(TaskClass::Essential);
    let other = lm.spawn(TaskClass::Essential);
    lm.on_task_terminated(telemetry, true);
    assert!(!lm.is_shutdown());
    lm.on_task_terminated(voter, true);
    assert!(lm.is_shutdown());
    assert_eq!(lm.reason, Some(ShutdownReason::EssentialTaskFailed { task: voter }));
    // Outstanding tasks were cancelled; already-terminated ones keep their
    // status.
    assert_eq!(lm.tasks[other].status, TaskStatus::Cancelled);
    assert_eq!(lm.tasks[telemetry].status, TaskStatus::Failed);
    assert_eq!(lm.tasks[voter].status, TaskStatus::Failed);
}

#[test]
fn observer_gadget_issues_no_votes() {
    let auth = AuthoritySet::genesis(vec![10, 20]);
    let mut store = ChainStore::open(genesis());
    let mut pipeline = ImportPipeline::new();
    let a = block(store.best, 1, 1, 10, vec![]);
    pipeline.import(&mut store, &auth, &a, BlockOrigin::Network);
    // An identity outside the authority set observes without voting.
    let mut observer = FinalityGadget::new(AuthoritySet::genesis(vec![10, 20]), Some(99));
    observer.on_notification(&store.notifications[0]);
    assert_eq!(observer.voter_log.len(), 0);
    // A participant votes on the notified block.
    let mut voter = FinalityGadget::new(AuthoritySet::genesis(vec![10, 20]), Some(20));
    voter.on_notification(&store.notifications[0]);
    assert_eq!(voter.voter_log.len(), 1);
    assert_eq!(voter.voter_log[0].target, a.content_hash());
    assert_eq!(voter.voter_log[0].round, 0);
    assert_eq!(voter.round, 1);
}

#[test]
fn authority_snapshot_is_a_copy() {
    let auth = AuthoritySet::genesis(vec![1, 2, 3]);
    let snap = auth.snapshot();
    assert_eq!(snap.version, auth.version);
    assert_eq!(snap.authorities, auth.authorities);
    assert!(auth.is_authority(2));
    assert!(!auth.is_authority(4));
}
